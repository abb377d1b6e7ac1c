//! File versioning and synchronisation: snapshots of tracked files, structured
//! diffs between them, and the bookkeeping that keeps local history and remote
//! copies in step. Beside it stand two small companions: an index of the
//! words of files, and a list of tasks.

pub mod config;
pub mod error;
pub mod knowbase;
pub mod text;
pub mod todo;
pub mod value;
pub mod vcs;
