//! Versioning of tracked files: snapshots, comparisons, logbooks and the
//! plans that carry one operation out on one file.

pub mod batch;
pub mod cli;
pub mod comparaison;
pub mod facade;
pub mod factory;
pub mod file;
pub mod laws;
pub mod logbook;
pub mod remote;
pub mod store;
pub mod versioning;
