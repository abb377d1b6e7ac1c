//! A list of tasks to do, with priorities and the days they recur on.

pub mod cli;
pub mod enums;
pub mod tasks;
pub mod zenity;
