//! A small index of the words of files, and the tasks found in notes.

pub mod engine;
pub mod file_handlers;
pub mod markdown_parser;
pub mod models;
pub mod todo;
