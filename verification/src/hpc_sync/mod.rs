//! The one-shot backup tool: configuration, command lines, records and operations.
pub mod cli;
pub mod command_laws;
pub mod config;
pub mod error;
pub mod execution;
pub mod exit_class;
pub mod moment;
pub mod operations;
pub mod process;
pub mod records;
pub mod rsync;
pub mod safety;
pub mod state;
