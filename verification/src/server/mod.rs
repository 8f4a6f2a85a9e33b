//! The daemon: its tasks, its workers and what it answers.
pub mod config;
pub mod connection;
pub mod handler;
pub mod laws;
pub mod listing;
pub mod ssh;
pub mod state;
pub mod worker;
