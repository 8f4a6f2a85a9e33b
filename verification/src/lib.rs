//! Keeping directories in step with remote hosts: a one-shot backup tool, and a daemon with a
//! dashboard.
pub mod client;
pub mod common;
pub mod hpc_sync;
pub mod lines;
pub mod number;
pub mod order;
pub mod path;
pub mod protocol;
pub mod server;
pub mod text;
