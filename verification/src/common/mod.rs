//! What the dashboard and the daemon share.
pub mod daemon;
pub mod utils;
