//! The dashboard.
pub mod answer_laws;
pub mod browse;
pub mod config;
pub mod cursor;
pub mod draw_laws;
pub mod handler;
pub mod key_laws;
pub mod laws;
pub mod network;
pub mod session;
pub mod state;
pub mod ui;
