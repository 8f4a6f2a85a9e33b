[package]
name = "server_sync"
version = "0.1.0"
edition = "2021"
publish = false

[dependencies]
anyhow = "1"
chrono = "0.4"
clap = { version = "4", features = ["derive", "env"] }
crossterm = "0.28"
ctrlc = "3"
daemonize = "0.5"
fs2 = "0.4"
log = "0.4"
notify = "6"
ratatui = "0.29"
regex = "1"
serde = { version = "1", features = ["derive"] }
serde_json = "1"
serde_yaml = "0.9"
sha2 = "0.10"
simplelog = "0.12"
sysinfo = "0.33"
tokio = { version = "1", features = ["full"] }
toml = "0.8"
