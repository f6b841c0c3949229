[package]
name = "ankitui_tui"
version = "0.1.0"
edition = "2021"
publish = false

[dependencies]
anyhow = "=1.0.104"
chrono = "=0.4.45"
crossterm = "=0.28.1"
dirs = "=5.0.1"
log = "=0.4.35"
ratatui = "=0.29.0"
serde = { version = "=1.0.229", features = ["derive"] }
serde_json = "=1.0.154"
thiserror = "=1.0.69"
toml = "=0.8.23"
uuid = { version = "=1.29.1", features = ["v4"] }
