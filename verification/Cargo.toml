[package]
name = "webhook"
version = "0.1.0"
edition = "2021"
publish = false

[dependencies]
axum = "0.8"
bytes = "1"
chrono = { version = "0.4", features = ["serde"] }
crossterm = "*"
dirs = "*"
http-body-util = "0.1"
ratatui = "*"
serde = { version = "1", features = ["derive"] }
serde_json = "1"
serde_yaml = "0.9"
tokio = { version = "1", features = ["full"] }
