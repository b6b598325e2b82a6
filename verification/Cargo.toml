[package]
name = "oxicord"
version = "0.1.0"
edition = "2021"
publish = false

[dependencies]
serde_json = "*"
base64 = "*"
chrono = "*"
ratatui = "*"
crossterm = "*"
notify-rust = "*"
tokio = { version = "*", features = ["rt-multi-thread", "macros"] }
tracing = "*"
