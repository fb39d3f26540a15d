[package]
name = "comet_ui"
version = "0.1.0"
edition = "2021"
publish = false

[dependencies]
alacritty_terminal = "0.26"
anyhow = "1"
base64 = "0.22"
chrono = { version = "0.4", features = ["serde"] }
serde = { version = "1", features = ["derive"] }
serde_json = "1"
tokio = { version = "1", features = ["net", "rt", "time", "sync", "macros"] }
tracing = "0.1"
uuid = { version = "1", features = ["v4"] }
