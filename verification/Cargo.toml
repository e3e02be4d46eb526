[package]
name = "mic_bridge"
version = "0.1.0"
edition = "2021"
publish = false

[dependencies]
chrono = "*"
cpal = "*"
dirs = "*"
parking_lot = "*"
serde = { version = "*", features = ["derive"] }
serde_json = "*"
thiserror = "*"
