[package]
name = "save_updater"
version = "0.1.0"
edition = "2021"

[dependencies]
chrono = "0.4"
platform-dirs = "0.2"
serde = { version = "1", features = ["derive"] }
serde_json = "1"
