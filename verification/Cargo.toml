[package]
name = "murmur"
version = "0.1.0"
edition = "2021"
publish = false

[dependencies]
serde = { version = "1", features = ["derive"] }
serde_json = "1"
wait-timeout = "0.2"
tokio = { version = "1", features = ["rt"] }
tauri = { version = "2", default-features = false, features = ["wry"] }
