[package]
name = "yapping_client"
version = "0.1.0"
edition = "2021"
publish = false

[dependencies]
websocket = { version = "0.27.1", default-features = false, features = ["sync"] }
bincode = "1.3.3"
serde = { version = "1", features = ["derive"] }
