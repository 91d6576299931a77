[package]
name = "grid_daemon"
version = "0.1.0"
edition = "2021"
publish = false

[dependencies]
rust-crypto = "0.2"
protobuf = "2"
sabre-sdk = "0.5"
sawtooth-sdk = "0.4"
serde = { version = "1", features = ["derive"] }
serde_json = "1"
splinter = { version = "0.3", features = ["events"] }
reqwest = { version = "0.10", features = ["blocking", "json"] }
futures = "0.3"
url = "2"
