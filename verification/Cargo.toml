[package]
name = "pork"
version = "0.1.0"
edition = "2021"
publish = false

[dependencies]
ipc-channel = { version = "*", features = ["async"] }
serde = { version = "*", features = ["derive"] }
serde_json = "*"
postcard = { version = "*", features = ["use-std"] }
tokio = { version = "*", features = ["full"] }
futures-util = "*"
