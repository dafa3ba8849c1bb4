[package]
name = "action_queue"
version = "0.1.0"
edition = "2021"
publish = false

[dependencies]
actuate = "0.20"
futures = "0.3"
tokio = { version = "1", features = ["sync"] }
