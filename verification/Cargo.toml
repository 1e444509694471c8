[package]
name = "completion_bridge"
version = "0.1.0"
edition = "2021"
publish = false

[dependencies]
axum = "0.7"
flume = "0.11"
futures-util = "0.3"
serde = { version = "1", features = ["derive"] }
