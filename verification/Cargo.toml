[package]
name = "rumqtt"
version = "0.1.0"
edition = "2021"
publish = false

[dependencies]
bytes = "1"
flume = "0.11"
pollster = "0.3"
thiserror = "1"
tokio = { version = "1", features = ["rt"] }
warp = "0.3"
serde = { version = "1", features = ["derive"] }
