[package]
name = "redis_rover"
version = "0.1.0"
edition = "2021"
publish = false

[dependencies]
redis = { version = "*", features = ["tokio-comp", "connection-manager"] }
tokio = { version = "*", features = ["full"] }
tokio-util = "*"
futures = "*"
crossterm = { version = "*", features = ["event-stream"] }
ratatui = "*"
