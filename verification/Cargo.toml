[package]
name = "async_flow"
version = "0.1.0"
edition = "2021"
publish = false

[dependencies]
tokio = { version = "*", features = ["rt", "rt-multi-thread", "time", "sync"] }
uuid = { version = "*", features = ["v4"] }
tracing = "*"
