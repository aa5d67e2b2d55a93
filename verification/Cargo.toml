[package]
name = "async_anthropic"
version = "0.1.0"
edition = "2021"
publish = false

[dependencies]
serde = { version = "1", features = ["derive"] }
serde_json = "1"
reqwest = { version = "0.12", default-features = false, features = ["json", "stream"] }
reqwest-eventsource = "*"
tokio = { version = "1", features = ["sync", "rt", "time"] }
tokio-stream = "*"
secrecy = "*"
