[package]
name = "agent"
version = "0.1.0"
edition = "2021"
publish = false

[dependencies]
anyhow = "1"
futures = "0.3"
serde = { version = "1", features = ["derive"] }
serde_json = "1"
tiktoken-rs = "0.4"
tokio = { version = "1", default-features = false, features = ["sync"] }
tracing = "0.1"
uuid = "1"
