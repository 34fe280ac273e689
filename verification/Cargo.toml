[package]
name = "qq_gateway"
version = "0.1.0"
edition = "2021"
publish = false

[dependencies]
anyhow = "1"
async-trait = "0.1"
futures-util = "0.3"
reqwest = { version = "0.12", default-features = false }
serde_json = "1"
tokio = { version = "1", features = ["sync", "time", "macros", "rt"] }
tokio-tungstenite = "*"
tracing = "0.1"
