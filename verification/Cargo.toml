[package]
name = "groq_client"
version = "0.1.0"
edition = "2021"
publish = false

[dependencies]
serde_json = "*"
reqwest = { version = "*", default-features = false, features = ["stream"] }
tokio = { version = "*", features = ["io-util"] }
tokio-util = { version = "*", features = ["codec", "io"] }
futures = "*"
thiserror = "*"
