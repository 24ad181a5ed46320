[package]
name = "pumpstack"
version = "0.1.0"
edition = "2021"
publish = false

[dependencies]
anyhow = "*"
base64 = "*"
bs58 = "*"
chrono = "*"
dotenv = "*"
futures = "*"
reqwest = { version = "*", features = ["json"] }
serde_json = "*"
tokio = { version = "*", features = ["full"] }
tracing = "*"
tracing-subscriber = { version = "*", features = ["env-filter"] }
