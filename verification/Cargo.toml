[package]
name = "kloakt"
version = "0.2.0"
edition = "2021"
publish = false

[dependencies]
serde_json = "1"
url = "2"
clap = { version = "4", features = ["derive"] }
tokio = { version = "1", features = ["full"] }
anyhow = "1"
tracing = "0.1"
tracing-subscriber = { version = "0.3", features = ["env-filter"] }
