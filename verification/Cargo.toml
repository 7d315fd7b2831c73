[package]
name = "tdog"
version = "0.1.0"
edition = "2021"
publish = false

[dependencies]
serde = { version = "1", features = ["derive"] }
serde_json = "1"
regex = "1"
colored = "2"
humantime = "2"
chrono = "0.4"
log = "0.4"
atty = "0.2"
anyhow = "1"
tokio = { version = "0.2", features = ["full"] }
futures = "0.3"
uuid = { version = "0.8", features = ["v4"] }
async-trait = "0.1"
