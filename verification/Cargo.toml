[package]
name = "spacebot_desktop"
version = "0.5.0"
edition = "2021"
publish = false

[dependencies]
url = "2"
serde_json = "1"
axum = "0.8"
reqwest = { version = "0.12", features = ["cookies", "json", "stream"] }
tokio = { version = "1", features = ["full"] }
tower-http = { version = "0.6", features = ["cors"] }
futures = "0.3"
bytes = "1"
tracing = "0.1"
tracing-subscriber = { version = "0.3", features = ["env-filter"] }
