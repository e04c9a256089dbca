[package]
name = "canoe"
version = "0.1.0"
edition = "2021"
publish = false

[dependencies]
axum = "0.6"
color-eyre = "0.6"
queues = "1.1"
serde = { version = "1", features = ["derive"] }
serde_json = "1"
sqlx = { version = "0.7", default-features = false, features = ["runtime-tokio", "sqlite", "migrate"] }
tokio = { version = "1", features = ["full"] }
tower-http = { version = "0.4", features = ["trace"] }
tracing = "0.1"
tracing-subscriber = "0.3"
