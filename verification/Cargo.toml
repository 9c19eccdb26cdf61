[package]
name = "bge_router"
version = "0.1.0"
edition = "2021"
publish = false

[dependencies]
anyhow = "=1.0.104"
arc-swap = "=1.9.3"
axum = "=0.8.9"
axum-server = { version = "=0.7.3", features = ["tls-rustls"] }
bytes = "=1.12.1"
http-body-util = "=0.1.5"
reqwest = { version = "=0.12.28", default-features = false, features = ["json", "rustls-tls-native-roots", "stream"] }
serde = { version = "=1.0.229", features = ["derive"] }
serde_json = "=1.0.154"
tokio = { version = "=1.54.1", features = ["full"] }
tower-http = { version = "=0.6.11", features = ["request-id", "trace"] }
tracing = "=0.1.44"
tracing-subscriber = { version = "=0.3.23", features = ["env-filter", "json"] }
