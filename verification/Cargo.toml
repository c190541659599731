[package]
name = "responses_proxy"
version = "0.1.0"
edition = "2021"
publish = false

[dependencies]
axum = "0.8"
dotenvy = "0.15"
env_logger = "0.11"
log = "0.4"
reqwest = { version = "0.12", default-features = false, features = ["json", "rustls-tls", "stream"] }
serde = { version = "1", features = ["derive"] }
serde_json = "1"
tokio = { version = "1", features = ["full"] }
tower-http = { version = "0.6", features = ["compression-gzip"] }
