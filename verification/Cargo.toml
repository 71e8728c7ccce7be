[package]
name = "docker_relay"
version = "0.1.0"
edition = "2021"
publish = false

[dependencies]
serde_json = { version = "1", features = ["preserve_order"] }
serde = { version = "1", features = ["derive"] }
tokio = { version = "1", features = ["full"] }
futures = "0.3"
log = "0.4"
env_logger = "0.11"
rustls = "0.23"
bollard = "0.18"
wtransport = "*"
axum = "0.8"
socketioxide = "*"
quiche = "*"
