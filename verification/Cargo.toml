[package]
name = "mikrotik-exporter"
version = "0.1.0"
edition = "2021"
publish = false

[dependencies]
anyhow = "1"
axum = "0.8"
config = "0.15"
encoding_rs = "0.8"
env_logger = "0.11"
log = "0.4"
prometheus = "0.14"
protobuf = "3"
serde = { version = "1", features = ["derive"] }
tokio = { version = "1", features = ["full"] }
tokio-stream = "0.1"
