[package]
name = "huginn"
version = "0.1.0"
edition = "2021"
publish = false

[dependencies]
arc-swap = "=1.9.2"
axum = { version = "=0.8.9", features = ["ws"] }
chrono = { version = "=0.4.45", features = ["serde"] }
clap = { version = "=4.6.7", features = ["derive"] }
futures = "=0.3.34"
huginn-net = { version = "=2.2.0", features = ["full"] }
serde = { version = "=1.0.229", features = ["derive"] }
serde_json = "=1.0.151"
thiserror = "=1.0.69"
tokio = { version = "=1.53.2", features = ["full"] }
tower-http = { version = "=0.7.1", features = ["cors", "fs", "trace"] }
tracing = "=0.1.44"
tracing-subscriber = "=0.3.23"
