[package]
name = "server"
version = "0.1.0"
edition = "2021"
publish = false

[dependencies]
axum = "=0.6.20"
axum-tracing-opentelemetry = { version = "0.11", features = ["otlp"] }
clap = { version = "=4.6.7", features = ["derive"] }
env_logger = "=0.10.2"
hyper = "=0.14.32"
log = "=0.4.35"
opentelemetry = { version = "0.19", features = ["rt-tokio"] }
opentelemetry-otlp = { version = "0.12", features = ["http-proto", "tonic"] }
serde = { version = "=1.0.229", features = ["derive"] }
thiserror = "=1.0.69"
tokio = { version = "=1.54.1", features = ["macros", "rt-multi-thread"] }
tracing = "=0.1.44"
tracing-opentelemetry = "0.19"
tracing-subscriber = { version = "=0.3.23", features = ["env-filter", "json"] }
