[package]
name = "relay_core"
version = "0.1.0"
edition = "2021"
publish = false

[dependencies]
async-stream = "=0.3.6"
axum = { version = "=0.8.9", default-features = false }
chrono = { version = "=0.4.45", default-features = false, features = ["clock", "std"] }
clap = { version = "=4.6.7", features = ["derive"] }
futures-util = "=0.3.34"
http-body-util = "=0.1.5"
opentelemetry = { version = "=0.33.1", features = ["trace"] }
opentelemetry-otlp = { version = "=0.33.1", default-features = false, features = ["trace", "http-proto", "grpc-tonic", "reqwest-client"] }
opentelemetry_sdk = { version = "=0.33.1", features = ["trace"] }
reqwest = { version = "=0.12.28", default-features = false, features = ["json", "stream"] }
serde = { version = "=1.0.229", features = ["derive"] }
serde_json = "=1.0.154"
serde_yaml = "=0.9.34"
thiserror = "=2.0.21"
tokio = { version = "=1.54.1", features = ["rt", "time", "macros"] }
tonic = { version = "=0.14.9", default-features = false }
uuid = { version = "=1.29.0", features = ["v7"] }
