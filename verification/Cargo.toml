[package]
name = "rust_telemetry"
version = "0.1.0"
edition = "2021"
publish = false

[dependencies]
opentelemetry = "=0.30.0"
opentelemetry_sdk = "=0.30.0"
opentelemetry-otlp = { version = "=0.30.0", features = ["grpc-tonic", "trace", "metrics", "logs"] }
opentelemetry-appender-tracing = "=0.30.1"
opentelemetry-resource-detectors = "=0.9.0"
opentelemetry-semantic-conventions = "=0.30.0"
opentelemetry-http = "=0.30.0"
tracing = "*"
tracing-opentelemetry = "=0.31.0"
tracing-subscriber = { version = "*", features = ["env-filter", "json"] }
axum = "*"
tower-otel-http-metrics = "=0.16.0"
reqwest = { version = "*", default-features = false }
reqwest-middleware = "*"
http = "*"
async-trait = "*"
serde = { version = "*", features = ["derive"] }
serde_yaml = "*"
schemars = "*"
url = { version = "*", features = ["serde"] }
thiserror = "*"

[dev-dependencies]
tokio = { version = "*", features = ["rt-multi-thread", "net", "time"] }
