[package]
name = "traces"
version = "0.1.0"
edition = "2021"
publish = false

[dependencies]
opentelemetry = "=0.33.0"
opentelemetry_sdk = "=0.33.0"
opentelemetry-stdout = "=0.33.0"
opentelemetry-otlp = { version = "=0.33.0", features = ["grpc-tonic", "gzip-tonic"] }
tonic = "=0.14.6"
