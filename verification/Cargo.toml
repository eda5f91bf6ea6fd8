[package]
name = "envoy_spanner_extension"
version = "0.1.0"
edition = "2021"
publish = false

[dependencies]
google-cloud-spanner = "=0.33.0"
http-body-util = "=0.1.5"
opentelemetry = "=0.32.0"
opentelemetry-otlp = { version = "=0.32.0", default-features = false, features = ["grpc-tonic", "trace"] }
opentelemetry-proto = { version = "=0.32.0", default-features = false, features = ["gen-tonic-messages", "trace"] }
opentelemetry_sdk = { version = "=0.32.1", features = ["trace"] }
prost = "=0.14.4"
rustls = { version = "=0.23.46", features = ["aws_lc_rs"] }
serde = { version = "=1.0.229", features = ["derive"] }
serde_json = "=1.0.154"
thiserror = "=2.0.21"
tokio = { version = "=1.54.1", features = ["rt-multi-thread", "time"] }
tokio-stream = "=0.1.19"
tonic = { version = "=0.14.9", default-features = false }
tonic-prost = "=0.14.9"
uuid = { version = "=1.29.0", features = ["v4"] }

[dev-dependencies]
opentelemetry_sdk = { version = "=0.32.1", features = ["trace", "testing"] }
