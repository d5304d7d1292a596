[package]
name = "worker_core"
version = "0.1.0"
edition = "2021"
publish = false

[dependencies]
anyhow = "1"
bytes = "1"
futures = "0.3"
h2 = "0.3"
hyper = { version = "0.14", features = ["client", "http1", "http2", "stream", "tcp"] }
hyper-tls = "0.5"
opentelemetry = "0.20"
opentelemetry-http = "0.9"
rand = "0.8"
thiserror = "1"
tokio = { version = "1", features = ["macros", "rt", "sync", "time"] }
tokio-stream = "0.1"
tracing = "0.1"
