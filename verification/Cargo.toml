[package]
name = "metrics_exporter_tracing"
version = "0.1.0"
edition = "2021"
publish = false

[dependencies]
tracing = "*"
tokio = { version = "*", default-features = false, features = ["time"] }
metrics-core = "*"
