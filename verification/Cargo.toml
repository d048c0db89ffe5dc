[package]
name = "metrics_keda"
version = "0.1.0"
edition = "2021"
publish = false

[dependencies]
anyhow = "*"
clap = { version = "*", features = ["derive"] }
tokio = { version = "*", features = ["rt-multi-thread", "time", "sync", "macros", "signal"] }
tokio-stream = "*"
tonic = "*"
tracing = "*"
