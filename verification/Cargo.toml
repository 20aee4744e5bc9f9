[package]
name = "traced_runtime_group"
version = "0.1.0"
edition = "2021"
publish = false

[dependencies]
tokio = { version = "1", features = ["rt", "rt-multi-thread", "sync", "time"] }
arc-swap = "1"
libc = "0.2"
tracing = "0.1"
metrique-writer = "*"
aws-sdk-s3 = { version = "1", default-features = false }
