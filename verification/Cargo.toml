[package]
name = "collab_integrate"
version = "0.1.0"
edition = "2021"
publish = false

[dependencies]
anyhow = "=1.0.104"
arc-swap = "=1.9.3"
tokio = { version = "=1.54.1", features = ["rt", "sync"] }
tracing = "=0.1.44"
uuid = "=1.29.0"
