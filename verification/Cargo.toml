[package]
name = "memory_control"
version = "0.1.0"
edition = "2021"
publish = false

[dependencies]
fixedbitset = "0.4"
tokio = { version = "1", features = ["time"] }
tracing = "0.1"
