[package]
name = "checkpoint_output"
version = "0.1.0"
edition = "2021"
publish = false

[dependencies]
async-trait = "0.1.92"
fastcrypto = "0.1.11"
tokio = { version = "1.54.1", features = ["sync", "rt"] }
tracing = "0.1.44"
