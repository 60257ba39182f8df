[package]
name = "batcher_retry"
version = "0.1.0"
edition = "2021"
publish = false

[dependencies]
ethers = "2"
hex = "0.4"
log = "0.4"
tokio = { version = "1", features = ["time"] }
