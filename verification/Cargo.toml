[package]
name = "remote_prover"
version = "0.1.0"
edition = "2021"
publish = false

[dependencies]
anyhow = "1"
log = "0.4"
rand = "0.8"
reqwest = "0.11"
tokio = { version = "1", features = ["time"] }
