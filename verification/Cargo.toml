[package]
name = "federation"
version = "0.1.0"
edition = "2021"
publish = false

[dependencies]
petgraph = "0.6"
tokio = { version = "1", features = ["sync", "rt", "rt-multi-thread", "macros"] }
eyre = "0.6"
