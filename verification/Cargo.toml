[package]
name = "casbin_flamgraph"
version = "0.1.0"
edition = "2021"
publish = false

[dependencies]
casbin = { version = "=2.20.0", features = ["cached"] }
tokio = { version = "=1.53.2", features = ["rt-multi-thread"] }
