[package]
name = "rpc_client"
version = "0.1.0"
edition = "2021"
publish = false

[dependencies]
bincode = { version = "=0.6.1", default-features = false, features = ["serde"] }
futures = "=0.1.31"
serde = "=0.8.23"
tokio-core = "=0.1.18"
tokio-io = "=0.1.13"
tokio-proto = "=0.1.1"
tokio-service = "=0.1.0"
