[package]
name = "sidecar_rpc"
version = "0.1.0"
edition = "2021"
publish = false

[dependencies]
serde_json = "1"
tokio = { version = "1", features = ["sync", "process", "io-util", "rt-multi-thread", "time", "macros"] }
