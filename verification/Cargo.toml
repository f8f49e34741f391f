[package]
name = "op_eth_api"
version = "0.1.0"
edition = "2021"
publish = false

[dependencies]
alloy-consensus = "=2.5.0"
alloy-eips = { version = "=2.5.0", features = ["serde"] }
alloy-primitives = { version = "=1.7.3", features = ["serde"] }
jsonrpsee = { version = "=0.26.1", features = ["http-client"] }
jsonrpsee-core = "=0.26.1"
parking_lot = "=0.13.0"
tokio = { version = "=1.54.1", features = ["time"] }
