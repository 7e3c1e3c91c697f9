[package]
name = "kaspa_cpu_miner"
version = "0.1.0"
edition = "2021"
publish = false

[dependencies]
kaspa-pow = "*"
kaspa-consensus-core = "*"
kaspa-rpc-core = "*"
kaspa-addresses = "*"
tokio = { version = "*", features = ["rt-multi-thread", "sync", "time", "macros"] }
parking_lot = "*"
