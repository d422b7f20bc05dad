[package]
name = "lite_rpc"
version = "0.1.0"
edition = "2021"
publish = false

[dependencies]
anyhow = "1"
log = "0.4"
serde_json = "1"
solana-sdk = "=1.16.27"
solana-transaction-status = "=1.16.27"
tokio = { version = "1", features = ["rt-multi-thread", "macros", "signal", "fs", "sync", "time", "net", "io-util"] }
