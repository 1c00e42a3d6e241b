[package]
name = "aurora-indexer"
version = "0.1.0"
edition = "2021"
publish = false

[dependencies]
async-trait = "=0.1.92"
aurora-engine-sdk = { version = "=2.0.1", features = ["std"] }
aurora-engine-transactions = { version = "=1.4.0", features = ["std"] }
aurora-engine-types = "=3.0.0"
redis = { version = "=1.8.0", features = ["aio", "tokio-comp", "connection-manager"] }
