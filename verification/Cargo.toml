[package]
name = "transaction_cache"
version = "0.1.0"
edition = "2021"
publish = false

[dependencies]
anyhow = "=1.0.104"
log = "=0.4.35"
serde = { version = "=1.0.229", features = ["derive"] }
serde_json = "=1.0.154"
sled = "=0.34.7"
solana-sdk = { version = "=2.3.1", default-features = false }
solana-signature = "=2.3.0"
solana-transaction-status-client-types = "=2.3.13"
tokio = { version = "=1.54.1", features = ["time", "rt", "macros"] }
reqwest = { version = "=0.12.28", default-features = false, features = ["json", "rustls-tls"] }
