[package]
name = "dex_indexer"
version = "0.1.0"
edition = "2021"
publish = false

[dependencies]
anyhow = "1"
arrayref = "0.3"
serde = { version = "1", features = ["derive"] }
serde_json = "1"
solana-program = "*"
uuid = { version = "0.8", features = ["v4"] }
