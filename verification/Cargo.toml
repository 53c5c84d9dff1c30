[package]
name = "grass_claim"
version = "0.1.0"
edition = "2021"
publish = false

[dependencies]
serde = { version = "1", features = ["derive"] }
serde_json = "1"
solana-program = "2"
solana-sdk = "2"
spl-token = "6"
tokio = { version = "1", features = ["rt-multi-thread", "macros", "time", "fs"] }
reqwest = { version = "0.12", default-features = false, features = ["json", "rustls-tls"] }
toml = "0.8"
eyre = "0.6"
tracing = "0.1"
bincode = "1"
