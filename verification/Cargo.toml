[package]
name = "raydium_swap"
version = "0.1.0"
edition = "2021"
publish = false

[dependencies]
anyhow = "1"
base64 = "=0.22.1"
bincode = "=1.3.3"
dotenv = "0.15"
reqwest = { version = "0.12", default-features = false, features = ["blocking", "json", "rustls-tls"] }
serde = { version = "1", features = ["derive"] }
serde_json = "1"
solana-sdk = "=2.1.21"
