[package]
name = "solana_toolbox"
version = "0.1.0"
edition = "2021"
publish = false

[dependencies]
axum = "0.8"
base64 = "0.22"
bs58 = "0.5"
serde = { version = "1", features = ["derive"] }
serde_json = "1"
solana-sdk = "2.2"
solana-system-interface = { version = "1.0", features = ["bincode"] }
spl-associated-token-account = "7.0"
spl-token = "8.0"
thiserror = "2"
tokio = { version = "1", features = ["macros", "net", "rt-multi-thread"] }
