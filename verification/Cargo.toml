[package]
name = "solana_gateway"
version = "0.1.0"
edition = "2021"
publish = false

[dependencies]
axum = "0.7"
base64 = "0.22"
bs58 = "0.4"
ed25519-dalek = "1"
serde = { version = "1", features = ["derive"] }
serde_json = "1"
solana-sdk = "1.18"
spl-token = { version = "4", features = ["no-entrypoint"] }
tokio = { version = "1", features = ["macros", "rt-multi-thread"] }
tower-http = { version = "0.5", features = ["cors"] }
tracing = "0.1"
