[package]
name = "asset_codec"
version = "0.1.0"
edition = "2021"
publish = false

[dependencies]
anyhow = "*"
base64 = "=0.23.1"
clap = { version = "*", features = ["derive"] }
dotenvy = "*"
env_logger = "*"
hex = "=0.4.3"
log = "*"
reqwest = { version = "*", default-features = false }
serde = { version = "*", features = ["derive"] }
serde_json = "*"
solana-address = "=2.9.0"
solana-pubkey = { version = "=4.4.0", features = ["curve25519"] }
tokio = { version = "*", features = ["macros", "rt-multi-thread"] }
