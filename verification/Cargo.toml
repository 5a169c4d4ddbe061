[package]
name = "near_greeting"
version = "0.1.0"
edition = "2021"
publish = false

[dependencies]
near-crypto = "=0.37.4"
near-primitives = "=0.37.4"
near-jsonrpc-client = "=0.22.0"
near-jsonrpc-primitives = "=0.37.4"
ed25519-dalek = "=2.2.0"
borsh = "=1.8.1"
toml = "=1.1.7"
serde = { version = "=1.0.229", features = ["derive"] }
serde_json = "=1.0.151"
dirs = "=7.0.0"
tokio = { version = "=1.53.2", features = ["rt"] }
