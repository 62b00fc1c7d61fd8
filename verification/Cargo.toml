[package]
name = "reserve_proof"
version = "0.1.0"
edition = "2021"
publish = false

[dependencies]
anyhow = "1"
base58 = "0.2"
base64 = "0.21"
bitcoin = { version = "0.30", features = ["base64"] }
bitcoincore-rpc = "0.17"
bulletproofs = "4"
clap = { version = "4", features = ["derive"] }
curve25519-dalek-ng = "4"
hex = "0.4"
merlin = "3"
qrcodegen = "1"
rand = "0.8"
serde = { version = "1", features = ["derive"] }
serde_json = "1"
sha2 = "0.10"
