[package]
name = "txn_gate"
version = "0.1.0"
edition = "2021"
publish = false

[dependencies]
sha3 = "*"
ed25519-dalek = "*"
serde = { version = "*", features = ["derive"] }
