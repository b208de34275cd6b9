[package]
name = "dcap-rs"
version = "0.1.0"
edition = "2021"
publish = false

[dependencies]
alloy-sol-types = "=0.8.26"
anyhow = "=1.0.104"
borsh = { version = "=1.8.1", features = ["derive"] }
chrono = { version = "=0.4.45", default-features = false, features = ["alloc", "serde"] }
hex = "=0.4.3"
serde = { version = "=1.0.229", features = ["derive"] }
serde_json = { version = "=1.0.154", features = ["raw_value"] }
solana-program = "=2.3.0"
tiny-keccak = { version = "=2.0.2", features = ["keccak"] }
x509-cert = { version = "=0.2.5", features = ["pem"] }
