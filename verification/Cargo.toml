[package]
name = "gamma_pallets"
version = "0.1.0"
edition = "2021"
publish = false

[dependencies]
sha3 = "=0.12.0"
parity-scale-codec = { version = "=3.7.5", default-features = false, features = ["std"] }
sp-arithmetic = { version = "=29.0.0", default-features = false, features = ["std"] }
sp-core = { version = "=43.0.0", default-features = false }
sp-crypto-hashing = "=0.1.0"
substrate-fixed = "=0.6.0"
serde = { version = "=1.0.229", features = ["derive"] }
jsonrpc-core = "18"
