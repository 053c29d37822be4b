[package]
name = "multisig"
version = "0.1.0"
edition = "2021"
publish = false

[dependencies]
parity-scale-codec = { version = "=3.7.5", features = ["derive"] }
scale-info = { version = "=2.11.6", features = ["derive"] }
frame-support = "=49.0.0"
frame-system = "=49.0.0"
sp-core = "=43.0.0"
sp-crypto-hashing = "=0.1.0"
sp-runtime = "=49.0.0"
sp-std = "=14.0.0"
