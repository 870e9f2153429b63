[package]
name = "chess_covenant"
version = "0.1.0"
edition = "2021"
publish = false

[dependencies]
blake2b_simd = "1"
kaspa-consensus-core = "2"
secp256k1 = { version = "0.29", features = ["global-context", "rand", "rand-std"] }
serde_json = "1"
