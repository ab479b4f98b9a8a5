[package]
name = "identity"
version = "0.1.0"
edition = "2021"
publish = false

[dependencies]
ark-bls12-381 = "0.4"
ark-crypto-primitives = { version = "0.4", features = ["crh", "merkle_tree", "signature"] }
ark-ec = "0.4"
ark-ed-on-bls12-381 = "0.4"
ark-ff = "0.4"
ark-serialize = "0.4"
ark-std = "0.4"
blake2 = "0.10"
blake2s_simd = "1"
hex = "0.4"
rand = "0.8"
rand_chacha = "0.3"
