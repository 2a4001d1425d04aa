[package]
name = "fcmp"
version = "0.1.0"
edition = "2021"
publish = false

[dependencies]
blake2 = "0.10"
curve25519-dalek = "4"
rand_core = { version = "0.6", features = ["getrandom"] }
zeroize = "1"
