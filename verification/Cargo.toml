[package]
name = "securefabric_sdk"
version = "0.1.0"
edition = "2021"
publish = false

[dependencies]
ed25519-dalek = "2"
chacha20poly1305 = "0.10"
blake3 = "1"
rand = "0.8"
