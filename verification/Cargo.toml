[package]
name = "recipient_address"
version = "0.1.0"
edition = "2021"
publish = false

[dependencies]
base58 = "=0.1.0"
sapling-crypto = "=0.9.0"
sha2 = "=0.10.9"
zcash_client_backend = "=0.25.0"
zcash_transparent = "=0.11.0"
