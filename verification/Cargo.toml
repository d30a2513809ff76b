[package]
name = "freedom_core"
version = "0.1.0"
edition = "2021"
publish = false

[dependencies]
chacha20poly1305 = "0.10"
crc32fast = "1"
ed25519-dalek = "2"
hkdf = "0.12"
rand = "0.8"
sha2 = "0.10"
x25519-dalek = { version = "2", features = ["static_secrets"] }
