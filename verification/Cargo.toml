[package]
name = "makiko"
version = "0.1.0"
edition = "2021"
publish = false

[dependencies]
bytes = "1"
ed25519-dalek = "1.0.1"
rand = "0.8"
sha1 = "0.10"
sha2 = "0.10"
log = "0.4"
parking_lot = "0.12"
pin-project = "1"
tokio = { version = "1", features = ["sync"] }
