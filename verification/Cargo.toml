[package]
name = "librisync"
version = "0.1.0"
edition = "2021"
publish = false

[dependencies]
aes = "=0.8.4"
base64 = "=0.22.1"
cbc = { version = "=0.1.2", features = ["alloc", "block-padding"] }
serde = { version = "=1.0.229", features = ["derive"] }
serde_json = "=1.0.151"
sha2 = "=0.10.9"
