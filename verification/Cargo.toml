[package]
name = "rcrypto"
version = "0.1.0"
edition = "2021"
publish = false

[dependencies]
rsa = { version = "=0.9.10", features = ["sha2", "pkcs5"] }
base64 = "=0.22.1"
rustler = "=0.36.2"

[dev-dependencies]
rand = "=0.8.8"
