[package]
name = "flowblocks"
version = "0.1.0"
edition = "2021"
publish = false

[dependencies]
hex = "0.4"
libsecp256k1 = "0.7"
sha2 = "0.10"
tiny-keccak = { version = "2", features = ["keccak", "sha3"] }
webbrowser = "*"
