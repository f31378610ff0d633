[package]
name = "ene"
version = "1.0.0"
edition = "2021"
publish = false

[dependencies]
curve25519-dalek = { version = "=4.1.3", features = ["rand_core"] }
ed25519-dalek = { version = "=2.2.0", features = ["rand_core"] }
sha3 = "=0.10.9"
aes = "=0.8.4"
eax = "=0.5.0"
siphasher = "=1.0.4"
argon2rs = "=0.2.5"
rand = "=0.8.8"
