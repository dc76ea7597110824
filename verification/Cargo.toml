[package]
name = "sgx_ra"
version = "0.1.0"
edition = "2021"
publish = false

[dependencies]
p256 = { version = "0.13", features = ["ecdh", "ecdsa", "pem"] }
sha2 = "0.10"
cmac = "0.7"
aes = "0.8"
hex = "0.4"
rand_core = { version = "0.6", features = ["getrandom"] }
