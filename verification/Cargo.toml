[package]
name = "x3dh_crypto"
version = "0.1.0"
edition = "2021"
publish = false

[dependencies]
curve25519-dalek = "4"
sha2 = "0.10"
hkdf = "0.12"
num-bigint = "0.4"
aes-gcm = "0.9"
hex = "0.4"
wasm-bindgen = "0.2"
js-sys = "0.3"
