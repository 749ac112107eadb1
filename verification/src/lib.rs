//! Key agreement and signatures over Curve25519: X25519 key generation and
//! Diffie-Hellman, HKDF-SHA-256 key derivation, and the XEdDSA signature
//! scheme, with machine-checked contracts for the byte-level logic.

pub mod aead;
mod buffers;
pub mod clamp;
pub mod curve;
pub mod dh;
pub mod encoding;
pub mod error;
pub mod hash;
pub mod scalar;
pub mod xeddsa;
