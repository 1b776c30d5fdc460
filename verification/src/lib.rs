//! Compile-time string obfuscation with lazy runtime decryption and secure
//! memory wiping.
//!
//! The library has two halves that must agree bit for bit on cipher
//! semantics.  The build-time encoder derives a key and nonce from an
//! optional seed string and encrypts a literal, producing the
//! `(ciphertext, key, nonce)` triple that is embedded in the artifact.  The
//! runtime value ([`ObfuseStr`]) owns such a triple, decrypts it on first
//! access, caches the plaintext, and scrubs all sensitive bytes when it is
//! no longer needed.
//!
//! This is obfuscation, not confidentiality: the key ships in the same
//! artifact as the ciphertext.  The goal is to keep literals out of naive
//! string dumps, not to resist an attacker who can run the artifact.

pub mod aes128;
pub mod aes256;
pub mod chacha;
pub mod encoder;
mod error;
pub mod keygen;
mod obfuse_str;
pub mod xor;

pub use encoder::{encrypt, encrypt_with_algorithm};
pub use error::ObfuseError;
pub use keygen::{create_seed_bytes, generate_deterministic, generate_key_nonce, generate_random};
pub use obfuse_str::ObfuseStr;

/// Key size in bytes of the active cipher backend (AES-256-GCM).
pub use aes256::KEY_SIZE;
/// Nonce size in bytes of the active cipher backend (AES-256-GCM).
pub use aes256::NONCE_SIZE;
