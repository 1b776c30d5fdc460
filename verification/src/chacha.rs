//! ChaCha20-Poly1305 cipher backend.
//!
//! An alternative AEAD backend with the same interface as the active one.
//! Encryption appends a 16-byte authentication tag; decryption fails closed
//! on any tampering or key/nonce mismatch.

use vstd::prelude::*;

use chacha20poly1305::aead::Aead;
use chacha20poly1305::ChaCha20Poly1305;
use chacha20poly1305::KeyInit;
use chacha20poly1305::Nonce;

use crate::error::ObfuseError;

verus! {

/// Key size for ChaCha20-Poly1305 (32 bytes).
pub const KEY_SIZE: usize = 32;

/// Nonce size for ChaCha20-Poly1305 (12 bytes).
pub const NONCE_SIZE: usize = 12;

/// The ChaCha20-Poly1305 ciphertext (tag appended) for a plaintext, key and
/// nonce.  Encryption is deterministic, so the ciphertext is a function of
/// these three inputs alone; only lengths within the cipher's message limit
/// are ever applied.
pub uninterp spec fn seal(plaintext: Seq<u8>, key: Seq<u8>, nonce: Seq<u8>) -> Seq<u8>;

/// Relies on chacha20poly1305::ChaCha20Poly1305 (`KeyInit::new_from_slice`,
/// `aead::Aead::encrypt`): for a 32-byte key, encryption of a plaintext
/// within the cipher's message limit succeeds and returns the ciphertext
/// with its 16-byte authentication tag appended, a pure function of
/// plaintext, key and nonce.
#[verifier::external_body]
pub fn encrypt(plaintext: &[u8], key: &[u8; 32], nonce: &[u8; 12]) -> (r: Vec<u8>)
    requires
        plaintext@.len() <= 0x10_0000_0000,
    ensures
        r@ == seal(plaintext@, key@, nonce@),
        r@.len() == plaintext@.len() + 16,
{
    let cipher = ChaCha20Poly1305::new_from_slice(key).expect("key length is fixed at 32 bytes");
    cipher.encrypt(Nonce::from_slice(nonce), plaintext).expect("plaintext within cipher limits")
}

/// Relies on chacha20poly1305::ChaCha20Poly1305 (`KeyInit::new_from_slice`,
/// `aead::Aead::decrypt`): authenticated decryption succeeds exactly on the
/// ciphertexts that the same key and nonce produced, returning the original
/// plaintext; every other input fails the tag check and never yields
/// partial output.
#[verifier::external_body]
pub fn decrypt(ciphertext: &[u8], key: &[u8; 32], nonce: &[u8; 12]) -> (r: Result<
    Vec<u8>,
    ObfuseError,
>)
    ensures
        r matches Ok(p) ==> ciphertext@ == seal(p@, key@, nonce@) && p@.len() + 16
            == ciphertext@.len(),
        r matches Ok(q) ==> forall|p: Seq<u8>|
            p.len() <= 0x10_0000_0000 && ciphertext@ == #[trigger] seal(p, key@, nonce@)
                ==> q@ == p,
        r is Err ==> forall|p: Seq<u8>|
            p.len() <= 0x10_0000_0000 ==> ciphertext@ != #[trigger] seal(p, key@, nonce@),
        r matches Err(e) ==> e == ObfuseError::AuthenticationFailed,
{
    let cipher = match ChaCha20Poly1305::new_from_slice(key) {
        Ok(c) => c,
        Err(_) => return Err(ObfuseError::AuthenticationFailed),
    };
    cipher
        .decrypt(Nonce::from_slice(nonce), ciphertext)
        .map_err(|_| ObfuseError::AuthenticationFailed)
}

} // verus!
