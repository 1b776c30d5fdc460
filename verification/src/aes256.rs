//! AES-256-GCM cipher backend.
//!
//! This is the active backend: the runtime value and the build-time encoder
//! both use it, so the two halves of the library agree on key size, nonce
//! size and algorithm.  Encryption appends a 16-byte authentication tag;
//! decryption fails closed on any tampering or key/nonce mismatch.

use vstd::prelude::*;

use aes_gcm::aead::Aead;
use aes_gcm::Aes256Gcm;
use aes_gcm::KeyInit;
use aes_gcm::Nonce;

use crate::error::ObfuseError;

verus! {

/// Key size for AES-256-GCM (32 bytes).
pub const KEY_SIZE: usize = 32;

/// Nonce size for AES-GCM (12 bytes).
pub const NONCE_SIZE: usize = 12;

/// The AES-256-GCM ciphertext (tag appended) for a plaintext, key and
/// nonce.  Encryption is deterministic, so the ciphertext is a function of
/// these three inputs alone; only lengths within the AES-GCM message limit
/// of 2^36 bytes are ever applied.
pub uninterp spec fn seal(plaintext: Seq<u8>, key: Seq<u8>, nonce: Seq<u8>) -> Seq<u8>;

/// Relies on aes_gcm::Aes256Gcm (`KeyInit::new_from_slice`,
/// `aead::Aead::encrypt`): for a 32-byte key, encryption of a plaintext
/// within the AES-GCM message limit succeeds and returns the ciphertext
/// with its 16-byte authentication tag appended, a pure function of
/// plaintext, key and nonce.
#[verifier::external_body]
pub fn encrypt(plaintext: &[u8], key: &[u8; 32], nonce: &[u8; 12]) -> (r: Vec<u8>)
    requires
        plaintext@.len() <= 0x10_0000_0000,
    ensures
        r@ == seal(plaintext@, key@, nonce@),
        r@.len() == plaintext@.len() + 16,
{
    let cipher = Aes256Gcm::new_from_slice(key).expect("key length is fixed at 32 bytes");
    cipher.encrypt(Nonce::from_slice(nonce), plaintext).expect("plaintext within AES-GCM limits")
}

/// Relies on aes_gcm::Aes256Gcm (`KeyInit::new_from_slice`,
/// `aead::Aead::decrypt`): authenticated decryption succeeds exactly on the
/// ciphertexts that the same key and nonce produced, returning the original
/// plaintext; every other input fails the tag check and never yields
/// partial output.
#[verifier::external_body]
pub fn decrypt(ciphertext: &[u8], key: &[u8; 32], nonce: &[u8; 12]) -> (r: Result<
    Vec<u8>,
    ObfuseError,
>)
    ensures
        r matches Ok(p) ==> ciphertext@ == seal(p@, key@, nonce@) && p@.len() + 16
            == ciphertext@.len(),
        r matches Ok(q) ==> forall|p: Seq<u8>|
            p.len() <= 0x10_0000_0000 && ciphertext@ == #[trigger] seal(p, key@, nonce@)
                ==> q@ == p,
        r is Err ==> forall|p: Seq<u8>|
            p.len() <= 0x10_0000_0000 ==> ciphertext@ != #[trigger] seal(p, key@, nonce@),
        r matches Err(e) ==> e == ObfuseError::AuthenticationFailed,
{
    let cipher = match Aes256Gcm::new_from_slice(key) {
        Ok(c) => c,
        Err(_) => return Err(ObfuseError::AuthenticationFailed),
    };
    cipher
        .decrypt(Nonce::from_slice(nonce), ciphertext)
        .map_err(|_| ObfuseError::AuthenticationFailed)
}

} // verus!
