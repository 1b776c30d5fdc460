//! Errors that decryption of an obfuscated value can surface.

use vstd::prelude::*;

verus! {

/// Errors that can occur while decrypting an obfuscated string.
///
/// Every failure is fail-closed: no partial plaintext is ever returned.
#[derive(Debug, Clone, Copy, PartialEq, Eq, Structural)]
pub enum ObfuseError {
    /// Memory allocation failed during decryption.  Reserved: the current
    /// decryption path aborts on allocation failure instead of reporting it,
    /// so no operation of this crate produces this variant.
    AllocationFailed,
    /// Authentication tag verification failed: the ciphertext was tampered
    /// with, or key, nonce or cipher backend do not match the ones that
    /// produced it.
    AuthenticationFailed,
    /// The decrypted bytes are not valid UTF-8.  Carries the byte offset of
    /// the first invalid sequence.
    InvalidUtf8(usize),
}

impl ObfuseError {
    /// A short human-readable description of the error.
    pub fn message(&self) -> (r: &'static str)
        ensures
            r@ == match self {
                ObfuseError::AllocationFailed => "memory allocation failed during decryption"@,
                ObfuseError::AuthenticationFailed => "authentication failed - ciphertext may be corrupted"@,
                ObfuseError::InvalidUtf8(_) => "decrypted data is not valid UTF-8"@,
            },
    {
        match self {
            ObfuseError::AllocationFailed => "memory allocation failed during decryption",
            ObfuseError::AuthenticationFailed => "authentication failed - ciphertext may be corrupted",
            ObfuseError::InvalidUtf8(_) => "decrypted data is not valid UTF-8",
        }
    }
}

} // verus!
