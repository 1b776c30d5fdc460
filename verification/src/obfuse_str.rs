//! The obfuscated string value: lazy decryption, a one-time plaintext
//! cache, and secure scrubbing of sensitive bytes.
//!
//! An [`ObfuseStr`] owns an embedded `(ciphertext, key, nonce)` triple
//! produced by the build-time encoder.  It starts locked; the first
//! successful access decrypts under the active cipher backend
//! (AES-256-GCM), caches the plaintext, and every later access serves the
//! same cached bytes.  A failed decryption leaves the value locked so a
//! later attempt can retry.  Scrubbing zeroes key, nonce and any cached
//! plaintext through writes the optimizer cannot elide, and runs again,
//! harmlessly, on destruction.

use vstd::prelude::*;

use vstd::utf8::decode_utf8;
use vstd::utf8::encode_utf8;
use vstd::utf8::partial_valid_utf8;
use vstd::utf8::valid_utf8;

use crate::aes256;
use crate::error::ObfuseError;

verus! {

/// Relies on std::str::from_utf8: returns the bytes borrowed as text
/// exactly when they are a valid UTF-8 encoding; on failure the error's
/// `valid_up_to` is documented as the maximum index up to which the bytes
/// are valid UTF-8, which is the byte offset of the first invalid
/// sequence.
#[verifier::external_body]
fn bytes_to_str(bytes: &[u8]) -> (r: Result<&str, usize>)
    ensures
        r matches Ok(s) ==> valid_utf8(bytes@) && s@ == decode_utf8(bytes@) && encode_utf8(s@)
            == bytes@,
        r is Ok <==> valid_utf8(bytes@),
        r matches Err(off) ==> off <= bytes@.len() && partial_valid_utf8(bytes@, off as int),
        r matches Err(off) ==> forall|j: int| #[trigger] partial_valid_utf8(bytes@, j) ==> j
            <= off,
{
    std::str::from_utf8(bytes).map_err(|e| e.valid_up_to())
}

/// Relies on zeroize::Zeroize for byte arrays: overwrites every element
/// with zero through writes the optimizer cannot elide; the length is
/// unchanged.
#[verifier::external_body]
fn wipe_array<const N: usize>(bytes: &mut [u8; N])
    ensures
        final(bytes)@ =~= Seq::new(N as nat, |i: int| 0u8),
    opens_invariants none
    no_unwind
{
    zeroize::Zeroize::zeroize(bytes);
}

/// Relies on zeroize::Zeroize for `Vec<u8>`: overwrites every byte and the
/// spare capacity with zero through writes the optimizer cannot elide, then
/// clears the vector.
#[verifier::external_body]
fn wipe_vec(bytes: &mut Vec<u8>)
    ensures
        final(bytes)@.len() == 0,
    opens_invariants none
    no_unwind
{
    zeroize::Zeroize::zeroize(bytes);
}

/// An obfuscated string that decrypts lazily on first access.
///
/// This provides obfuscation, not confidentiality: the key is embedded
/// beside the ciphertext.  It keeps literals out of string dumps and hex
/// editors, nothing more.
///
/// The value starts locked.  The first successful access decrypts and
/// caches the plaintext; the cache, once populated, never changes until the
/// value is scrubbed.  On destruction all sensitive memory (key, nonce,
/// cached plaintext) is zeroed through writes that cannot be optimized
/// away.
pub struct ObfuseStr {
    /// Ciphertext with its authentication tag, embedded in the artifact.
    encrypted: Vec<u8>,
    /// Encryption key (embedded beside the ciphertext).
    key: [u8; 32],
    /// Nonce the ciphertext was produced under.
    nonce: [u8; 12],
    /// Lazily populated plaintext cache.
    decrypted: Option<Vec<u8>>,
}

impl ObfuseStr {
    /// The embedded ciphertext (authentication tag included).
    pub closed spec fn ciphertext(&self) -> Seq<u8> {
        self.encrypted@
    }

    /// The embedded key bytes.
    pub closed spec fn key_bytes(&self) -> Seq<u8> {
        self.key@
    }

    /// The embedded nonce bytes.
    pub closed spec fn nonce_bytes(&self) -> Seq<u8> {
        self.nonce@
    }

    /// The cached plaintext, if the value has been decrypted.
    pub closed spec fn cached(&self) -> Option<Seq<u8>> {
        match self.decrypted {
            Some(v) => Some(v@),
            None => None,
        }
    }

    /// The cache only ever holds the plaintext of the embedded triple: the
    /// bytes the active backend decrypts the ciphertext to, which are also
    /// the only bytes that seal to this ciphertext under this key and
    /// nonce.
    #[verifier::type_invariant]
    spec fn inv(self) -> bool {
        self.decrypted matches Some(q) ==> {
            &&& self.encrypted@ == aes256::seal(q@, self.key@, self.nonce@)
            &&& q@.len() + 16 == self.encrypted@.len()
            &&& forall|p: Seq<u8>|
                p.len() <= 0x10_0000_0000 && self.encrypted@ == #[trigger] aes256::seal(
                    p,
                    self.key@,
                    self.nonce@,
                ) ==> q@ == p
        }
    }

    /// The scrubbed state: key and nonce overwritten with zeros, no cached
    /// plaintext left.  The ciphertext is kept, so this state is a function
    /// of the ciphertext alone.
    pub open spec fn scrubbed(self) -> bool {
        &&& self.key_bytes() =~= Seq::new(32, |i: int| 0u8)
        &&& self.nonce_bytes() =~= Seq::new(12, |i: int| 0u8)
        &&& self.cached() is None
    }

    /// Scrubbing is idempotent: any two scrubbed values over the same
    /// ciphertext agree on every observable, so a second scrub leaves a
    /// scrubbed value's visible state unchanged.
    pub proof fn lemma_scrub_idempotent(a: ObfuseStr, b: ObfuseStr)
        requires
            a.scrubbed(),
            b.scrubbed(),
            a.ciphertext() == b.ciphertext(),
        ensures
            a.key_bytes() == b.key_bytes(),
            a.nonce_bytes() == b.nonce_bytes(),
            a.cached() == b.cached(),
    {
        assert(a.key_bytes() =~= b.key_bytes());
        assert(a.nonce_bytes() =~= b.nonce_bytes());
    }

    /// True when an access can yield bytes: either the plaintext is already
    /// cached, or some plaintext seals to the ciphertext under the embedded
    /// key and nonce, so decryption will authenticate.
    pub open spec fn decryptable(self) -> bool {
        self.cached() is Some || exists|p: Seq<u8>|
            p.len() <= 0x10_0000_0000 && self.ciphertext() == #[trigger] aes256::seal(
                p,
                self.key_bytes(),
                self.nonce_bytes(),
            )
    }

    /// True when a text access can yield a string: the plaintext that the
    /// value holds or will decrypt to is valid UTF-8.
    pub open spec fn text_decryptable(self) -> bool {
        ||| (self.cached() matches Some(p) && valid_utf8(p))
        ||| (self.cached() is None && exists|p: Seq<u8>|
            p.len() <= 0x10_0000_0000 && self.ciphertext() == #[trigger] aes256::seal(
                p,
                self.key_bytes(),
                self.nonce_bytes(),
            ) && valid_utf8(p))
    }

    /// Creates a locked value from an embedded triple.  No decryption is
    /// performed.
    ///
    /// This is the constructor the code-generation layer emits calls to; it
    /// is not meant to be used directly.
    pub fn new(encrypted: Vec<u8>, key: [u8; 32], nonce: [u8; 12]) -> (r: Self)
        ensures
            r.ciphertext() == encrypted@,
            r.key_bytes() == key@,
            r.nonce_bytes() == nonce@,
            r.cached() is None,
    {
        ObfuseStr { encrypted, key, nonce, decrypted: None }
    }

    /// Returns `true` if the plaintext has already been decrypted and
    /// cached.  Never triggers decryption itself.
    pub fn is_decrypted(&self) -> (r: bool)
        ensures
            r == (self.cached() is Some),
    {
        self.decrypted.is_some()
    }

    /// Pre-decrypts the value without returning data, so that a later,
    /// timing-sensitive access finds the cache warm.
    ///
    /// On the first successful call the plaintext of the embedded triple is
    /// decrypted and cached; later calls keep the cache unchanged.  On
    /// failure the value stays locked, nothing is cached, and a later
    /// attempt will retry.
    pub fn try_decrypt(&mut self) -> (r: Result<(), ObfuseError>)
        ensures
            final(self).ciphertext() == old(self).ciphertext(),
            final(self).key_bytes() == old(self).key_bytes(),
            final(self).nonce_bytes() == old(self).nonce_bytes(),
            old(self).cached() is Some ==> r is Ok && final(self).cached() == old(self).cached(),
            r is Ok ==> (final(self).cached() matches Some(q) && old(self).ciphertext()
                == aes256::seal(q, old(self).key_bytes(), old(self).nonce_bytes()) && q.len() + 16
                == old(self).ciphertext().len()),
            r is Ok ==> forall|p: Seq<u8>|
                p.len() <= 0x10_0000_0000 && old(self).ciphertext() == #[trigger] aes256::seal(
                    p,
                    old(self).key_bytes(),
                    old(self).nonce_bytes(),
                ) ==> final(self).cached() == Some(p),
            r matches Err(e) ==> e == ObfuseError::AuthenticationFailed && old(self).cached()
                is None && final(self).cached() is None,
            r is Err ==> forall|p: Seq<u8>|
                p.len() <= 0x10_0000_0000 ==> old(self).ciphertext() != #[trigger] aes256::seal(
                    p,
                    old(self).key_bytes(),
                    old(self).nonce_bytes(),
                ),
    {
        proof {
            use_type_invariant(&*self);
        }
        if self.decrypted.is_some() {
            return Ok(());
        }
        match aes256::decrypt(self.encrypted.as_slice(), &self.key, &self.nonce) {
            Ok(p) => {
                self.decrypted = Some(p);
                Ok(())
            },
            Err(e) => Err(e),
        }
    }

    /// Returns the decrypted bytes, decrypting on first access.
    ///
    /// Callers must know that decryption authenticates
    /// ([`decryptable`](Self::decryptable)); use
    /// [`try_as_bytes`](Self::try_as_bytes) when failure must be handled.
    pub fn as_bytes(&mut self) -> (r: &[u8])
        requires
            old(self).decryptable(),
        ensures
            final(self).ciphertext() == old(self).ciphertext(),
            final(self).key_bytes() == old(self).key_bytes(),
            final(self).nonce_bytes() == old(self).nonce_bytes(),
            final(self).cached() == Some(r@),
            old(self).ciphertext() == aes256::seal(
                r@,
                old(self).key_bytes(),
                old(self).nonce_bytes(),
            ),
            r@.len() + 16 == old(self).ciphertext().len(),
            old(self).cached() matches Some(p) ==> r@ == p,
            forall|p: Seq<u8>|
                p.len() <= 0x10_0000_0000 && old(self).ciphertext() == #[trigger] aes256::seal(
                    p,
                    old(self).key_bytes(),
                    old(self).nonce_bytes(),
                ) ==> r@ == p,
    {
        let dec = self.try_decrypt();
        proof {
            if dec is Err {
                if old(self).cached() is None {
                    let p = choose|p: Seq<u8>|
                        p.len() <= 0x10_0000_0000 && old(self).ciphertext() == #[trigger] aes256::seal(
                            p,
                            old(self).key_bytes(),
                            old(self).nonce_bytes(),
                        );
                    assert(old(self).ciphertext() != aes256::seal(
                        p,
                        old(self).key_bytes(),
                        old(self).nonce_bytes(),
                    ));
                }
                assert(false);
            }
        }
        match dec {
            Ok(()) => match &self.decrypted {
                Some(v) => v.as_slice(),
                None => unreached(),
            },
            Err(_) => unreached(),
        }
    }

    /// Returns the decrypted bytes, or the error that decryption surfaced.
    ///
    /// Succeeds exactly when some plaintext seals to the embedded triple;
    /// any tampering, or a key/nonce/backend mismatch, yields
    /// `AuthenticationFailed` and leaves the value locked for a later
    /// retry.
    pub fn try_as_bytes(&mut self) -> (r: Result<&[u8], ObfuseError>)
        ensures
            final(self).ciphertext() == old(self).ciphertext(),
            final(self).key_bytes() == old(self).key_bytes(),
            final(self).nonce_bytes() == old(self).nonce_bytes(),
            r matches Ok(b) ==> final(self).cached() == Some(b@) && old(self).ciphertext()
                == aes256::seal(b@, old(self).key_bytes(), old(self).nonce_bytes()) && b@.len()
                + 16 == old(self).ciphertext().len(),
            old(self).cached() matches Some(p) ==> r matches Ok(b) && b@ == p,
            r matches Ok(b) ==> forall|p: Seq<u8>|
                p.len() <= 0x10_0000_0000 && old(self).ciphertext() == #[trigger] aes256::seal(
                    p,
                    old(self).key_bytes(),
                    old(self).nonce_bytes(),
                ) ==> b@ == p,
            r matches Err(e) ==> e == ObfuseError::AuthenticationFailed && old(self).cached()
                is None && final(self).cached() is None,
            r is Err ==> forall|p: Seq<u8>|
                p.len() <= 0x10_0000_0000 ==> old(self).ciphertext() != #[trigger] aes256::seal(
                    p,
                    old(self).key_bytes(),
                    old(self).nonce_bytes(),
                ),
    {
        match self.try_decrypt() {
            Ok(()) => Ok(self.as_bytes()),
            Err(e) => Err(e),
        }
    }

    /// Returns the decrypted text, decrypting on first access.
    ///
    /// Callers must know that decryption authenticates and yields valid
    /// UTF-8 ([`text_decryptable`](Self::text_decryptable)); use
    /// [`try_as_str`](Self::try_as_str) when failure must be handled.
    pub fn as_str(&mut self) -> (r: &str)
        requires
            old(self).text_decryptable(),
        ensures
            final(self).ciphertext() == old(self).ciphertext(),
            final(self).key_bytes() == old(self).key_bytes(),
            final(self).nonce_bytes() == old(self).nonce_bytes(),
            final(self).cached() == Some(encode_utf8(r@)),
            old(self).ciphertext() == aes256::seal(
                encode_utf8(r@),
                old(self).key_bytes(),
                old(self).nonce_bytes(),
            ),
            old(self).cached() matches Some(p) ==> valid_utf8(p) && r@ == decode_utf8(p),
            forall|p: Seq<u8>|
                p.len() <= 0x10_0000_0000 && old(self).ciphertext() == #[trigger] aes256::seal(
                    p,
                    old(self).key_bytes(),
                    old(self).nonce_bytes(),
                ) ==> valid_utf8(p) && r@ == decode_utf8(p),
    {
        proof {
            if old(self).cached() is None {
                let p = choose|p: Seq<u8>|
                    p.len() <= 0x10_0000_0000 && old(self).ciphertext() == #[trigger] aes256::seal(
                        p,
                        old(self).key_bytes(),
                        old(self).nonce_bytes(),
                    ) && valid_utf8(p);
                assert(p.len() <= 0x10_0000_0000 && old(self).ciphertext() == aes256::seal(
                    p,
                    old(self).key_bytes(),
                    old(self).nonce_bytes(),
                ));
            }
        }
        let b = self.as_bytes();
        match bytes_to_str(b) {
            Ok(s) => {
                proof {
                    vstd::utf8::decode_utf8_encode_utf8(b@);
                }
                s
            },
            Err(_) => unreached(),
        }
    }

    /// Returns the decrypted text, or the error that decryption or UTF-8
    /// validation surfaced.
    ///
    /// Succeeds exactly when some plaintext seals to the embedded triple
    /// and that plaintext is valid UTF-8.  Tampering or a mismatched
    /// key/nonce/backend yields `AuthenticationFailed`; an authenticated
    /// plaintext that is not text yields `InvalidUtf8` with the byte offset
    /// of the first invalid sequence.
    pub fn try_as_str(&mut self) -> (r: Result<&str, ObfuseError>)
        ensures
            final(self).ciphertext() == old(self).ciphertext(),
            final(self).key_bytes() == old(self).key_bytes(),
            final(self).nonce_bytes() == old(self).nonce_bytes(),
            r matches Ok(s) ==> final(self).cached() == Some(encode_utf8(s@)) && valid_utf8(
                encode_utf8(s@),
            ) && old(self).ciphertext() == aes256::seal(
                encode_utf8(s@),
                old(self).key_bytes(),
                old(self).nonce_bytes(),
            ),
            r matches Ok(s) ==> forall|p: Seq<u8>|
                p.len() <= 0x10_0000_0000 && old(self).ciphertext() == #[trigger] aes256::seal(
                    p,
                    old(self).key_bytes(),
                    old(self).nonce_bytes(),
                ) ==> valid_utf8(p) && s@ == decode_utf8(p),
            old(self).cached() is Some && valid_utf8(old(self).cached().unwrap()) ==> (
            r matches Ok(s) && s@ == decode_utf8(old(self).cached().unwrap())),
            r matches Err(e) ==> e != ObfuseError::AllocationFailed,
            r matches Err(e) ==> ((e == ObfuseError::AuthenticationFailed && old(self).cached()
                is None && final(self).cached() is None && (forall|p: Seq<u8>|
                p.len() <= 0x10_0000_0000 ==> old(self).ciphertext() != #[trigger] aes256::seal(
                    p,
                    old(self).key_bytes(),
                    old(self).nonce_bytes(),
                ))) || (e matches ObfuseError::InvalidUtf8(off) && final(self).cached() matches Some(
                q,
            ) && !valid_utf8(q) && off <= q.len() && partial_valid_utf8(q, off as int) && (
            forall|p: Seq<u8>|
                p.len() <= 0x10_0000_0000 && old(self).ciphertext() == #[trigger] aes256::seal(
                    p,
                    old(self).key_bytes(),
                    old(self).nonce_bytes(),
                ) ==> q == p))),
    {
        let dec = self.try_decrypt();
        match dec {
            Err(e) => Err(e),
            Ok(()) => {
                let check: Result<(), usize> = match &self.decrypted {
                    Some(v) => match bytes_to_str(v.as_slice()) {
                        Ok(_) => Ok(()),
                        Err(off) => Err(off),
                    },
                    None => unreached(),
                };
                match check {
                    Err(off) => Err(ObfuseError::InvalidUtf8(off)),
                    Ok(()) => Ok(self.as_str()),
                }
            },
        }
    }

    /// Immediately zeroes key, nonce and any cached plaintext through
    /// writes the optimizer cannot elide, independent of destruction.  Safe
    /// to call at any time and safe to call again later; destruction runs
    /// the same scrub once more.
    ///
    /// Scrubbing a still-locked value zeroes the key material it would
    /// decrypt with, so a later access fails authentication instead of
    /// recovering the plaintext.
    pub fn zeroize(&mut self)
        ensures
            final(self).ciphertext() == old(self).ciphertext(),
            final(self).scrubbed(),
        opens_invariants none
        no_unwind
    {
        let mut cache: Option<Vec<u8>> = None;
        core::mem::swap(&mut self.decrypted, &mut cache);
        if let Some(mut v) = cache {
            wipe_vec(&mut v);
        }
        wipe_array(&mut self.key);
        wipe_array(&mut self.nonce);
    }

    /// The redacted debug rendering: reports only whether the value has
    /// been decrypted, never the value itself.
    pub fn debug_string(&self) -> (r: &'static str)
        ensures
            self.cached() is Some ==> r@ == "ObfuseStr { value: [REDACTED], decrypted: true }"@,
            self.cached() is None ==> r@ == "ObfuseStr { value: [REDACTED], decrypted: false }"@,
    {
        if self.is_decrypted() {
            "ObfuseStr { value: [REDACTED], decrypted: true }"
        } else {
            "ObfuseStr { value: [REDACTED], decrypted: false }"
        }
    }
}

impl Drop for ObfuseStr {
    /// Destruction always scrubs, whatever state the value is in and
    /// whether or not a manual scrub already ran.
    fn drop(&mut self)
        opens_invariants none
        no_unwind
    {
        self.zeroize();
    }
}

} // verus!
