//! The build-time encoder.
//!
//! Runs once per literal at build time: derives a key and nonce from an
//! optional seed string, encrypts the literal under the active cipher
//! backend, and returns the `(ciphertext, key, nonce)` triple that is
//! embedded in the artifact and later consumed by
//! [`ObfuseStr`](crate::ObfuseStr).

use vstd::prelude::*;

use vstd::utf8::encode_utf8;

use crate::aes256;
use crate::keygen::derived_key;
use crate::keygen::derived_nonce;
use crate::keygen::generate_key_nonce;

verus! {

/// Encrypts a plaintext under the active cipher backend (AES-256-GCM) with
/// the given key and nonce.  The returned ciphertext carries its 16-byte
/// authentication tag appended.
pub fn encrypt_with_algorithm(plaintext: &[u8], key: &[u8; 32], nonce: &[u8; 12]) -> (r: Vec<u8>)
    requires
        plaintext@.len() <= 0x10_0000_0000,
    ensures
        r@ == aes256::seal(plaintext@, key@, nonce@),
        r@.len() == plaintext@.len() + 16,
{
    aes256::encrypt(plaintext, key, nonce)
}

/// Encrypts a plaintext at build time, returning the `(ciphertext, key,
/// nonce)` triple to embed.
///
/// With a seed, key and nonce are derived deterministically from the seed
/// string, so the same seed and plaintext always produce the same triple;
/// without one they are drawn from system entropy, so every build differs.
/// Either way the ciphertext is the active backend's encryption of the
/// plaintext under the returned key and nonce.
/// One seed, one triple: under the encoder's seeded contract the key, the
/// nonce and therefore the ciphertext are functions of the seed string and
/// the plaintext alone, so encoding the same literal twice with the same
/// seed embeds bit-identical triples.
pub proof fn lemma_seeded_encoding_deterministic(
    plaintext: Seq<u8>,
    seed: Seq<char>,
    c1: Seq<u8>,
    k1: Seq<u8>,
    n1: Seq<u8>,
    c2: Seq<u8>,
    k2: Seq<u8>,
    n2: Seq<u8>,
)
    requires
        k1 == derived_key(encode_utf8(seed)),
        n1 == derived_nonce(encode_utf8(seed)),
        c1 == aes256::seal(plaintext, k1, n1),
        k2 == derived_key(encode_utf8(seed)),
        n2 == derived_nonce(encode_utf8(seed)),
        c2 == aes256::seal(plaintext, k2, n2),
    ensures
        k1 == k2,
        n1 == n2,
        c1 == c2,
{
}

pub fn encrypt(plaintext: &[u8], seed: Option<String>) -> (r: (Vec<u8>, [u8; 32], [u8; 12]))
    requires
        plaintext@.len() <= 0x10_0000_0000,
    ensures
        r.0@ == aes256::seal(plaintext@, r.1@, r.2@),
        r.0@.len() == plaintext@.len() + 16,
        seed matches Some(s) ==> r.1@ == derived_key(encode_utf8(s@)) && r.2@ == derived_nonce(
            encode_utf8(s@),
        ),
{
    let (key, nonce) = generate_key_nonce(seed);
    let ciphertext = encrypt_with_algorithm(plaintext, &key, &nonce);
    (ciphertext, key, nonce)
}

} // verus!
