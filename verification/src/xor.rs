//! XOR cipher backend.
//!
//! A simple obfuscation method, not cryptographically secure and without any
//! authentication: decryption always succeeds and is its own inverse.  Use
//! only when performance matters more than strength.

use vstd::prelude::*;

use crate::error::ObfuseError;

verus! {

/// Key size for the XOR cipher (32 bytes, kept for interface consistency).
pub const KEY_SIZE: usize = 32;

/// Nonce size for the XOR cipher (unused, kept for interface consistency).
pub const NONCE_SIZE: usize = 12;

/// Byte-wise XOR of `data` against `key` cycled to `data`'s length.
pub open spec fn xor_bytes(data: Seq<u8>, key: Seq<u8>) -> Seq<u8>
    recommends
        key.len() > 0,
{
    Seq::new(data.len(), |i: int| data[i] ^ key[i % key.len() as int])
}

/// XOR is an involution: applying the same key twice restores the data.
pub proof fn lemma_xor_round_trip(data: Seq<u8>, key: Seq<u8>)
    requires
        key.len() > 0,
    ensures
        xor_bytes(xor_bytes(data, key), key) =~= data,
{
    assert forall|i: int| 0 <= i < data.len() implies xor_bytes(xor_bytes(data, key), key)[i]
        == data[i] by {
        let d = data[i];
        let k = key[i % key.len() as int];
        assert((d ^ k) ^ k == d) by (bit_vector);
    }
}

/// Encrypts plaintext by XOR-ing it against the cycled key.  The nonce is
/// ignored; it exists so all cipher backends share one interface.
pub fn encrypt(plaintext: &[u8], key: &[u8; 32], _nonce: &[u8; 12]) -> (r: Vec<u8>)
    ensures
        r@ == xor_bytes(plaintext@, key@),
{
    let mut out: Vec<u8> = Vec::new();
    let mut i: usize = 0;
    while i < plaintext.len()
        invariant
            0 <= i <= plaintext@.len(),
            out@ =~= xor_bytes(plaintext@, key@).take(i as int),
        decreases plaintext@.len() - i,
    {
        out.push(plaintext[i] ^ key[i % 32]);
        i += 1;
    }
    assert(out@ =~= xor_bytes(plaintext@, key@));
    out
}

/// Decrypts ciphertext by XOR-ing it against the cycled key.  XOR provides no
/// authentication, so decryption never fails; the result type matches the
/// authenticated backends.
pub fn decrypt(ciphertext: &[u8], key: &[u8; 32], _nonce: &[u8; 12]) -> (r: Result<
    Vec<u8>,
    ObfuseError,
>)
    ensures
        r matches Ok(p) && p@ == xor_bytes(ciphertext@, key@),
{
    Ok(encrypt(ciphertext, key, _nonce))
}

} // verus!
