//! Key and nonce derivation for the build-time encoder.
//!
//! Two modes exist.  Random mode draws fresh bytes from the operating
//! system's entropy source, so every build embeds a different key.
//! Deterministic mode mixes a seed string into a 32-byte generator seed with
//! a fixed dispersion function ([`seed_mix`]) and then draws key and nonce,
//! in that order, from a seeded ChaCha20 stream generator, so the same seed
//! always yields the same key and nonce.

use vstd::prelude::*;

use vstd::arithmetic::div_mod::lemma_add_mod_noop;
use vstd::utf8::encode_utf8;

use rand::RngCore;
use rand::SeedableRng;

verus! {

/// The 32-byte all-zero accumulator that seed mixing starts from.
pub open spec fn zero_block() -> Seq<u8> {
    Seq::new(32, |i: int| 0u8)
}

/// One step of the absorption phase: the seed byte `b` at position `i` is
/// XOR-ed into slot `i % 32`, and `b * (i + 1)` (wrapping, with `i` reduced
/// modulo 256) is added to slot `(i + 7) % 32`.
pub open spec fn mix_byte(acc: Seq<u8>, b: u8, i: nat) -> Seq<u8>
    recommends
        acc.len() == 32,
{
    let j = (i % 32) as int;
    let acc1 = acc.update(j, acc[j] ^ b);
    let j2 = ((i + 7) % 32) as int;
    let m = b.wrapping_mul(((i % 256) as u8).wrapping_add(1));
    acc1.update(j2, acc1[j2].wrapping_add(m))
}

/// Accumulator after absorbing the first `n` bytes of the seed.
pub open spec fn absorb(seed: Seq<u8>, n: nat) -> Seq<u8>
    recommends
        n <= seed.len(),
    decreases n,
{
    if n == 0 {
        zero_block()
    } else {
        mix_byte(absorb(seed, (n - 1) as nat), seed[n - 1], (n - 1) as nat)
    }
}

/// One slot update of a stirring pass: slot `j` becomes
/// `(slot[j] + slot[(j + 13) % 32]) * (slot[(j + 7) % 32] + 1)`, wrapping.
pub open spec fn stir_slot(acc: Seq<u8>, j: nat) -> Seq<u8>
    recommends
        acc.len() == 32,
        j < 32,
{
    let ji = j as int;
    let sum = acc[ji].wrapping_add(acc[((j + 13) % 32) as int]);
    let fac = acc[((j + 7) % 32) as int].wrapping_add(1);
    acc.update(ji, sum.wrapping_mul(fac))
}

/// Accumulator after the first `j` slot updates of one stirring pass.
pub open spec fn stir_upto(acc: Seq<u8>, j: nat) -> Seq<u8>
    decreases j,
{
    if j == 0 {
        acc
    } else {
        stir_slot(stir_upto(acc, (j - 1) as nat), (j - 1) as nat)
    }
}

/// Accumulator after `k` full stirring passes over all 32 slots.
pub open spec fn stir_passes(acc: Seq<u8>, k: nat) -> Seq<u8>
    decreases k,
{
    if k == 0 {
        acc
    } else {
        stir_upto(stir_passes(acc, (k - 1) as nat), 32)
    }
}

/// The 32-byte generator seed derived from a seed string's bytes: absorb
/// every byte, then stir three more full passes.  Deterministic and
/// seed-sensitive by design, not cryptographically secure.
pub open spec fn seed_mix(seed: Seq<u8>) -> Seq<u8> {
    stir_passes(absorb(seed, seed.len()), 3)
}

proof fn lemma_absorb_len(seed: Seq<u8>, n: nat)
    ensures
        absorb(seed, n).len() == 32,
    decreases n,
{
    if n > 0 {
        lemma_absorb_len(seed, (n - 1) as nat);
    }
}

proof fn lemma_stir_upto_len(acc: Seq<u8>, j: nat)
    requires
        acc.len() == 32,
        j <= 32,
    ensures
        stir_upto(acc, j).len() == 32,
    decreases j,
{
    if j > 0 {
        lemma_stir_upto_len(acc, (j - 1) as nat);
    }
}

proof fn lemma_stir_passes_len(acc: Seq<u8>, k: nat)
    requires
        acc.len() == 32,
    ensures
        stir_passes(acc, k).len() == 32,
    decreases k,
{
    if k > 0 {
        lemma_stir_passes_len(acc, (k - 1) as nat);
        lemma_stir_upto_len(stir_passes(acc, (k - 1) as nat), 32);
    }
}

/// Mixes a seed string into the 32-byte generator seed, exactly as
/// [`seed_mix`] specifies it over the string's UTF-8 bytes.
pub fn create_seed_bytes(seed: &str) -> (r: [u8; 32])
    ensures
        r@ == seed_mix(encode_utf8(seed@)),
{
    let bytes: &[u8] = seed.as_bytes();
    let ghost sb = bytes@;
    let mut result: [u8; 32] = [0u8; 32];
    assert(result@ =~= zero_block());

    let n = bytes.len();
    let mut i: usize = 0;
    while i < n
        invariant
            n == sb.len(),
            bytes@ == sb,
            0 <= i <= n,
            result@ == absorb(sb, i as nat),
        decreases n - i,
    {
        proof {
            lemma_absorb_len(sb, i as nat);
        }
        let b = bytes[i];
        let j = i % 32;
        result[j] = result[j] ^ b;
        let j2 = (j + 7) % 32;
        let m = b.wrapping_mul(((i % 256) as u8).wrapping_add(1));
        result[j2] = result[j2].wrapping_add(m);
        proof {
            lemma_add_mod_noop(i as int, 7, 32);
            assert(((i as int) % 32 + 7) % 32 == ((i as int) + 7) % 32);
            assert(result@ =~= mix_byte(absorb(sb, i as nat), sb[i as int], i as nat));
        }
        i += 1;
    }
    assert(result@ == absorb(sb, sb.len()));

    let ghost absorbed = result@;
    let mut pass: usize = 0;
    while pass < 3
        invariant
            absorbed == absorb(sb, sb.len()),
            0 <= pass <= 3,
            result@ == stir_passes(absorbed, pass as nat),
        decreases 3 - pass,
    {
        let ghost base = result@;
        let mut j: usize = 0;
        while j < 32
            invariant
                base == stir_passes(absorbed, pass as nat),
                base.len() == 32,
                0 <= j <= 32,
                result@ == stir_upto(base, j as nat),
            decreases 32 - j,
        {
            proof {
                lemma_stir_upto_len(base, j as nat);
            }
            let sum = result[j].wrapping_add(result[(j + 13) % 32]);
            let fac = result[(j + 7) % 32].wrapping_add(1);
            result[j] = sum.wrapping_mul(fac);
            proof {
                assert(result@ =~= stir_slot(stir_upto(base, j as nat), j as nat));
            }
            j += 1;
        }
        proof {
            assert(result@ == stir_upto(stir_passes(absorbed, pass as nat), 32));
        }
        pass += 1;
    }
    proof {
        lemma_absorb_len(sb, sb.len());
        lemma_stir_passes_len(absorbed, 3);
    }
    assert(result@ == seed_mix(sb));
    result
}

/// The byte stream that a ChaCha20 generator seeded with `seed` emits; only
/// the first `n` bytes are named.  The stream is a function of the seed
/// alone.
pub uninterp spec fn chacha_stream(seed: Seq<u8>, n: nat) -> Seq<u8>;

/// Relies on rand_chacha::ChaCha20Rng (`SeedableRng::from_seed` followed by
/// `RngCore::fill_bytes`): the generator is a deterministic stream cipher,
/// so the bytes drawn are a function of the 32-byte seed and the count
/// alone, and exactly `n` bytes are produced.
#[verifier::external_body]
fn chacha_stream_bytes(seed: &[u8; 32], n: usize) -> (r: Vec<u8>)
    ensures
        r@ == chacha_stream(seed@, n as nat),
        r@.len() == n as int,
{
    let mut rng = rand_chacha::ChaCha20Rng::from_seed(*seed);
    let mut buf = vec![0u8; n];
    rng.fill_bytes(&mut buf);
    buf
}

/// Relies on getrandom::getrandom: fills a buffer of the requested length
/// from the operating system's cryptographic entropy source.  A failure of
/// the source aborts the process, the intended fatal outcome at build time.
#[verifier::external_body]
fn os_entropy_bytes(n: usize) -> (r: Vec<u8>)
    ensures
        r@.len() == n as int,
{
    let mut buf = vec![0u8; n];
    getrandom::getrandom(&mut buf).expect("failed to draw entropy from the operating system");
    buf
}

/// The first 44 bytes drawn from the generator seeded with the mixed seed.
pub open spec fn derived_stream(seed: Seq<u8>) -> Seq<u8> {
    chacha_stream(seed_mix(seed), 44)
}

/// The 32 key bytes derived from a seed string's bytes (drawn first).
pub open spec fn derived_key(seed: Seq<u8>) -> Seq<u8> {
    derived_stream(seed).subrange(0, 32)
}

/// The 12 nonce bytes derived from a seed string's bytes (drawn after the
/// key).
pub open spec fn derived_nonce(seed: Seq<u8>) -> Seq<u8> {
    derived_stream(seed).subrange(32, 44)
}

/// Derives key and nonce deterministically from a seed string: the same
/// seed always produces the same pair, a different seed a different mixed
/// generator seed with overwhelming likelihood.
pub fn generate_deterministic(seed: &str) -> (r: ([u8; 32], [u8; 12]))
    ensures
        r.0@ == derived_key(encode_utf8(seed@)),
        r.1@ == derived_nonce(encode_utf8(seed@)),
{
    let mixed = create_seed_bytes(seed);
    let stream = chacha_stream_bytes(&mixed, 44);
    let mut key: [u8; 32] = [0u8; 32];
    let mut nonce: [u8; 12] = [0u8; 12];

    let mut i: usize = 0;
    while i < 32
        invariant
            stream@ == derived_stream(encode_utf8(seed@)),
            stream@.len() == 44,
            0 <= i <= 32,
            forall|t: int| 0 <= t < i ==> key@[t] == stream@[t],
        decreases 32 - i,
    {
        key[i] = stream[i];
        i += 1;
    }
    assert(key@ =~= derived_key(encode_utf8(seed@)));

    let mut j: usize = 0;
    while j < 12
        invariant
            stream@ == derived_stream(encode_utf8(seed@)),
            stream@.len() == 44,
            0 <= j <= 12,
            forall|t: int| 0 <= t < j ==> nonce@[t] == stream@[32 + t],
        decreases 12 - j,
    {
        nonce[j] = stream[32 + j];
        j += 1;
    }
    assert(nonce@ =~= derived_nonce(encode_utf8(seed@)));

    (key, nonce)
}

/// Packs drawn key and nonce bytes into the fixed-size arrays of the
/// embedded triple, unchanged and in order.
fn pack_key_nonce(kb: &Vec<u8>, nb: &Vec<u8>) -> (r: ([u8; 32], [u8; 12]))
    requires
        kb@.len() == 32,
        nb@.len() == 12,
    ensures
        r.0@ == kb@,
        r.1@ == nb@,
{
    let mut key: [u8; 32] = [0u8; 32];
    let mut nonce: [u8; 12] = [0u8; 12];

    let mut i: usize = 0;
    while i < 32
        invariant
            kb@.len() == 32,
            0 <= i <= 32,
            forall|t: int| 0 <= t < i ==> key@[t] == kb@[t],
        decreases 32 - i,
    {
        key[i] = kb[i];
        i += 1;
    }
    assert(key@ =~= kb@);

    let mut j: usize = 0;
    while j < 12
        invariant
            nb@.len() == 12,
            0 <= j <= 12,
            forall|t: int| 0 <= t < j ==> nonce@[t] == nb@[t],
        decreases 12 - j,
    {
        nonce[j] = nb[j];
        j += 1;
    }
    assert(nonce@ =~= nb@);

    (key, nonce)
}

/// Draws a fresh key and nonce from the operating system's entropy source:
/// the returned pair is exactly the 32 key bytes drawn first and the 12
/// nonce bytes drawn after, packed unchanged.  Every call may return a
/// different pair; nothing can be promised of the values themselves.
pub fn generate_random() -> (r: ([u8; 32], [u8; 12])) {
    let kb = os_entropy_bytes(32);
    let nb = os_entropy_bytes(12);
    pack_key_nonce(&kb, &nb)
}

/// Generates key and nonce: deterministically when a seed is given, from
/// system entropy otherwise.
pub fn generate_key_nonce(seed: Option<String>) -> (r: ([u8; 32], [u8; 12]))
    ensures
        seed matches Some(s) ==> r.0@ == derived_key(encode_utf8(s@)) && r.1@ == derived_nonce(
            encode_utf8(s@),
        ),
{
    match seed {
        Some(s) => generate_deterministic(s.as_str()),
        None => generate_random(),
    }
}

} // verus!
