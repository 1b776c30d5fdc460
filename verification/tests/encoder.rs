//! Tests for key/nonce derivation and the cipher backends.

use obfuse::ObfuseError;
use obfuse::{create_seed_bytes, generate_deterministic, generate_random};

#[test]
fn encrypt_test_deterministic_same_seed() {
    let (key1, nonce1) = generate_deterministic("test_seed");
    let (key2, nonce2) = generate_deterministic("test_seed");

    assert_eq!(key1, key2);
    assert_eq!(nonce1, nonce2);
}

#[test]
fn encrypt_test_deterministic_different_seeds() {
    let (key1, _) = generate_deterministic("seed_a");
    let (key2, _) = generate_deterministic("seed_b");

    assert_ne!(key1, key2);
}

#[test]
fn test_random_is_different() {
    let (key1, _) = generate_random();
    let (key2, _) = generate_random();

    // Very unlikely to be equal
    assert_ne!(key1, key2);
}

#[test]
fn test_seed_mix_exact() {
    // Exact output of the seed-mixing dispersion function.
    let expected: [u8; 32] = [
        222, 148, 127, 172, 0, 78, 131, 108, 197, 144, 80, 3, 80, 252, 176, 102, 222, 8, 184, 73,
        196, 123, 50, 16, 82, 145, 92, 128, 172, 196, 163, 224,
    ];
    assert_eq!(create_seed_bytes("test_seed_123"), expected);
}

#[test]
fn test_seed_mix_deterministic_and_distinct() {
    assert_eq!(create_seed_bytes("alpha"), create_seed_bytes("alpha"));
    assert_ne!(create_seed_bytes("alpha"), create_seed_bytes("beta"));
    // An empty seed leaves the accumulator untouched.
    assert_eq!(create_seed_bytes(""), [0u8; 32]);
}

#[test]
fn test_derived_key_differs_from_mixed_seed() {
    // The generator must actually transform its seed, not hand it back.
    let mixed = create_seed_bytes("test_seed");
    let (key, _nonce) = generate_deterministic("test_seed");
    assert_ne!(key, mixed);
}

#[test]
fn test_tamper_detection_aes256() {
    let key = [7u8; 32];
    let nonce = [9u8; 12];
    let ciphertext = obfuse::aes256::encrypt(b"attack at dawn", &key, &nonce);
    assert_eq!(ciphertext.len(), 14 + 16);

    for byte_idx in 0..ciphertext.len() {
        for bit in 0..8u8 {
            let mut tampered = ciphertext.clone();
            tampered[byte_idx] ^= 1 << bit;
            match obfuse::aes256::decrypt(&tampered, &key, &nonce) {
                Err(ObfuseError::AuthenticationFailed) => {}
                _ => panic!("tampered ciphertext must fail authentication"),
            }
        }
    }
}

#[test]
fn test_tamper_detection_aes128() {
    let key = [5u8; 16];
    let nonce = [6u8; 12];
    let ciphertext = obfuse::aes128::encrypt(b"attack at dawn", &key, &nonce);
    assert_eq!(ciphertext.len(), 14 + 16);

    for byte_idx in 0..ciphertext.len() {
        for bit in 0..8u8 {
            let mut tampered = ciphertext.clone();
            tampered[byte_idx] ^= 1 << bit;
            match obfuse::aes128::decrypt(&tampered, &key, &nonce) {
                Err(ObfuseError::AuthenticationFailed) => {}
                _ => panic!("tampered ciphertext must fail authentication"),
            }
        }
    }
}

#[test]
fn test_tamper_detection_chacha() {
    let key = [11u8; 32];
    let nonce = [13u8; 12];
    let ciphertext = obfuse::chacha::encrypt(b"attack at dawn", &key, &nonce);
    assert_eq!(ciphertext.len(), 14 + 16);

    for byte_idx in 0..ciphertext.len() {
        for bit in 0..8u8 {
            let mut tampered = ciphertext.clone();
            tampered[byte_idx] ^= 1 << bit;
            match obfuse::chacha::decrypt(&tampered, &key, &nonce) {
                Err(ObfuseError::AuthenticationFailed) => {}
                _ => panic!("tampered ciphertext must fail authentication"),
            }
        }
    }
}

#[test]
fn test_backend_round_trips() {
    let nonce = [1u8; 12];

    let key256 = [2u8; 32];
    let ct = obfuse::aes256::encrypt("Hello, 世界!".as_bytes(), &key256, &nonce);
    assert_eq!(
        obfuse::aes256::decrypt(&ct, &key256, &nonce).unwrap(),
        "Hello, 世界!".as_bytes()
    );

    let key128 = [3u8; 16];
    let ct = obfuse::aes128::encrypt("Hello, 世界!".as_bytes(), &key128, &nonce);
    assert_eq!(
        obfuse::aes128::decrypt(&ct, &key128, &nonce).unwrap(),
        "Hello, 世界!".as_bytes()
    );

    let ct = obfuse::chacha::encrypt("Hello, 世界!".as_bytes(), &key256, &nonce);
    assert_eq!(
        obfuse::chacha::decrypt(&ct, &key256, &nonce).unwrap(),
        "Hello, 世界!".as_bytes()
    );

    let ct = obfuse::xor::encrypt("Hello, 世界!".as_bytes(), &key256, &nonce);
    assert_eq!(
        obfuse::xor::decrypt(&ct, &key256, &nonce).unwrap(),
        "Hello, 世界!".as_bytes()
    );
}

#[test]
fn test_xor_known_vector() {
    let key = [1u8; 32];
    let nonce = [0u8; 12];
    let ciphertext = obfuse::xor::encrypt(&[0x00, 0xff, 0x10], &key, &nonce);
    assert_eq!(ciphertext, vec![0x01, 0xfe, 0x11]);
}

#[test]
fn test_xor_key_cycles() {
    // A 33rd byte is XOR-ed against the key's first byte again.
    let mut key = [0u8; 32];
    key[0] = 0xaa;
    let nonce = [0u8; 12];
    let mut plaintext = vec![0u8; 33];
    plaintext[32] = 0x55;
    let ciphertext = obfuse::xor::encrypt(&plaintext, &key, &nonce);
    assert_eq!(ciphertext[0], 0xaa);
    assert_eq!(ciphertext[32], 0x55 ^ 0xaa);
}

#[test]
fn test_encoder_ciphertext_not_plaintext() {
    // The embedded bytes must not contain the literal in the clear.
    let (ciphertext, _key, _nonce) = obfuse::encrypt(b"hello world", Some("seed".to_string()));
    assert_eq!(ciphertext.len(), 11 + 16);
    assert!(!ciphertext
        .windows(b"hello world".len())
        .any(|w| w == b"hello world"));
}
