//! Integration tests for the obfuse library: encode a literal, embed the
//! triple in an `ObfuseStr`, and exercise the accessor surface.

use obfuse::{ObfuseStr, encrypt};

/// Encodes a literal with a fresh random key, as the code-generation layer
/// would, and wraps the triple in a locked value.
fn obf(s: &str) -> ObfuseStr {
    let (ciphertext, key, nonce) = encrypt(s.as_bytes(), None);
    ObfuseStr::new(ciphertext, key, nonce)
}

/// Encodes a literal deterministically from a seed string.
fn obf_seed(s: &str, seed: &str) -> ObfuseStr {
    let (ciphertext, key, nonce) = encrypt(s.as_bytes(), Some(seed.to_string()));
    ObfuseStr::new(ciphertext, key, nonce)
}

#[test]
fn test_basic_decryption() {
    let mut secret = obf("hello world");
    assert_eq!(secret.as_str(), "hello world");
}

#[test]
fn test_empty_string() {
    let mut secret = obf("");
    assert_eq!(secret.as_str(), "");
}

#[test]
fn test_unicode() {
    let mut secret = obf("Hello, 世界! 🌍");
    assert_eq!(secret.as_str(), "Hello, 世界! 🌍");
}

#[test]
fn test_long_string() {
    let _long_text = "a".repeat(10000);
    let mut secret = obf(
        "Lorem ipsum dolor sit amet, consectetur adipiscing elit. \
        Sed do eiusmod tempor incididunt ut labore et dolore magna aliqua. \
        Ut enim ad minim veniam, quis nostrud exercitation ullamco laboris \
        nisi ut aliquip ex ea commodo consequat.",
    );

    assert!(secret.as_str().starts_with("Lorem ipsum"));
    assert!(secret.as_str().contains("consectetur"));
}

#[test]
fn test_special_characters() {
    let mut secret = obf("!@#$%^&*()_+-=[]{}|;':\",./<>?`~\\");
    assert_eq!(secret.as_str(), "!@#$%^&*()_+-=[]{}|;':\",./<>?`~\\");
}

#[test]
fn test_newlines_and_tabs() {
    let mut secret = obf("line1\nline2\tindented");
    assert_eq!(secret.as_str(), "line1\nline2\tindented");
}

#[test]
fn test_is_decrypted() {
    let mut secret = obf("test");
    assert!(!secret.is_decrypted());

    let _ = secret.as_str();
    assert!(secret.is_decrypted());
}

#[test]
fn test_try_decrypt() {
    let mut secret = obf("test");
    assert!(!secret.is_decrypted());

    secret.try_decrypt().unwrap();
    assert!(secret.is_decrypted());
}

#[test]
fn test_as_bytes() {
    let mut secret = obf("hello");
    assert_eq!(secret.as_bytes(), b"hello");
}

#[test]
fn test_try_as_str() {
    let mut secret = obf("test");
    let result = secret.try_as_str();
    assert!(result.is_ok());
    assert_eq!(result.unwrap(), "test");
}

#[test]
fn test_try_as_bytes() {
    let mut secret = obf("test");
    let result = secret.try_as_bytes();
    assert!(result.is_ok());
    assert_eq!(result.unwrap(), b"test");
}

#[test]
fn test_deref() {
    let mut secret = obf("hello");
    let len: usize = secret.as_str().len();
    assert_eq!(len, 5);

    let upper = secret.as_str().to_uppercase();
    assert_eq!(upper, "HELLO");
}

#[test]
fn test_as_ref_str() {
    let mut secret = obf("test");
    let s: &str = secret.as_str();
    assert_eq!(s, "test");
}

#[test]
fn test_as_ref_bytes() {
    let mut secret = obf("test");
    let b: &[u8] = secret.as_bytes();
    assert_eq!(b, b"test");
}

#[test]
fn test_display() {
    let mut secret = obf("displayable");
    let s = format!("{}", secret.as_str());
    assert_eq!(s, "displayable");
}

#[test]
fn test_debug_redacts() {
    let secret = obf("sensitive");
    let debug = secret.debug_string();

    // Should NOT contain the actual value
    assert!(!debug.contains("sensitive"));
    // Should contain [REDACTED]
    assert!(debug.contains("REDACTED"));
}

#[test]
fn integration_test_deterministic_same_seed() {
    let mut secret1 = obf_seed("test data", "same_seed");
    let mut secret2 = obf_seed("test data", "same_seed");

    // Both should decrypt to the same value
    assert_eq!(secret1.as_str(), secret2.as_str());
    assert_eq!(secret1.as_str(), "test data");
}

#[test]
fn integration_test_deterministic_different_seeds() {
    let mut secret1 = obf_seed("test", "seed_a");
    let mut secret2 = obf_seed("test", "seed_b");

    // Both decrypt to same plaintext despite different seeds
    assert_eq!(secret1.as_str(), secret2.as_str());
}

#[test]
fn test_type_annotation() {
    let mut secret: ObfuseStr = obf("typed");
    assert_eq!(secret.as_str(), "typed");
}

#[test]
fn test_multiple_accesses() {
    let mut secret = obf("multi");

    // Multiple accesses should work
    assert_eq!(secret.as_str(), "multi");
    assert_eq!(secret.as_str(), "multi");
    assert_eq!(secret.as_str(), "multi");

    // Should still be decrypted
    assert!(secret.is_decrypted());
}

#[test]
fn test_debug_redacts_value() {
    // This test requires the macro, so we just test the debug format structure
    let debug_output = format!("{:?}", "ObfuseStr { value: [REDACTED], decrypted: false }");
    assert!(debug_output.contains("REDACTED"));
}

#[test]
fn test_end_to_end_hello_world() {
    let (ciphertext, key, nonce) = encrypt("hello world".as_bytes(), None);
    let mut value = ObfuseStr::new(ciphertext, key, nonce);
    assert!(!value.is_decrypted());
    assert_eq!(value.as_str(), "hello world");
    assert!(value.is_decrypted());
}

#[test]
fn test_seeded_triples_identical() {
    let (c1, k1, n1) = encrypt(b"database password", Some("test_seed_123".to_string()));
    let (c2, k2, n2) = encrypt(b"database password", Some("test_seed_123".to_string()));
    assert_eq!(c1, c2);
    assert_eq!(k1, k2);
    assert_eq!(n1, n2);

    let (c3, k3, n3) = encrypt(b"database password", Some("different_seed".to_string()));
    assert_ne!(c1, c3);

    let mut first = ObfuseStr::new(c1, k1, n1);
    let mut other = ObfuseStr::new(c3, k3, n3);
    assert_eq!(first.as_str(), "database password");
    assert_eq!(other.as_str(), "database password");
}

#[test]
fn test_scrub_idempotent() {
    let mut secret = obf("short lived");
    assert_eq!(secret.as_str(), "short lived");
    secret.zeroize();
    secret.zeroize();
    drop(secret);
}

#[test]
fn test_scrub_after_access_clears_cache() {
    let mut secret = obf("cached bytes");
    assert_eq!(secret.as_str(), "cached bytes");
    assert!(secret.is_decrypted());

    secret.zeroize();
    assert!(!secret.is_decrypted());

    // The key material is gone, so a retry fails authentication.
    assert!(matches!(
        secret.try_as_bytes(),
        Err(obfuse::ObfuseError::AuthenticationFailed)
    ));
}

#[test]
fn test_scrub_before_access_fails_closed() {
    let mut secret = obf("never read");
    secret.zeroize();

    // Scrubbing a locked value zeroes the key it would decrypt with, so a
    // later access fails authentication instead of recovering the text.
    assert!(matches!(
        secret.try_as_str(),
        Err(obfuse::ObfuseError::AuthenticationFailed)
    ));
    assert!(!secret.is_decrypted());
}

#[test]
fn test_invalid_utf8_offset() {
    // Bytes that authenticate but are not text: 0x80 is a bare
    // continuation byte, invalid at offset 1.
    let (ciphertext, key, nonce) = encrypt(&[0x68, 0x80, 0x65], None);
    let mut value = ObfuseStr::new(ciphertext, key, nonce);
    match value.try_as_str() {
        Err(obfuse::ObfuseError::InvalidUtf8(offset)) => assert_eq!(offset, 1),
        other => panic!("expected InvalidUtf8, got {:?}", other),
    }
    // The bytes themselves are still served.
    assert_eq!(value.try_as_bytes().unwrap(), &[0x68, 0x80, 0x65]);
}

#[test]
fn test_wrong_key_fails_and_retries() {
    let key = [1u8; 32];
    let wrong_key = [2u8; 32];
    let nonce = [3u8; 12];
    let ciphertext = obfuse::encrypt_with_algorithm(b"guarded", &key, &nonce);

    let mut value = ObfuseStr::new(ciphertext, wrong_key, nonce);
    assert!(matches!(
        value.try_as_bytes(),
        Err(obfuse::ObfuseError::AuthenticationFailed)
    ));
    // Failure is not cached: the value stays locked and a retry fails the
    // same way.
    assert!(!value.is_decrypted());
    assert!(matches!(
        value.try_as_bytes(),
        Err(obfuse::ObfuseError::AuthenticationFailed)
    ));
}

#[test]
fn test_error_messages() {
    assert_eq!(
        obfuse::ObfuseError::AllocationFailed.message(),
        "memory allocation failed during decryption"
    );
    assert_eq!(
        obfuse::ObfuseError::AuthenticationFailed.message(),
        "authentication failed - ciphertext may be corrupted"
    );
    assert_eq!(
        obfuse::ObfuseError::InvalidUtf8(3).message(),
        "decrypted data is not valid UTF-8"
    );
}
