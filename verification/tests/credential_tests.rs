//! The credential store against the real argon2 implementation.

use vtuber_quiz::credential::{hash, hash_then_verify, verify};

#[test]
fn hash_verifies_same_password() {
    let encoded = hash(b"correct horse battery staple");
    assert!(verify(encoded.as_str(), b"correct horse battery staple"));
}

#[test]
fn hash_rejects_other_password() {
    let encoded = hash(b"password-one");
    assert!(!verify(encoded.as_str(), b"password-two"));
}

#[test]
fn hash_of_empty_password_verifies() {
    let encoded = hash(b"");
    assert!(verify(encoded.as_str(), b""));
    assert!(!verify(encoded.as_str(), b"x"));
}

#[test]
fn hash_never_repeats_for_same_password() {
    let first = hash(b"same password");
    let second = hash(b"same password");
    assert_ne!(first, second);
}

#[test]
fn hash_embeds_algorithm_and_parameters() {
    let encoded = hash(b"p");
    assert!(encoded.starts_with("$argon2id$"));
}

#[test]
fn verify_malformed_is_false_not_a_failure() {
    assert!(!verify("", b"anything"));
    assert!(!verify("not an encoded hash", b"anything"));
    assert!(!verify("$argon2id$garbage", b"anything"));
}

#[test]
fn hash_then_verify_law_holds_at_runtime() {
    assert!(hash_then_verify(b"any password at all"));
}
