//! Challenge code generation and the uniqueness of persisted codes.

use vtuber_quiz::challenge::generate_challenge_code;
use vtuber_quiz::models::ChallengeResponse;
use vtuber_quiz::store::{ChallengeAttempt, Store};

fn is_alphanumeric_ascii(c: char) -> bool {
    ('A'..='Z').contains(&c) || ('a'..='z').contains(&c) || ('0'..='9').contains(&c)
}

#[test]
fn codes_are_seven_chars_over_the_alphabet() {
    for _ in 0..200 {
        let code = generate_challenge_code();
        assert_eq!(code.chars().count(), 7);
        assert!(code.chars().all(is_alphanumeric_ascii));
    }
}

#[test]
fn fresh_codes_rarely_collide() {
    let a = generate_challenge_code();
    let b = generate_challenge_code();
    let c = generate_challenge_code();
    assert!(a != b || b != c);
}

#[test]
fn challenge_response_carries_code_and_templates() {
    let r = ChallengeResponse::new("Ab3dEf9");
    assert_eq!(r.code.as_str(), "Ab3dEf9");
    assert_eq!(r.templates.len(), 2);
    assert!(r.templates[0].contains("{}"));
    assert!(r.templates[1].contains("{}"));
}

fn store_with_two_users() -> (Store, i32, i32) {
    let mut s = Store::new();
    let a = s.register("alice", b"pw-a", 1_000).unwrap();
    let b = s.register("bob", b"pw-b", 2_000).unwrap();
    (s, a, b)
}

#[test]
fn persisting_a_code_held_by_another_account_is_the_transient_conflict() {
    let (mut s, a, b) = store_with_two_users();
    assert_eq!(s.create_or_replace_challenge(a, "AAAAAAA"), ChallengeAttempt::Persisted);
    assert_eq!(s.create_or_replace_challenge(b, "AAAAAAA"), ChallengeAttempt::CodeTaken);
    // after a retry with a fresh code the second account is served
    assert_eq!(s.create_or_replace_challenge(b, "BBBBBBB"), ChallengeAttempt::Persisted);
    let ua = s.get_user_by_id(a).unwrap();
    let ub = s.get_user_by_id(b).unwrap();
    assert_eq!(ua.challenge.as_deref(), Some("AAAAAAA"));
    assert_eq!(ub.challenge.as_deref(), Some("BBBBBBB"));
}

#[test]
fn replacing_ones_own_code_is_not_a_conflict() {
    let (mut s, a, _) = store_with_two_users();
    assert_eq!(s.create_or_replace_challenge(a, "AAAAAAA"), ChallengeAttempt::Persisted);
    assert_eq!(s.create_or_replace_challenge(a, "AAAAAAA"), ChallengeAttempt::Persisted);
    assert_eq!(s.create_or_replace_challenge(a, "CCCCCCC"), ChallengeAttempt::Persisted);
    let ua = s.get_user_by_id(a).unwrap();
    assert_eq!(ua.challenge.as_deref(), Some("CCCCCCC"));
}

#[test]
fn issuing_with_retry_never_persists_a_duplicate() {
    let mut s = Store::new();
    let mut ids = Vec::new();
    for i in 0..20 {
        let name = format!("user{}", i);
        ids.push(s.register(name.as_str(), b"pw", 0).unwrap());
    }
    // the retry loop: draw until the store accepts the code
    for id in &ids {
        loop {
            let code = generate_challenge_code();
            match s.create_or_replace_challenge(*id, code.as_str()) {
                ChallengeAttempt::Persisted => break,
                ChallengeAttempt::CodeTaken => continue,
            }
        }
    }
    let mut seen = Vec::new();
    for id in &ids {
        let u = s.get_user_by_id(*id).unwrap();
        let code = u.challenge.clone().unwrap();
        assert!(!seen.contains(&code));
        seen.push(code);
    }
}
