//! The captcha screen decisions, configuration defaults, and text utilities.

use vtuber_quiz::config::{
    default_bind, default_cookie_name, default_cookie_path, default_port, default_true, Cookie,
};
use vtuber_quiz::hcaptcha::{captcha_outcome, captcha_precheck, CaptchaStep, HcaptchaError};
use vtuber_quiz::models::{default_false, Audience, UserRole};
use vtuber_quiz::text::{contains_str, str_eq};

#[test]
fn bypass_grants_without_any_header() {
    match captcha_precheck(true, None, false) {
        Ok(CaptchaStep::Granted(_)) => {},
        _ => panic!("bypass must grant"),
    }
}

#[test]
fn missing_header_is_refused_as_missing() {
    assert!(matches!(
        captcha_precheck(false, None, true),
        Err(HcaptchaError::Missing)
    ));
}

#[test]
fn unreadable_address_is_insufficient_information() {
    assert!(matches!(
        captcha_precheck(false, Some("key".to_string()), false),
        Err(HcaptchaError::InsufficientInformation)
    ));
}

#[test]
fn a_complete_request_goes_to_the_upstream_verifier() {
    match captcha_precheck(false, Some("the-key".to_string()), true) {
        Ok(CaptchaStep::Verify(k)) => assert_eq!(k.as_str(), "the-key"),
        _ => panic!("must ask the upstream verifier"),
    }
}

#[test]
fn only_a_positive_upstream_answer_passes() {
    assert!(captcha_outcome(true).is_ok());
    assert!(matches!(captcha_outcome(false), Err(HcaptchaError::Invalid)));
}

#[test]
fn captcha_refusals_surface_as_rejected_captchas() {
    assert_eq!(HcaptchaError::Missing.status_code(), 403);
    assert_eq!(
        HcaptchaError::Invalid.to_domain(),
        vtuber_quiz::error::Error::CaptchaRejected
    );
    assert_eq!(vtuber_quiz::error::Error::CaptchaRejected.code(), 410000);
}

#[test]
fn configuration_defaults() {
    assert_eq!(default_bind().as_str(), "127.0.0.1:8080");
    assert_eq!(default_cookie_name().as_str(), "session");
    assert_eq!(default_cookie_path().as_str(), "/");
    assert_eq!(default_port(), 5432);
    assert!(default_true());
    assert!(!default_false());
}

#[test]
fn cookie_keeps_its_settings() {
    let c = Cookie::new(
        "c2Vzc2lvbi1rZXk=".to_string(),
        "quiz.example".to_string(),
        "session".to_string(),
        "/".to_string(),
        true,
    );
    assert_eq!(c.signing_key().as_str(), "c2Vzc2lvbi1rZXk=");
    assert_eq!(c.domain().as_str(), "quiz.example");
    assert_eq!(c.name().as_str(), "session");
    assert_eq!(c.path().as_str(), "/");
    assert!(c.secure());
}

#[test]
fn wire_names_of_enums() {
    assert_eq!(UserRole::Normal.name().as_str(), "normal");
    assert_eq!(UserRole::Vtuber.name().as_str(), "vtuber");
    assert_eq!(Audience::Vtuber.name().as_str(), "vtuber");
    assert_eq!(Audience::Fan.name().as_str(), "fan");
    assert_eq!(Audience::Passenger.name().as_str(), "passenger");
    assert_eq!(
        vtuber_quiz::models::QuestionType::TrueFalse.name().as_str(),
        "true_false"
    );
    assert_eq!(
        vtuber_quiz::models::QuestionType::MultiChoice.name().as_str(),
        "multi_choice"
    );
    assert_eq!(
        vtuber_quiz::models::QuestionType::MultiAnswer.name().as_str(),
        "multi_answer"
    );
}

#[test]
fn string_equality_and_substring_search() {
    assert!(str_eq("", ""));
    assert!(str_eq("abc", "abc"));
    assert!(!str_eq("abc", "abd"));
    assert!(!str_eq("abc", "ab"));
    assert!(str_eq("日本語", "日本語"));

    assert!(contains_str("hello world", "world"));
    assert!(contains_str("hello world", ""));
    assert!(contains_str("hello", "hello"));
    assert!(!contains_str("hello", "hello!"));
    assert!(!contains_str("", "x"));
    assert!(contains_str("", ""));
    assert!(contains_str("aaab", "aab"));
    assert!(contains_str("acac", "cac"));
    assert!(contains_str("挑战码在 Ab3dEf9 之中", "Ab3dEf9"));
    assert!(!contains_str("挑战码", "Ab3dEf9"));
}
