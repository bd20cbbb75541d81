//! The failure taxonomy and the storage-signal translation table.

use vtuber_quiz::error::{
    classify_pg_code, translate_not_found, translate_other_failure, translate_unique_violation,
    Error, LookupKind, PgError, Recovery, UniqueConstraint,
};

#[test]
fn stable_codes_are_distinct() {
    let all = [
        Error::ConflictUsername,
        Error::InvalidCredential,
        Error::NotFound,
        Error::ValidationFailure,
        Error::Unauthorized,
        Error::UpstreamMalformed,
        Error::UpstreamError,
        Error::UpstreamTransport,
        Error::StorageFailure,
        Error::CaptchaRejected,
    ];
    let mut codes: Vec<u64> = all.iter().map(|e| e.code()).collect();
    codes.sort();
    codes.dedup();
    assert_eq!(codes.len(), all.len());
}

#[test]
fn legacy_codes_and_statuses_are_kept() {
    assert_eq!(Error::StorageFailure.code(), 510000);
    assert_eq!(Error::CaptchaRejected.code(), 410000);
    assert_eq!(Error::InvalidCredential.code(), 420000);
    assert_eq!(Error::ConflictUsername.code(), 430001);
    assert_eq!(Error::StorageFailure.status_code(), 500);
    assert_eq!(Error::InvalidCredential.status_code(), 403);
    assert_eq!(Error::ConflictUsername.status_code(), 409);
    assert_eq!(Error::NotFound.status_code(), 404);
    assert_eq!(Error::Unauthorized.status_code(), 401);
}

#[test]
fn storage_failures_stay_opaque_to_callers() {
    let d = Error::StorageFailure.as_display();
    assert_eq!(d.code, 510000);
    assert_eq!(d.err.as_str(), "database error");
    let d = Error::ConflictUsername.as_display();
    assert_eq!(d.err.as_str(), "username has been taken");
    assert_eq!(Error::InvalidCredential.user_msg().as_str(), "unauthorized");
}

#[test]
fn sqlstate_codes_classify() {
    assert_eq!(classify_pg_code("23505"), PgError::UniqueViolation);
    assert_eq!(classify_pg_code("23514"), PgError::CheckViolation);
    assert_eq!(classify_pg_code("42601"), PgError::Others);
    assert_eq!(classify_pg_code(""), PgError::Others);
    assert_eq!(classify_pg_code("235055"), PgError::Others);
}

#[test]
fn unique_violations_translate_by_constraint() {
    assert_eq!(
        translate_unique_violation(UniqueConstraint::Username),
        Recovery::Fail(Error::ConflictUsername)
    );
    assert_eq!(
        translate_unique_violation(UniqueConstraint::ChallengeCode),
        Recovery::Retry
    );
    assert_eq!(
        translate_unique_violation(UniqueConstraint::FollowPair),
        Recovery::Succeed
    );
}

#[test]
fn not_found_translates_by_lookup() {
    assert_eq!(
        translate_not_found(LookupKind::LoginByUsername),
        Error::InvalidCredential
    );
    assert_eq!(translate_not_found(LookupKind::ById), Error::NotFound);
}

#[test]
fn everything_else_is_one_generic_failure() {
    assert_eq!(translate_other_failure(), Error::StorageFailure);
}
