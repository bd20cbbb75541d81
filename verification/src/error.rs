//! Domain failure taxonomy and the translation of storage-level failure
//! signals into domain outcomes.

use vstd::prelude::*;

verus! {

/// Every failure the core can report to a caller.
#[derive(Copy, Clone, Debug, PartialEq, Eq, Structural)]
pub enum Error {
    /// The requested username is already taken by another account.
    ConflictUsername,
    /// Login failed; deliberately silent on whether the username exists.
    InvalidCredential,
    /// The addressed entity does not exist (or is soft-deleted, for readers
    /// other than its owner).
    NotFound,
    /// A question or vote invariant was violated.
    ValidationFailure,
    /// An ownership check failed.
    Unauthorized,
    /// The external service answered with data that could not be decoded.
    UpstreamMalformed,
    /// The external service answered with an explicit failure status.
    UpstreamError,
    /// The external service could not be reached (retryable).
    UpstreamTransport,
    /// Any other storage failure; never detailed to the caller.
    StorageFailure,
    /// The captcha challenge was not passed.
    CaptchaRejected,
}

/// The caller-facing rendering of an error: a stable numeric code and a
/// message that never carries internal detail.
#[derive(Clone, Debug, PartialEq)]
pub struct ErrorDisplay {
    pub code: u64,
    pub err: String,
}

/// The stable numeric code of each failure.
pub open spec fn spec_code(e: Error) -> u64 {
    match e {
        Error::StorageFailure => 510000u64,
        Error::CaptchaRejected => 410000u64,
        Error::InvalidCredential => 420000u64,
        Error::ConflictUsername => 430001u64,
        Error::NotFound => 440000u64,
        Error::ValidationFailure => 450000u64,
        Error::Unauthorized => 460000u64,
        Error::UpstreamMalformed => 470001u64,
        Error::UpstreamError => 470002u64,
        Error::UpstreamTransport => 470003u64,
    }
}

/// The message shown for each failure; storage failures stay opaque.
pub open spec fn spec_user_msg(e: Error) -> Seq<char> {
    match e {
        Error::StorageFailure => "database error"@,
        Error::CaptchaRejected => "captcha verification failed"@,
        Error::InvalidCredential => "unauthorized"@,
        Error::ConflictUsername => "username has been taken"@,
        Error::NotFound => "not found"@,
        Error::ValidationFailure => "validation failed"@,
        Error::Unauthorized => "unauthorized operation"@,
        Error::UpstreamMalformed => "got unexpected response"@,
        Error::UpstreamError => "external service error"@,
        Error::UpstreamTransport => "external service unreachable"@,
    }
}

/// The HTTP status a transport layer should use for each failure.
pub open spec fn spec_status_code(e: Error) -> u16 {
    match e {
        Error::StorageFailure => 500u16,
        Error::CaptchaRejected => 403u16,
        Error::InvalidCredential => 403u16,
        Error::ConflictUsername => 409u16,
        Error::NotFound => 404u16,
        Error::ValidationFailure => 400u16,
        Error::Unauthorized => 401u16,
        Error::UpstreamMalformed => 502u16,
        Error::UpstreamError => 502u16,
        Error::UpstreamTransport => 504u16,
    }
}

impl Error {
    /// Stable numeric code; carries no internal detail.
    pub fn code(&self) -> (r: u64)
        ensures
            r == spec_code(*self),
    {
        match self {
            Error::StorageFailure => 510000u64,
            Error::CaptchaRejected => 410000u64,
            Error::InvalidCredential => 420000u64,
            Error::ConflictUsername => 430001u64,
            Error::NotFound => 440000u64,
            Error::ValidationFailure => 450000u64,
            Error::Unauthorized => 460000u64,
            Error::UpstreamMalformed => 470001u64,
            Error::UpstreamError => 470002u64,
            Error::UpstreamTransport => 470003u64,
        }
    }

    /// Caller-visible message; storage failures are reported opaquely.
    pub fn user_msg(&self) -> (r: String)
        ensures
            r@ == spec_user_msg(*self),
    {
        match self {
            Error::StorageFailure => String::from_str("database error"),
            Error::CaptchaRejected => String::from_str("captcha verification failed"),
            Error::InvalidCredential => String::from_str("unauthorized"),
            Error::ConflictUsername => String::from_str("username has been taken"),
            Error::NotFound => String::from_str("not found"),
            Error::ValidationFailure => String::from_str("validation failed"),
            Error::Unauthorized => String::from_str("unauthorized operation"),
            Error::UpstreamMalformed => String::from_str("got unexpected response"),
            Error::UpstreamError => String::from_str("external service error"),
            Error::UpstreamTransport => String::from_str("external service unreachable"),
        }
    }

    /// HTTP status for a transport layer.
    pub fn status_code(&self) -> (r: u16)
        ensures
            r == spec_status_code(*self),
    {
        match self {
            Error::StorageFailure => 500u16,
            Error::CaptchaRejected => 403u16,
            Error::InvalidCredential => 403u16,
            Error::ConflictUsername => 409u16,
            Error::NotFound => 404u16,
            Error::ValidationFailure => 400u16,
            Error::Unauthorized => 401u16,
            Error::UpstreamMalformed => 502u16,
            Error::UpstreamError => 502u16,
            Error::UpstreamTransport => 504u16,
        }
    }

    /// The caller-facing rendering: stable code plus opaque message.
    pub fn as_display(&self) -> (r: ErrorDisplay)
        ensures
            r.code == spec_code(*self),
            r.err@ == spec_user_msg(*self),
    {
        ErrorDisplay { code: self.code(), err: self.user_msg() }
    }
}

/// Classification of a storage engine's failure by its SQLSTATE code.
#[derive(Copy, Clone, Debug, PartialEq, Eq, Structural)]
pub enum PgError {
    UniqueViolation,
    CheckViolation,
    Others,
}

/// The SQLSTATE classification rule: 23505 is a unique-constraint violation,
/// 23514 a check-constraint violation, anything else stays opaque.
pub open spec fn spec_classify_pg_code(code: Seq<char>) -> PgError {
    if code == "23505"@ {
        PgError::UniqueViolation
    } else if code == "23514"@ {
        PgError::CheckViolation
    } else {
        PgError::Others
    }
}

/// Classifies a storage-level SQLSTATE code string.
pub fn classify_pg_code(code: &str) -> (r: PgError)
    ensures
        r == spec_classify_pg_code(code@),
{
    if crate::text::str_eq(code, "23505") {
        PgError::UniqueViolation
    } else if crate::text::str_eq(code, "23514") {
        PgError::CheckViolation
    } else {
        PgError::Others
    }
}

/// The uniqueness constraints the storage engine arbitrates.
#[derive(Copy, Clone, Debug, PartialEq, Eq, Structural)]
pub enum UniqueConstraint {
    Username,
    ChallengeCode,
    FollowPair,
}

/// What a lookup that found no row was serving.
#[derive(Copy, Clone, Debug, PartialEq, Eq, Structural)]
pub enum LookupKind {
    LoginByUsername,
    ById,
}

/// How the caller recovers from a unique-constraint violation.
#[derive(Copy, Clone, Debug, PartialEq, Eq, Structural)]
pub enum Recovery {
    /// Surface a domain failure to the caller.
    Fail(Error),
    /// Transient: draw a new value and try again.
    Retry,
    /// The desired state already holds; report success.
    Succeed,
}

/// Translates a unique-constraint violation into its domain meaning:
/// a taken username is a conflict, a taken challenge code is transient,
/// an existing follow pair already is the desired state.
pub fn translate_unique_violation(c: UniqueConstraint) -> (r: Recovery)
    ensures
        c is Username ==> r == Recovery::Fail(Error::ConflictUsername),
        c is ChallengeCode ==> r == Recovery::Retry,
        c is FollowPair ==> r == Recovery::Succeed,
{
    match c {
        UniqueConstraint::Username => Recovery::Fail(Error::ConflictUsername),
        UniqueConstraint::ChallengeCode => Recovery::Retry,
        UniqueConstraint::FollowPair => Recovery::Succeed,
    }
}

/// Translates a row-not-found signal: during login it must not reveal
/// whether the username exists; elsewhere it is a plain not-found.
pub fn translate_not_found(k: LookupKind) -> (r: Error)
    ensures
        k is LoginByUsername ==> r == Error::InvalidCredential,
        k is ById ==> r == Error::NotFound,
{
    match k {
        LookupKind::LoginByUsername => Error::InvalidCredential,
        LookupKind::ById => Error::NotFound,
    }
}

/// Every other storage failure is surfaced as one opaque generic failure.
pub fn translate_other_failure() -> (r: Error)
    ensures
        r == Error::StorageFailure,
{
    Error::StorageFailure
}

} // verus!
