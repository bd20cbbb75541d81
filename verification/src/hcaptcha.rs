//! The captcha screen: the decisions around the third-party yes/no
//! verification call. The call itself is the caller's concern.

use vstd::prelude::*;

verus! {

/// Witness that a request passed the captcha screen; it cannot be built
/// outside this module.
pub struct Hcaptcha {
    _private: (),
}

/// Why the captcha check refused a request.
#[derive(Copy, Clone, Debug, PartialEq, Eq, Structural)]
pub enum HcaptchaError {
    /// The challenge response header is missing.
    Missing,
    /// The client address could not be read, so the challenge cannot be
    /// verified.
    InsufficientInformation,
    /// The upstream verifier rejected the challenge response.
    Invalid,
}

impl HcaptchaError {
    /// The HTTP status a transport layer should use: every refusal of the
    /// captcha check is forbidden.
    pub fn status_code(&self) -> (r: u16)
        ensures
            r == 403,
    {
        403
    }

    /// The domain outcome: every refusal is a rejected captcha.
    pub fn to_domain(&self) -> (r: crate::error::Error)
        ensures
            r == crate::error::Error::CaptchaRejected,
    {
        crate::error::Error::CaptchaRejected
    }
}

/// What the captcha check decided before any upstream call.
pub enum CaptchaStep {
    /// Verification is switched off: the request passes at once.
    Granted(Hcaptcha),
    /// The upstream verifier must be asked about this response key.
    Verify(String),
}

/// The decision made from the request alone: bypass grants at once; a
/// missing response header is refused as missing; an unreadable client
/// address as insufficient information; otherwise the header value is what
/// the upstream verifier must check.
pub fn captcha_precheck(bypass: bool, header: Option<String>, ip_valid: bool) -> (r: Result<
    CaptchaStep,
    HcaptchaError,
>)
    ensures
        bypass ==> (r matches Ok(s) && s is Granted),
        !bypass && header is None ==> r == Err::<CaptchaStep, HcaptchaError>(HcaptchaError::Missing),
        !bypass && header is Some && !ip_valid ==> r == Err::<CaptchaStep, HcaptchaError>(
            HcaptchaError::InsufficientInformation,
        ),
        !bypass && ip_valid ==> (header matches Some(h) ==> (r matches Ok(s) && (s matches
        CaptchaStep::Verify(k) && k == h))),
{
    if bypass {
        return Ok(CaptchaStep::Granted(Hcaptcha { _private: () }));
    }
    match header {
        None => Err(HcaptchaError::Missing),
        Some(h) => {
            if !ip_valid {
                Err(HcaptchaError::InsufficientInformation)
            } else {
                Ok(CaptchaStep::Verify(h))
            }
        },
    }
}

/// The outcome of the upstream verification call: only a positive answer
/// passes the check; anything else is an invalid challenge response.
pub fn captcha_outcome(verified: bool) -> (r: Result<Hcaptcha, HcaptchaError>)
    ensures
        verified <==> r is Ok,
        !verified ==> r == Err::<Hcaptcha, HcaptchaError>(HcaptchaError::Invalid),
{
    if verified {
        Ok(Hcaptcha { _private: () })
    } else {
        Err(HcaptchaError::Invalid)
    }
}

} // verus!
