//! Password hashing and verification (the credential store).

use vstd::prelude::*;

use crate::rng;

verus! {

/// Whether argon2's `verify_encoded` accepts this encoded string together
/// with a password of this content; it rejects malformed encodings instead
/// of answering.
pub uninterp spec fn argon2_accepts(encoded: Seq<char>, password: Seq<u8>) -> bool;

/// The answer argon2's `verify_encoded` computes when it accepts its
/// inputs: whether the digest embedded in the encoded string was derived
/// from this password.
pub uninterp spec fn argon2_matches(encoded: Seq<char>, password: Seq<u8>) -> bool;

/// A well-formed encoded hash that verifies against `password`.
pub open spec fn credential_matches(encoded: Seq<char>, password: Seq<u8>) -> bool {
    argon2_accepts(encoded, password) && argon2_matches(encoded, password)
}

/// Relies on argon2's `hash_encoded` with its default configuration
/// (Argon2id, OWASP cost parameters): for a password of fewer than 2^32
/// bytes and a salt of 8 to 2^32 - 1 bytes it returns an encoded hash
/// embedding algorithm, parameters, salt and digest, and `verify_encoded`
/// accepts that hash and reports a match for the same password.
#[verifier::external_body]
fn argon2_hash(password: &[u8], salt: &[u8]) -> (r: String)
    requires
        8 <= salt@.len() < 0x1_0000_0000,
        password@.len() < 0x1_0000_0000,
    ensures
        argon2_accepts(r@, password@),
        argon2_matches(r@, password@),
{
    argon2::hash_encoded(password, salt, &argon2::Config::default()).unwrap()
}

/// Relies on argon2's `verify_encoded`: deterministic in the encoded
/// string and the password; `Err` exactly when it rejects its inputs.
#[verifier::external_body]
fn argon2_verify(encoded: &str, password: &[u8]) -> (r: Option<bool>)
    ensures
        r is Some <==> argon2_accepts(encoded@, password@),
        r is Some ==> r == Some(argon2_matches(encoded@, password@)),
{
    argon2::verify_encoded(encoded, password).ok()
}

/// Derives an encoded Argon2id hash of the password under a fresh random
/// 16-byte salt. The result verifies against the same password.
pub fn hash(password: &[u8]) -> (r: String)
    requires
        password@.len() < 0x1_0000_0000,
    ensures
        credential_matches(r@, password@),
{
    let mut rng = rng::fresh_rng();
    let salt = rng::random_salt(&mut rng);
    argon2_hash(password, salt.as_slice())
}

/// Recomputes the digest using the parameters embedded in the encoded
/// hash; malformed input yields `false` rather than a failure.
pub fn verify(encoded: &str, password: &[u8]) -> (r: bool)
    ensures
        r == credential_matches(encoded@, password@),
{
    match argon2_verify(encoded, password) {
        Some(b) => b,
        None => false,
    }
}

/// Law: a credential freshly hashed from a password always verifies
/// against that same password.
pub fn hash_then_verify(password: &[u8]) -> (r: bool)
    requires
        password@.len() < 0x1_0000_0000,
    ensures
        r == true,
{
    let encoded = hash(password);
    verify(encoded.as_str(), password)
}

} // verus!
