//! Generation of short verification codes (the challenge issuer).
//!
//! A code has exactly 7 characters drawn from the 62-character
//! alphanumeric alphabet; persistence and collision retry are the store's
//! and the caller's concern.

use vstd::prelude::*;

use crate::rng;
use crate::text::push_char;

verus! {

/// Length of every challenge code.
pub const CHALLENGE_LEN: usize = 7;

/// Size of the code alphabet: 26 upper-case letters, 26 lower-case
/// letters, 10 digits.
pub const CHALLENGE_ALPHABET_SIZE: usize = 62;

/// Membership in the code alphabet `A-Za-z0-9`.
pub open spec fn is_code_char(c: char) -> bool {
    ||| 'A' <= c && c <= 'Z'
    ||| 'a' <= c && c <= 'z'
    ||| '0' <= c && c <= '9'
}

/// The alphabet character at a given index: upper-case letters first,
/// then lower-case letters, then digits.
pub open spec fn spec_code_char(i: int) -> char {
    if i < 26 {
        ((65 + i) as u8) as char
    } else if i < 52 {
        ((97 + (i - 26)) as u8) as char
    } else {
        ((48 + (i - 52)) as u8) as char
    }
}

/// A well-formed challenge code: exactly 7 characters, all from the
/// 62-character alphabet.
pub open spec fn valid_code(s: Seq<char>) -> bool {
    s.len() == CHALLENGE_LEN && forall|i: int| 0 <= i < s.len() ==> is_code_char(s[i])
}

/// The alphabet character at index `i`.
fn code_char(i: usize) -> (c: char)
    requires
        i < CHALLENGE_ALPHABET_SIZE,
    ensures
        c == spec_code_char(i as int),
        is_code_char(c),
{
    let b: u8 = if i < 26 {
        65 + (i as u8)
    } else if i < 52 {
        97 + (i as u8 - 26)
    } else {
        48 + (i as u8 - 52)
    };
    b as char
}

/// Draws a 7-character code uniformly from the 62-character alphanumeric
/// alphabet.
pub fn generate_challenge_code() -> (r: String)
    ensures
        valid_code(r@),
{
    let mut rng = rng::fresh_rng();
    let mut code = String::new();
    let mut k: usize = 0;
    while k < CHALLENGE_LEN
        invariant
            k <= CHALLENGE_LEN,
            code@.len() == k,
            forall|i: int| 0 <= i < k ==> is_code_char(code@[i]),
        decreases CHALLENGE_LEN - k,
    {
        let idx = rng::random_below(&mut rng, CHALLENGE_ALPHABET_SIZE);
        let c = code_char(idx);
        push_char(&mut code, c);
        k = k + 1;
    }
    code
}

} // verus!
