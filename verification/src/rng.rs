//! Access to the process's randomness source. Spec-wise nothing can be
//! promised of a random value beyond its range, so the contracts here say
//! only that.

use vstd::prelude::*;

verus! {

/// rand's thread-local generator, carried through the library as an
/// injected randomness source.
#[verifier::external_type_specification]
#[verifier::external_body]
pub struct ExThreadRng(rand::rngs::ThreadRng);

/// Relies on rand's `thread_rng`: a handle to the thread-local
/// cryptographically secure generator.
#[verifier::external_body]
pub(crate) fn fresh_rng() -> rand::rngs::ThreadRng {
    rand::thread_rng()
}

/// Relies on rand's `fill_bytes`: fills a buffer with random bytes; used
/// here to draw a fresh 16-byte salt.
#[verifier::external_body]
pub(crate) fn random_salt(rng: &mut rand::rngs::ThreadRng) -> (r: Vec<u8>)
    ensures
        r@.len() == 16,
{
    let mut buf = [0u8; 16];
    rand::RngCore::fill_bytes(rng, &mut buf);
    buf.to_vec()
}

/// Relies on rand's `gen_range`: returns a value of the given non-empty
/// range (it panics on an empty one).
#[verifier::external_body]
pub(crate) fn random_below(rng: &mut rand::rngs::ThreadRng, bound: usize) -> (r: usize)
    requires
        bound > 0,
    ensures
        r < bound,
{
    rand::Rng::gen_range(rng, 0..bound)
}

} // verus!
