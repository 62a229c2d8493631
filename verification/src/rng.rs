//! Trusted boundary to the random number generator. Every draw the
//! simulation makes goes through the two wrappers here; everything computed
//! from a draw is verified for every value the contracts admit.

use vstd::prelude::*;
use rand::Rng;

verus! {

#[verifier::external_type_specification]
#[verifier::external_body]
pub struct ExThreadRng(rand::rngs::ThreadRng);

/// Relies on rand::thread_rng: returns a handle to the thread-local
/// generator. Nothing is assumed about the values it will produce.
#[verifier::external_body]
pub(crate) fn fresh_rng() -> rand::rngs::ThreadRng {
    rand::thread_rng()
}

/// Relies on rand::Rng::gen_range: a draw from a half-open range is a value
/// of that range. The call panics on an empty range, which the precondition
/// rules out; beyond the bounds nothing is assumed about the draw.
#[verifier::external_body]
pub(crate) fn gen_range_i16(rng: &mut rand::rngs::ThreadRng, lo: i16, hi: i16) -> (r: i16)
    requires
        lo < hi,
    ensures
        lo <= r < hi,
{
    rng.gen_range(lo..hi)
}

} // verus!
