//! The seeded pseudo-random generator behind transformation generation.
//!
//! The generator itself is an external collaborator: nothing is assumed about
//! the values it produces beyond the ranges stated on the draws below, so
//! every result proved downstream holds for every possible draw sequence.

use vstd::prelude::*;

verus! {

/// The pseudo-random generator type, declared so that verified code can
/// thread one generator through the whole pipeline by mutable reference.
#[verifier::external_type_specification]
#[verifier::external_body]
pub struct ExStdRng(rand::rngs::StdRng);

/// Relies on rand's `Rng::gen_range` over a half-open integer range: it
/// returns a value uniformly drawn from `[lo, hi)`, and panics only when the
/// range is empty, which the precondition rules out.
#[verifier::external_body]
pub(crate) fn gen_range_exclusive(rng: &mut rand::rngs::StdRng, lo: usize, hi: usize) -> (r: usize)
    requires
        lo < hi,
    ensures
        lo <= r < hi,
{
    rand::Rng::gen_range(rng, lo..hi)
}

/// Relies on rand's `Rng::gen_range` over an inclusive integer range: it
/// returns a value uniformly drawn from `[lo, hi]`; the range is never empty
/// when `lo <= hi`.
#[verifier::external_body]
pub(crate) fn gen_range_inclusive(rng: &mut rand::rngs::StdRng, lo: usize, hi: usize) -> (r: usize)
    requires
        lo <= hi,
    ensures
        lo <= r <= hi,
{
    rand::Rng::gen_range(rng, lo..=hi)
}

} // verus!
