//! Random draws, taken from the rand crate behind trusted wrappers.
//!
//! Every sampling decision in the tracer consumes draws from an explicitly
//! passed, seedable generator, so renders are reproducible per seed.
use vstd::prelude::*;

verus! {

use crate::fixed::ONE;

#[verifier::external_type_specification]
#[verifier::external_body]
pub struct ExStdRng(rand::rngs::StdRng);

/// Relies on rand's StdRng and SeedableRng::seed_from_u64: a deterministic
/// generator built from a 64-bit seed.
#[verifier::external_body]
pub fn rng_from_seed(seed: u64) -> rand::rngs::StdRng {
    <rand::rngs::StdRng as rand::SeedableRng>::seed_from_u64(seed)
}

/// Relies on rand's Rng::gen_range: a draw uniform over [0, ONE).
#[verifier::external_body]
pub fn rng_unit(rng: &mut rand::rngs::StdRng) -> (r: i64)
    ensures
        0 <= r < ONE,
{
    rand::Rng::gen_range(rng, 0..65536i64)
}

/// Relies on rand's Rng::gen_range: a draw uniform over [0, n); the range
/// handed to it is never empty.
#[verifier::external_body]
pub fn rng_below(rng: &mut rand::rngs::StdRng, n: u64) -> (r: u64)
    requires
        n >= 1,
    ensures
        r < n,
{
    rand::Rng::gen_range(rng, 0..n)
}

} // verus!
