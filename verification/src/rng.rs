//! Source of randomness for sampling: a seedable generator threaded
//! explicitly through every sampling call, so that tests can reproduce runs.

use vstd::prelude::*;

verus! {

#[verifier::external_type_specification]
#[verifier::external_body]
pub struct ExStdRng(rand::rngs::StdRng);

/// An explicit pseudo-random generator. Nothing is assumed about the values
/// it produces beyond the range promised by each drawing method.
pub struct RandomSource {
    inner: rand::rngs::StdRng,
}

impl RandomSource {
    /// Relies on rand's `SeedableRng::seed_from_u64`: builds a generator
    /// deterministically from the seed.
    #[verifier::external_body]
    pub fn from_seed(seed: u64) -> (r: RandomSource) {
        RandomSource { inner: <rand::rngs::StdRng as rand::SeedableRng>::seed_from_u64(seed) }
    }

    /// Relies on rand's `SeedableRng::from_entropy`: builds a generator from
    /// fresh operating-system entropy. It panics only if the operating
    /// system's entropy source fails, an environmental failure no input can
    /// exclude.
    #[verifier::external_body]
    pub fn from_entropy() -> (r: RandomSource) {
        RandomSource { inner: <rand::rngs::StdRng as rand::SeedableRng>::from_entropy() }
    }

    /// Relies on rand's `Rng::gen_range` over `lo..hi`: returns a value
    /// uniformly drawn from the half-open range (it panics on an empty one,
    /// which the precondition rules out).
    #[verifier::external_body]
    pub fn next_in_range(&mut self, lo: i64, hi: i64) -> (r: i64)
        requires
            lo < hi,
        ensures
            lo <= r < hi,
    {
        rand::Rng::gen_range(&mut self.inner, lo..hi)
    }
}

} // verus!
