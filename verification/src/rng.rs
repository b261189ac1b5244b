//! The source of randomness that catalog and advancement calls draw from.
//!
//! Every draw goes through one explicitly passed, seedable source, so that
//! tests can be made deterministic; nothing here reaches for an ambient
//! generator.

use vstd::prelude::*;

verus! {

/// Declares rand's standard generator type so a value of it can sit in a
/// field.
#[verifier::external_type_specification]
#[verifier::external_body]
pub struct ExStdRng(rand::rngs::StdRng);

/// A seedable source of randomness, threaded through every call that rolls
/// a stat or picks a kind.
pub struct RngSource {
    rng: rand::rngs::StdRng,
}

impl RngSource {
    /// A source in a reproducible state.  Relies on rand's
    /// `StdRng::seed_from_u64`; nothing is claimed of the values it will
    /// yield.
    #[verifier::external_body]
    pub fn from_seed(seed: u64) -> RngSource {
        RngSource { rng: <rand::rngs::StdRng as rand::SeedableRng>::seed_from_u64(seed) }
    }

    /// A source seeded from the operating system.  Relies on rand's
    /// `StdRng::from_entropy`; nothing is claimed of the values it will
    /// yield.
    #[verifier::external_body]
    pub fn from_entropy() -> RngSource {
        RngSource { rng: <rand::rngs::StdRng as rand::SeedableRng>::from_entropy() }
    }

    /// A draw from a non-empty half-open range.  Relies on rand's
    /// `Rng::gen_range`, which yields a value of the given range and panics
    /// on an empty one.
    #[verifier::external_body]
    pub(crate) fn pick_u64(&mut self, low: u64, high: u64) -> (r: u64)
        requires
            low < high,
        ensures
            low <= r < high,
    {
        rand::Rng::gen_range(&mut self.rng, low..high)
    }

    /// A draw of an index below a positive bound.  Relies on rand's
    /// `Rng::gen_range`, which yields a value of the given range and panics
    /// on an empty one.
    #[verifier::external_body]
    pub(crate) fn pick_index(&mut self, bound: usize) -> (r: usize)
        requires
            bound > 0,
        ensures
            r < bound,
    {
        rand::Rng::gen_range(&mut self.rng, 0..bound)
    }
}

} // verus!
