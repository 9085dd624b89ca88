//! The isolated random source of the Poisson electrode: a seedable
//! generator, so that a run can be reproduced by reusing its seed.

use vstd::prelude::*;

use rand::rngs::StdRng;
use rand::{Rng, SeedableRng};

verus! {

#[verifier::external_type_specification]
#[verifier::external_body]
pub struct ExStdRng(StdRng);

/// A seedable stream of raw 64-bit draws.
pub struct RandomSource {
    rng: StdRng,
}

impl RandomSource {
    /// Relies on rand's `SeedableRng::seed_from_u64` to build a generator
    /// from a seed; the generator's state is opaque here.
    #[verifier::external_body]
    pub fn new(seed: u64) -> (r: RandomSource) {
        RandomSource { rng: StdRng::seed_from_u64(seed) }
    }

    /// Relies on rand's `Rng::next_u64` for one draw; of a random value
    /// nothing more is stated.
    #[verifier::external_body]
    pub fn next_draw(&mut self) -> (r: u64) {
        self.rng.next_u64()
    }
}

} // verus!
