//! A seeded source of random numbers, drawn from the `rand` crate's standard generator.
use vstd::prelude::*;
use rand::rngs::StdRng;
use rand::{Rng, SeedableRng};

verus! {

#[verifier::external_type_specification]
#[verifier::external_body]
pub struct ExStdRng(StdRng);

/// Relies on `SeedableRng::seed_from_u64` for `StdRng`: a generator whose
/// stream is fixed by the seed.
#[verifier::external_body]
fn seeded_std_rng(seed: u64) -> StdRng {
    StdRng::seed_from_u64(seed)
}

/// Relies on `Rng::gen_range` over a half-open range: the value lies in
/// `[low, high)`. The crate panics on an empty range, which `requires` rules out.
#[verifier::external_body]
fn std_rng_range(rng: &mut StdRng, low: i64, high: i64) -> (r: i64)
    requires
        low < high,
    ensures
        low <= r < high,
{
    rng.gen_range(low..high)
}

/// A reproducible stream of random numbers: the same seed gives the same draws.
pub struct RandomSource {
    rng: StdRng,
}

impl RandomSource {
    pub fn from_seed(seed: u64) -> (r: RandomSource) {
        RandomSource { rng: seeded_std_rng(seed) }
    }

    /// A random integer in `[low, high)`.
    pub fn gen_range(&mut self, low: i64, high: i64) -> (r: i64)
        requires
            low < high,
        ensures
            low <= r < high,
    {
        std_rng_range(&mut self.rng, low, high)
    }
}

} // verus!
