//! The injected randomness source: a seedable pseudo-random generator that
//! the entity constructors take explicitly, so a fixed seed makes the whole
//! simulation reproducible. The generator itself is `rand`'s `StdRng`; the
//! few calls into it sit behind trusted wrappers that state only what the
//! `rand` documentation promises of every outcome.
use vstd::prelude::*;
use rand::Rng;
use rand::SeedableRng;

verus! {

#[verifier::external_type_specification]
#[verifier::external_body]
pub struct ExStdRng(rand::rngs::StdRng);

/// A seedable pseudo-random source, passed explicitly wherever the
/// simulation needs a random draw.
pub struct GameRng {
    inner: rand::rngs::StdRng,
}

/// Relies on rand's StdRng::seed_from_u64: builds a generator from a seed.
/// Nothing is claimed of the stream it will produce.
#[verifier::external_body]
fn std_rng_from_seed(seed: u64) -> rand::rngs::StdRng {
    rand::rngs::StdRng::seed_from_u64(seed)
}

/// Relies on rand's Rng::gen_range over `lo..hi`, which panics on an empty
/// range and otherwise returns a value of the range.
#[verifier::external_body]
fn std_rng_range(rng: &mut rand::rngs::StdRng, lo: i64, hi: i64) -> (r: i64)
    requires
        lo < hi,
    ensures
        lo <= r < hi,
{
    rng.gen_range(lo..hi)
}

/// Relies on rand's Rng::gen for `bool`: returns a random draw, of which
/// nothing is claimed.
#[verifier::external_body]
fn std_rng_flip(rng: &mut rand::rngs::StdRng) -> bool {
    rng.gen::<bool>()
}

impl GameRng {
    /// A generator whose draws are fully determined by `seed`.
    pub fn new(seed: u64) -> GameRng {
        GameRng { inner: std_rng_from_seed(seed) }
    }

    /// A draw from `lo..hi` (half-open).
    pub fn pick(&mut self, lo: i64, hi: i64) -> (r: i64)
        requires
            lo < hi,
        ensures
            lo <= r < hi,
    {
        std_rng_range(&mut self.inner, lo, hi)
    }

    /// A fair-coin draw.
    pub fn flip(&mut self) -> bool {
        std_rng_flip(&mut self.inner)
    }
}

} // verus!
