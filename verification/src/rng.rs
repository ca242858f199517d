//! Trusted boundary to the `rand` crate: the maze generator draws its
//! dimensions and wall directions from a seedable random number generator.

use vstd::prelude::*;

verus! {

/// `rand::rngs::StdRng` is declared so that it can appear in signatures;
/// its internal state is opaque to verification.
#[verifier::external_type_specification]
#[verifier::external_body]
pub struct ExStdRng(rand::rngs::StdRng);

/// Relies on rand's `SeedableRng::seed_from_u64`: builds a generator from a
/// seed. Nothing is assumed about the values it will produce.
#[verifier::external_body]
pub fn rng_from_seed(seed: u64) -> rand::rngs::StdRng {
    <rand::rngs::StdRng as rand::SeedableRng>::seed_from_u64(seed)
}

/// Relies on rand's `Rng::gen_range`, which returns a value from the half-open
/// range `[lo, hi)` and panics only when the range is empty.
#[verifier::external_body]
pub fn rng_range(rng: &mut rand::rngs::StdRng, lo: u32, hi: u32) -> (r: u32)
    requires
        lo < hi,
    ensures
        lo <= r < hi,
{
    rand::Rng::gen_range(rng, lo..hi)
}

} // verus!
