use vstd::prelude::*;

verus! {

#[verifier::external_type_specification]
#[verifier::external_body]
pub struct ExStdRng(rand::rngs::StdRng);

/// Relies on rand's `StdRng::seed_from_u64`: builds a generator from a
/// 64-bit seed. Nothing is promised of the stream it produces.
#[verifier::external_body]
pub(crate) fn rng_from_seed(seed: u64) -> rand::rngs::StdRng {
    rand::SeedableRng::seed_from_u64(seed)
}

/// Relies on rand's `Rng::gen_range` on the range `0..max`: it panics only
/// on an empty range and returns a member of the range. The value drawn is
/// random, so no more than its bound is stated.
#[verifier::external_body]
pub(crate) fn sample_below(rng: &mut rand::rngs::StdRng, max: u64) -> (r: u64)
    requires
        max >= 1,
    ensures
        r < max,
{
    rand::Rng::gen_range(rng, 0..max)
}

} // verus!
