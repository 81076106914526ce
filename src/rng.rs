//! The random source: rltk's seedable generator.

use vstd::prelude::*;

verus! {

#[verifier::external_type_specification]
#[verifier::external_body]
pub struct ExRandomNumberGenerator(rltk::RandomNumberGenerator);

/// Relies on `RandomNumberGenerator::range` (bracket-random), which samples
/// `rand`'s `gen_range(lo..hi)`: a value in `[lo, hi)`; an empty range panics.
#[verifier::external_body]
pub(crate) fn draw_range(rng: &mut rltk::RandomNumberGenerator, lo: i32, hi: i32) -> (r: i32)
    requires
        lo < hi,
    ensures
        lo <= r < hi,
{
    rng.range(lo, hi)
}

} // verus!
