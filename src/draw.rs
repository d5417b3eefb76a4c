use vstd::prelude::*;
use rand::Rng;
use rand_chacha::ChaCha8Rng;

verus! {

/// The seeded generator that every generator of this crate draws from.
#[verifier::external_type_specification]
#[verifier::external_body]
pub struct ExChaCha8Rng(ChaCha8Rng);

/// Relies on rand's `Rng::gen_range` over the half-open range `0..bound` of `u32`:
/// the value drawn lies in the range. It panics on an empty range, which
/// `requires` leaves out.
#[verifier::external_body]
pub(crate) fn draw_below(rng: &mut ChaCha8Rng, bound: u32) -> (r: u32)
    requires
        bound > 0,
    ensures
        r < bound,
{
    rng.gen_range(0..bound)
}

} // verus!
