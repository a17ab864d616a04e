//! The random source that addresses are drawn from.

use rand::rngs::StdRng;
use rand::Rng;
use vstd::prelude::*;

verus! {

/// `rand::rngs::StdRng`, a seedable generator of random numbers. Its state
/// is hidden: the library only hands it on to `draw_below`.
#[verifier::external_type_specification]
#[verifier::external_body]
pub struct ExStdRng(rand::rngs::StdRng);

/// Calls `Rng::gen_range` on the range `0..bound`. The contract claims that
/// the number drawn lies in that range, which is what `gen_range` documents;
/// it panics on an empty range, so `bound` must be positive. Nothing is
/// claimed of which number comes, nor of the generator's state afterwards.
#[verifier::external_body]
pub(crate) fn draw_below(rng: &mut StdRng, bound: usize) -> (k: usize)
    requires
        bound > 0,
    ensures
        k < bound,
{
    rng.gen_range(0..bound)
}

} // verus!
