//! The random source: the thread-local generator of the `rand` crate.

use rand::rngs::ThreadRng;
use rand::Rng;
use vstd::prelude::*;

verus! {

/// `rand::rngs::ThreadRng`, a handle to the calling thread's generator. The
/// library carries it around and sees nothing inside it.
#[verifier::external_type_specification]
#[verifier::external_body]
pub struct ExThreadRng(ThreadRng);

/// `rand::thread_rng`: a handle to the calling thread's generator. Nothing is
/// claimed of the handle.
#[verifier::external_body]
pub(crate) fn thread_rng() -> (rng: ThreadRng) {
    rand::thread_rng()
}

/// `Rng::gen_range(0, bound)` on `u64`: the draw lies in `[0, bound)`. The
/// outside function panics when the range is empty, hence the `requires`.
#[verifier::external_body]
pub(crate) fn draw_below(rng: &mut ThreadRng, bound: u64) -> (r: u64)
    requires
        bound > 0,
    ensures
        r < bound,
{
    rng.gen_range(0, bound)
}

/// `Rng::gen::<bool>()`: a coin flip. Nothing is claimed of the outcome.
#[verifier::external_body]
pub(crate) fn flip(rng: &mut ThreadRng) -> (heads: bool) {
    rng.gen::<bool>()
}

} // verus!
