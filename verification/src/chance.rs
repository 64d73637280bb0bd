//! The one source of chance the game draws on.

use vstd::prelude::*;

verus! {

/// Draws a number with quad-rand's `gen_range(0, bound)`. That function
/// takes the next 32-bit output of the crate's generator as a fraction of
/// 2^32, which is at least zero and below one, multiplies it by `bound` and
/// cuts off what follows the point: for a `bound` above zero the result is
/// at least zero and below `bound`. Which of these numbers comes is up to
/// the state of the generator, and nothing is claimed of it.
#[verifier::external_body]
pub(crate) fn random_below(bound: i32) -> (drawn: i32)
    requires
        bound > 0,
    ensures
        0 <= drawn < bound,
{
    quad_rand::gen_range(0, bound)
}

} // verus!
