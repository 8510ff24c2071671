//! Random choices, drawn from rand's thread-local generator.
use rand::Rng;
use vstd::prelude::*;

verus! {

/// Calls `rand::thread_rng().gen_range(low..high)` of rand: a number drawn at
/// random from `low..high`. Which number comes out is left open; only that it
/// lies in the range is stated. rand panics on an empty range, so the range
/// must hold a number.
#[verifier::external_body]
pub fn random_in_range(low: usize, high: usize) -> (r: usize)
    requires
        low < high,
    ensures
        low <= r < high,
{
    rand::thread_rng().gen_range(low..high)
}

} // verus!
