//! Draws from the thread-local generator of `rand`. What comes back depends on
//! chance alone: the contracts say only what holds of every draw.
use vstd::prelude::*;
use rand::Rng;

verus! {

/// A uniform draw from `0..len`, by `rand::Rng::random_range` on `rand::rng()`.
/// The draw lies in the range; which value comes is left open. `random_range`
/// panics on an empty range, so `len` must be positive.
#[verifier::external_body]
pub(crate) fn random_below(len: usize) -> (r: usize)
    requires
        len > 0,
    ensures
        r < len,
{
    rand::rng().random_range(0..len)
}

/// A fair coin, by `rand::Rng::random_ratio(1, 2)` on `rand::rng()`: either
/// value may come.
#[verifier::external_body]
pub(crate) fn coin_flip() -> bool {
    rand::rng().random_ratio(1, 2)
}

} // verus!
