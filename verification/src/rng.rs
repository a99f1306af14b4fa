//! Random draws through the `rand` crate's thread-local generator.
use rand::Rng;
use vstd::prelude::*;

verus! {

#[verifier::external_type_specification]
#[verifier::external_body]
pub struct ExThreadRng(rand::rngs::ThreadRng);

/// Calls `rand::thread_rng()`: a handle to the thread-local generator.
/// Nothing is stated of its state.
#[verifier::external_body]
pub fn new_rng() -> rand::rngs::ThreadRng {
    rand::thread_rng()
}

/// Calls `Rng::gen_range(0..n)` on the thread-local generator. It panics
/// on an empty range, hence `n > 0`; the value lies in `[0, n)` and
/// depends on chance, so only that bound is stated.
#[verifier::external_body]
pub fn random_below(rng: &mut rand::rngs::ThreadRng, n: usize) -> (r: usize)
    requires
        n > 0,
    ensures
        r < n,
{
    rng.gen_range(0..n)
}

/// Calls `Rng::gen_ratio(num, den)`: `true` with probability `num / den`.
/// `rand` returns `Err` (and `gen_ratio` panics) unless `num <= den` and
/// `den > 0`; for `num == 0` the draw is never `true` (`v < 0` on a `u64`)
/// and for `num == den` it is always `true`.
#[verifier::external_body]
pub fn random_ratio(rng: &mut rand::rngs::ThreadRng, num: u32, den: u32) -> (r: bool)
    requires
        0 < den,
        num <= den,
    ensures
        num == 0 ==> !r,
        num == den ==> r,
{
    rng.gen_ratio(num, den)
}

/// A fair coin: `true` with probability one half, from one `gen_ratio(1, 2)`
/// draw.
pub fn coin_flip(rng: &mut rand::rngs::ThreadRng) -> bool {
    random_ratio(rng, 1, 2)
}

} // verus!
