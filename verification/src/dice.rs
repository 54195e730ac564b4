//! The source of randomness behind the effects.

use rand::rngs::ThreadRng;
use rand::Rng;
use vstd::prelude::*;

verus! {

/// `rand::rngs::ThreadRng`, the handle to the generator of the current
/// thread. Nothing is known of its state.
#[verifier::external_type_specification]
#[verifier::external_body]
pub struct ExThreadRng(rand::rngs::ThreadRng);

/// `rand::thread_rng` hands out the handle to the thread's generator,
/// which it seeds from the system on first use; it panics where the system
/// gives no seed. Nothing is claimed of the handle.
pub assume_specification[ rand::thread_rng ]() -> (rng: rand::rngs::ThreadRng);

/// `Rng::gen_range` on `u64`: a draw from the half-open range
/// `[low, high)`. The call panics on an empty range, so the range is
/// required to hold a value. Which value comes back is not known, only
/// that it lies in the range.
#[verifier::external_body]
fn gen_range(rng: &mut ThreadRng, low: u64, high: u64) -> (r: u64)
    requires
        low < high,
    ensures
        low <= r < high,
{
    rng.gen_range(low, high)
}

/// `Rng::gen_ratio`: `true` with chance `numerator / denominator`. The call
/// panics on a zero denominator and on a ratio above one. Its documentation
/// promises `false` for a zero numerator and `true` where numerator and
/// denominator are equal; of the other ratios nothing is known.
#[verifier::external_body]
fn gen_ratio(rng: &mut ThreadRng, numerator: u32, denominator: u32) -> (r: bool)
    requires
        0 < denominator,
        numerator <= denominator,
    ensures
        numerator == 0 ==> !r,
        numerator == denominator ==> r,
{
    rng.gen_ratio(numerator, denominator)
}

/// A handle to the random number generator of the current thread.
pub struct Dice {
    rng: ThreadRng,
}

impl Dice {
    /// Takes the generator of the current thread.
    pub fn new() -> Dice {
        Dice { rng: rand::thread_rng() }
    }

    /// Draws a byte of `[low, high)`.
    pub(crate) fn byte(&mut self, low: u8, high: u8) -> (r: u8)
        requires
            low < high,
        ensures
            low <= r < high,
    {
        let drawn: u64 = gen_range(&mut self.rng, low as u64, high as u64);
        drawn as u8
    }

    /// Draws a 16-bit value of `[low, high)`.
    pub(crate) fn word(&mut self, low: u16, high: u16) -> (r: u16)
        requires
            low < high,
        ensures
            low <= r < high,
    {
        let drawn: u64 = gen_range(&mut self.rng, low as u64, high as u64);
        drawn as u16
    }

    /// Decides with chance `numerator / denominator`.
    pub(crate) fn chance(&mut self, numerator: u32, denominator: u32) -> (r: bool)
        requires
            0 < denominator,
            numerator <= denominator,
        ensures
            numerator == 0 ==> !r,
            numerator == denominator ==> r,
    {
        gen_ratio(&mut self.rng, numerator, denominator)
    }
}

} // verus!
