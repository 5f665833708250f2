//! The source of random numbers that the content generators draw from.

use vstd::prelude::*;

verus! {

/// A source of random 32-bit numbers. Nothing is promised of the numbers:
/// what is proved of the code that draws from it holds for every outcome.
pub trait RngU32 {
    fn next_u32(&mut self) -> u32;
}

/// `rand::rng()` and `rand::RngCore::next_u32` on it: the next number of
/// the random number generator of the current thread. Nothing is claimed of
/// the number. The generator is seeded from the operating system when a
/// thread first uses it, and again from time to time as numbers are drawn;
/// it fails only where the system has no entropy to give, at the first use
/// or at such a reseed.
#[verifier::external_body]
fn thread_rng_next_u32() -> u32 {
    rand::RngCore::next_u32(&mut rand::rng())
}

/// The random number generator of the current thread.
pub struct RandU32Rng;

impl RngU32 for RandU32Rng {
    fn next_u32(&mut self) -> u32 {
        thread_rng_next_u32()
    }
}

} // verus!
