//! The random source of level generation.
//!
//! Nothing in this file is proved: it tells the verifier which items of the
//! `rand` crate the library calls. No promise is made about any number drawn,
//! so level generation is verified for every outcome of every draw. What no
//! contract can leave out is the failure of the operating system to hand out
//! a seed, at which `rand` ends the program.

use rand::rngs::ThreadRng;
use rand::Rng;
use vstd::prelude::*;

verus! {

/// `rand::rngs::ThreadRng`, the handle to the calling thread's generator. The
/// library passes it on to the draws below and never looks inside.
#[verifier::external_type_specification]
#[verifier::external_body]
pub struct ExThreadRng(ThreadRng);

/// `rand::thread_rng` hands out the calling thread's generator, which the
/// operating system has seeded; where the operating system gives no seed,
/// the call ends the program. Nothing is claimed of the generator.
pub assume_specification[ rand::thread_rng ]() -> (rng: ThreadRng);

/// `Rng::gen::<u32>` draws 32 uniformly distributed bits. The library reads
/// them as the numerator of a fraction over 2^32, so as a number that is at
/// least 0 and less than 1. Nothing is claimed of the bits. The generator
/// takes a fresh seed from the operating system now and then; a draw at
/// which the operating system refuses the seed ends the program.
#[verifier::external_body]
pub(crate) fn next_fraction(rng: &mut ThreadRng) -> (draw: u32) {
    rng.gen::<u32>()
}

/// `Rng::gen::<bool>` tosses a fair coin. Nothing is claimed of the side that
/// comes up. As with every draw, a toss at which the operating system
/// refuses the generator a fresh seed ends the program.
#[verifier::external_body]
pub(crate) fn next_coin(rng: &mut ThreadRng) -> (coin: bool) {
    rng.gen::<bool>()
}

} // verus!
