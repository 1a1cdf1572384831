//! The source of random bytes.

use rand::Rng;
use vstd::prelude::*;

verus! {

/// `rand::rngs::ThreadRng`: the handle to a thread's generator, carried from
/// `rand::thread_rng` to the draw and never looked into.
#[verifier::external_type_specification]
#[verifier::external_body]
pub struct ExThreadRng(rand::rngs::ThreadRng);

/// `rand::thread_rng`: a handle to the calling thread's generator, which the
/// operating system seeds on the thread's first use of it; should the system
/// have no entropy to give, that first use panics. Nothing is claimed of the
/// handle.
pub assume_specification[ rand::thread_rng ]() -> (rng: rand::rngs::ThreadRng);

/// `Rng::gen_range` over `0..=255`: a number drawn from the whole byte range.
/// The range is not empty, so the call does not panic. Which byte comes back
/// is up to the generator: nothing is claimed of it.
#[verifier::external_body]
pub(crate) fn random_byte(rng: &mut rand::rngs::ThreadRng) -> (byte: u8) {
    rng.gen_range(0..=255) as u8
}

} // verus!
