//! Random bytes, from the `rand` crate.

use rand::rngs::ThreadRng;
use rand::Rng;
use vstd::prelude::*;

verus! {

/// `rand::rngs::ThreadRng`, the handle to a thread's random number generator.
#[verifier::external_type_specification]
#[verifier::external_body]
pub struct ExThreadRng(ThreadRng);

/// `rand::thread_rng`: hands out the generator of the calling thread. Nothing
/// is claimed of it. It panics if the system cannot seed the generator.
pub assume_specification[ rand::thread_rng ]() -> (rng: ThreadRng)
;

/// `Rng::gen` for a byte: draws the next random byte. Nothing is claimed of
/// the byte drawn.
#[verifier::external_body]
pub(crate) fn next_byte(rng: &mut ThreadRng) -> (byte: u8) {
    rng.gen()
}

} // verus!
