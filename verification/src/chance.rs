//! Random numbers.

use rand::rngs::ThreadRng;
use rand::Rng;
use vstd::prelude::*;

verus! {

/// The generator of the `rand` crate that each thread has for itself.
#[verifier::external_type_specification]
#[verifier::external_body]
pub struct ExThreadRng(ThreadRng);

/// `rand::thread_rng` hands out the calling thread's generator, which the
/// system seeds on the thread's first call. Nothing is claimed of it. That
/// first call panics where the system has no seed to give or refuses the
/// handler that the generator registers for forks.
pub assume_specification[ rand::thread_rng ]() -> ThreadRng;

/// Draws one `u32` with `Rng::gen`. Every `u32` may come back, and two
/// calls may differ, so nothing is claimed of the number. The generator
/// takes a new seed from the system now and then, and the call panics
/// where the system fails to give it.
#[verifier::external_body]
fn gen_u32(rng: &mut ThreadRng) -> u32 {
    rng.gen::<u32>()
}

/// A number drawn by chance from the thread's generator. It panics only
/// where the system fails to seed the generator.
pub fn random() -> u32 {
    let mut rng = rand::thread_rng();
    gen_u32(&mut rng)
}

} // verus!
