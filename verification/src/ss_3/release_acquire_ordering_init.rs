//! The random value behind a lazily initialised, non-blocking pointer.
use crate::ss_2::init_lazy::thread_rng;
use vstd::prelude::*;

verus! {

/// Calls `rand::Rng::gen::<i32>`, a uniformly random `i32`. Every `i32` can
/// come back, so nothing is stated of the result.
#[verifier::external_body]
fn gen_random_i32(rng: &mut rand::rngs::ThreadRng) -> i32 {
    rand::Rng::gen::<i32>(rng)
}

/// A random `i32` from the thread-local generator, the value that the lazy
/// initialisation publishes.
pub fn gen_i32() -> i32 {
    let mut rng = thread_rng();
    gen_random_i32(&mut rng)
}

} // verus!
