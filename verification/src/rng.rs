//! A coin source backed by the `rand` crate's thread-local generator.

use vstd::prelude::*;

use crate::line::CoinSource;
use rand::Rng;

verus! {

/// Declaration of `rand::rngs::ThreadRng`, the handle to the thread-local
/// random generator; its values are opaque here.
#[verifier::external_type_specification]
#[verifier::external_body]
pub struct ExThreadRng(rand::rngs::ThreadRng);

/// Relies on `rand::rng`: returns a handle to the thread-local generator.
/// Nothing is assumed of the values it will produce.
#[verifier::external_body]
fn fresh_thread_rng() -> rand::rngs::ThreadRng {
    rand::rng()
}

/// Relies on `rand::Rng::random::<bool>`: one fair random draw. A random
/// result admits no promise, so nothing is assumed of it.
#[verifier::external_body]
fn thread_rng_flip(rng: &mut rand::rngs::ThreadRng) -> bool {
    rng.random()
}

/// A `CoinSource` that flips coins with the `rand` crate's thread-local
/// generator.
pub struct ThreadCoin {
    rng: rand::rngs::ThreadRng,
}

impl ThreadCoin {
    /// Open a handle to the thread-local random generator.
    pub fn new() -> ThreadCoin {
        ThreadCoin { rng: fresh_thread_rng() }
    }
}

impl CoinSource for ThreadCoin {
    fn flip(&mut self) -> bool {
        thread_rng_flip(&mut self.rng)
    }
}

} // verus!
