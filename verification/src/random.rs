use vstd::prelude::*;
use rand::Rng;

verus! {

/// Draws one byte from `rand::thread_rng()` with `Rng::gen_range(0..=255)`.
/// The value depends on the generator's state, so the contract promises
/// nothing of it beyond its type. The generator seeds itself from the
/// operating system on a thread's first call and aborts the program if
/// that source is not available.
#[verifier::external_body]
pub(crate) fn random_byte() -> u8 {
    rand::thread_rng().gen_range(0..=255)
}

} // verus!
