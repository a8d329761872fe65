//! The source of random bytes.

use vstd::prelude::*;

verus! {

/// Draws one byte with `rand::random`, which takes it from the generator
/// of the current thread. Nothing is claimed of the value: two calls may
/// differ, and every byte can come out. The generator is seeded from the
/// operating system at its first use in a thread, and `rand` panics there
/// if the operating system gives no seed.
#[verifier::external_body]
pub(crate) fn random_byte() -> (byte: u8) {
    rand::random()
}

} // verus!
