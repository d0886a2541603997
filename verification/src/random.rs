//! The source of random bytes.

use vstd::prelude::*;

verus! {

/// Draws a byte from `rand::random`, which samples the thread-local
/// generator uniformly over all 256 values. It takes no input, and nothing
/// is claimed of the byte: two draws may differ, and every value can come
/// back.
#[verifier::external_body]
pub(crate) fn random_byte() -> (b: u8) {
    rand::random::<u8>()
}

} // verus!
