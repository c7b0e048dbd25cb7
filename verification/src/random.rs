//! The source of random bytes.

use vstd::prelude::*;

verus! {

/// A byte from `rand::random`, which asks the thread's generator for a
/// uniformly distributed value. Nothing is claimed of the byte: it may be
/// any of the 256 and differs from call to call. The call takes no argument
/// and fails only where the operating system cannot seed the generator.
#[verifier::external_body]
pub(crate) fn random() -> (byte: u8) {
    rand::random()
}

} // verus!
