//! The one nondeterministic input of the machine: a random byte for the
//! masked-random operation.

use vstd::prelude::*;

verus! {

/// Relies on rand::random: one draw from the thread-local generator. Any
/// byte may come back, so nothing is promised of the result.
#[verifier::external_body]
pub(crate) fn random_byte() -> u8 {
    rand::random()
}

} // verus!
