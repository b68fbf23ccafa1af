//! The source of random bytes.
use rand::Rng;
use vstd::prelude::*;

verus! {

/// A byte drawn from the thread-local generator of the `rand` crate, by
/// `rand::thread_rng().gen::<u8>()`. Nothing is claimed about which byte it
/// is: two calls may differ.
#[verifier::external_body]
pub(crate) fn random_byte() -> (byte: u8) {
    rand::thread_rng().gen::<u8>()
}

} // verus!
