//! The process-wide random number generator, as far as the probes need it.
//!
//! Nothing here is proved: each function forwards to `rand` and states only
//! what holds of every value that can come back.

use rand::Rng;
use vstd::prelude::*;

verus! {

/// A fair coin: `rand::thread_rng().gen::<bool>()`.
///
/// Trusted; nothing is claimed of the result.
#[verifier::external_body]
pub(crate) fn random_bool() -> bool {
    rand::thread_rng().gen()
}

/// A uniformly drawn port number: `rand::thread_rng().gen::<u16>()`.
///
/// Trusted; nothing is claimed of the result.
#[verifier::external_body]
pub(crate) fn random_port() -> u16 {
    rand::thread_rng().gen()
}

/// A uniformly drawn number of the half-open range `low..high`:
/// `rand::thread_rng().gen_range(low..high)`.
///
/// Trusted: `gen_range` panics on an empty range, which the precondition
/// rules out, and otherwise returns a member of the range.
#[verifier::external_body]
pub(crate) fn random_in_range(low: usize, high: usize) -> (n: usize)
    requires
        low < high,
    ensures
        low <= n < high,
{
    rand::thread_rng().gen_range(low..high)
}

/// Overwrites every byte of the buffer with a random one:
/// `rand::thread_rng().fill(dest)`.
///
/// Trusted: the buffer keeps its length; nothing is claimed of the bytes.
#[verifier::external_body]
pub(crate) fn fill_random(dest: &mut [u8])
    ensures
        final(dest)@.len() == old(dest)@.len(),
{
    rand::thread_rng().fill(dest)
}

} // verus!
