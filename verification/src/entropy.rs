//! Randomness drawn from the thread-local generator.

use rand::RngCore;
use vstd::prelude::*;

verus! {

/// Calls `rand::thread_rng().next_u64()`.
///
/// Nothing is promised about the value: every `u64` is a possible outcome.
/// The generator is seeded from the operating system when a thread first
/// uses it, and panics there if the system has no entropy to give.
#[verifier::external_body]
pub(crate) fn random_u64() -> (value: u64) {
    rand::thread_rng().next_u64()
}

/// Calls `rand::thread_rng().next_u32()`.
///
/// Nothing is promised about the value: every `u32` is a possible outcome.
/// The generator is seeded from the operating system when a thread first
/// uses it, and panics there if the system has no entropy to give.
#[verifier::external_body]
pub(crate) fn random_u32() -> (value: u32) {
    rand::thread_rng().next_u32()
}

} // verus!
