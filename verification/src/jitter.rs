//! The random delay before a single submission.
//!
//! Many clients that start at the same moment would otherwise submit at the
//! same moment. Each one waits a delay of its own first.

use vstd::prelude::*;
use rand::Rng;

verus! {

/// The delay before a submission stays below this many milliseconds.
pub const MAX_SUBMIT_JITTER_MILLIS: u64 = 5000;

/// `rand::Rng::gen_range` on the generator that `rand::thread_rng` gives the
/// calling thread, for the half-open range from `low` up to `high`.
///
/// Trusted, not proved: `gen_range` returns a member of the range it is
/// given. It panics on an empty range, so `low` must be below `high`. Which
/// member comes back is up to the generator, and nothing is claimed of it.
/// `thread_rng` gives up only where the operating system has no randomness
/// to seed it with, which no argument of this function brings about.
#[verifier::external_body]
fn random_in(low: u64, high: u64) -> (value: u64)
    requires
        low < high,
    ensures
        low <= value < high,
{
    rand::thread_rng().gen_range(low..high)
}

/// Draws the number of milliseconds to wait before a submission.
pub fn submit_jitter_millis() -> (millis: u64)
    ensures
        millis < MAX_SUBMIT_JITTER_MILLIS,
{
    random_in(0, MAX_SUBMIT_JITTER_MILLIS)
}

} // verus!
