//! The random draws that placement makes.

use rand::Rng;
use vstd::prelude::*;

verus! {

/// Draws a number between `low` and `high`, both included.
///
/// Trusted: calls `Rng::gen_range` of rand on the thread's generator with the
/// inclusive range from `low` to `high`. rand panics on an empty range, which
/// `requires` leaves out. The contract claims only that the value lies in the
/// range; which value comes is left open.
#[verifier::external_body]
pub(crate) fn roll_between(low: i32, high: i32) -> (r: i32)
    requires
        low <= high,
    ensures
        low <= r <= high,
{
    rand::thread_rng().gen_range(low..=high)
}

/// Draws one byte.
///
/// Trusted: calls `rand::random` of rand at type `u8`. Nothing is claimed of
/// the value.
#[verifier::external_body]
pub(crate) fn roll_byte() -> (r: u8) {
    rand::random::<u8>()
}

} // verus!
