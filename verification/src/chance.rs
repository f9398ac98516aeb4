//! The one place where the library asks for a random number.

use rand::Rng;
use vstd::prelude::*;

verus! {

/// Draws one value between `low` and `high`, both included.
///
/// Trusted: the body calls `rand::Rng::gen_range` on `rand::thread_rng()`
/// with `low..=high`, and the contract claims only that the value drawn lies
/// in that range. `gen_range` panics on an empty range, which `requires`
/// leaves out. Two calls with the same bounds may differ. The generator of
/// a thread is seeded by the system at its first use, and panics where the
/// system has no seed to give.
#[verifier::external_body]
pub(crate) fn uniform_inclusive(low: u64, high: u64) -> (drawn: u64)
    requires
        low <= high,
    ensures
        low <= drawn <= high,
{
    rand::thread_rng().gen_range(low..=high)
}

} // verus!
