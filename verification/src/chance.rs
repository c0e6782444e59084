//! Randomness drawn from an outside crate. Nothing here is proved: the
//! contract claims only what holds of every value the call can return.

use vstd::prelude::*;

verus! {

/// Calls `rand::random_range(low..high)`, which draws from the thread-local
/// generator a value uniform over `low..high`. The contract claims only that
/// the value lies in that range; the call panics on an empty range, which
/// `requires` rules out.
#[verifier::external_body]
pub(crate) fn random_u32_in(low: u32, high: u32) -> (r: u32)
    requires
        low < high,
    ensures
        low <= r < high,
{
    rand::random_range(low..high)
}

} // verus!
