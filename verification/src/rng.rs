//! The library's one source of randomness.

use rand::Rng;
use vstd::prelude::*;

verus! {

/// Relies on rand::Rng::gen_range on rand::thread_rng: over the non-empty
/// inclusive range `lo..=hi` it returns a uniform value within the range,
/// and panics only when the range is empty.
#[verifier::external_body]
pub(crate) fn random_in_range(lo: u32, hi: u32) -> (r: u32)
    requires
        lo <= hi,
    ensures
        lo <= r <= hi,
{
    rand::thread_rng().gen_range(lo..=hi)
}

} // verus!
