//! Random cell placement, through the `rand` crate.

use vstd::prelude::*;
use rand::Rng;

verus! {

/// Relies on rand's `Rng::gen_range` on a `thread_rng`: a uniform draw from
/// the half-open range `0..n`, which lies in that range and panics only when
/// the range is empty. Nothing more is claimed of which value comes back.
#[verifier::external_body]
pub(crate) fn random_below(n: i32) -> (r: i32)
    requires
        n > 0,
    ensures
        0 <= r < n,
{
    rand::thread_rng().gen_range(0..n)
}

} // verus!
