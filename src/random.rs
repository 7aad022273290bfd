use rand::Rng;
use vstd::prelude::*;

verus! {

/// Relies on rand's `thread_rng().gen_range(0..n)`: a value drawn from
/// `[0, n)`; the call panics on an empty range, which `requires` excludes.
#[verifier::external_body]
pub(crate) fn random_below(n: i32) -> (r: i32)
    requires
        n > 0,
    ensures
        0 <= r < n,
{
    rand::thread_rng().gen_range(0..n)
}

} // verus!
