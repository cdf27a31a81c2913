use vstd::prelude::*;

verus! {

/// Relies on `rand::Rng::gen_range` with `rand::thread_rng()` over the half-open
/// range `lo..hi` of `i64`: the value drawn lies in that range. `gen_range`
/// panics on an empty range, which `requires` leaves out.
#[verifier::external_body]
pub(crate) fn random_in(lo: i64, hi: i64) -> (r: i64)
    requires
        lo < hi,
    ensures
        lo <= r < hi,
{
    rand::Rng::gen_range(&mut rand::thread_rng(), lo..hi)
}

} // verus!
