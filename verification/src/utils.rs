use vstd::prelude::*;

verus! {

/// Relies on `std::time::SystemTime`: the seconds elapsed since the Unix
/// epoch, read from the wall clock. A clock set before the epoch reads
/// as zero rather than failing. Nothing can be promised of the value,
/// so nothing is; callers state what holds whatever time comes back.
#[verifier::external_body]
pub fn get_unix_time_in_secs() -> u64 {
    std::time::SystemTime::now()
        .duration_since(std::time::SystemTime::UNIX_EPOCH)
        .map(|d| d.as_secs())
        .unwrap_or(0)
}

/// Relies on `rand::random_range`: a sample from the given range, which
/// panics only when the range is empty. Only the bound is promised.
#[verifier::external_body]
pub(crate) fn pick_index(n: usize) -> (r: usize)
    requires
        n > 0,
    ensures
        r < n,
{
    rand::random_range(0..n)
}

} // verus!
