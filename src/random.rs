use vstd::prelude::*;

verus! {

/// Relies on `rand::Rng::gen_range` on the thread-local generator: the value
/// drawn lies in `[lo, hi)`; the call panics only on an empty range.
#[verifier::external_body]
pub(crate) fn random_in(lo: isize, hi: isize) -> (r: isize)
    requires
        lo < hi,
    ensures
        lo <= r < hi,
{
    rand::Rng::gen_range(&mut rand::thread_rng(), lo..hi)
}

/// Relies on `rand::random`, which draws a value of `T` from the thread-local
/// generator; nothing is promised of the value drawn.
pub assume_specification<T>[ rand::random::<T> ]() -> (r: T)
    where
        rand::distributions::Standard: rand::distributions::Distribution<T>,
;

} // verus!
