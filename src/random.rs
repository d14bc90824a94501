//! Random draws. Nothing is known of a draw beyond its range: the logic that
//! uses one takes it as an argument.
use vstd::prelude::*;

verus! {

/// Relies on `rand::random::<u8>`: any byte.
#[verifier::external_body]
pub(crate) fn random_byte() -> (r: u8) {
    rand::random::<u8>()
}

/// Relies on `rand::Rng::gen_range` over `0..n` (which panics on an empty
/// range): some index below `n`.
#[verifier::external_body]
pub(crate) fn random_below(n: usize) -> (r: usize)
    requires
        n > 0,
    ensures
        r < n,
{
    rand::Rng::gen_range(&mut rand::thread_rng(), 0..n)
}

/// Relies on `rand::Rng::gen_range` over `lo..=hi` (which panics on an
/// empty range): some value from `lo` to `hi`.
#[verifier::external_body]
pub(crate) fn random_between(lo: u32, hi: u32) -> (r: u32)
    requires
        lo <= hi,
    ensures
        lo <= r <= hi,
{
    rand::Rng::gen_range(&mut rand::thread_rng(), lo..=hi)
}

/// Relies on `rand::seq::SliceRandom::choose`: `None` on an empty slice,
/// else one of its elements.
#[verifier::external_body]
pub(crate) fn choose_line(data: &Vec<String>) -> (r: Option<&String>)
    ensures
        r is None <==> data@.len() == 0,
        r matches Some(x) ==> data@.contains(*x),
{
    rand::seq::SliceRandom::choose(data.as_slice(), &mut rand::thread_rng())
}

} // verus!
