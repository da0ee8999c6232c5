//! Calls into the `fugit` and `bounded-integer` crates. The contracts in this
//! file are taken from those crates' sources and are not proved here.

use vstd::prelude::*;

verus! {

/// `fugit::Duration::<u32, 1, 100>::millis`, read back with `ticks`: the
/// number of whole 10 ms ticks in `ms` milliseconds, rounded down.
#[verifier::external_body]
pub(crate) fn ticks_from_millis(ms: u32) -> (ticks: u32)
    ensures
        ticks == ms / 10,
{
    fugit::Duration::<u32, 1, 100>::millis(ms).ticks()
}

/// `fugit::Duration::<u32, 1, 100>::secs`, read back with `ticks`: a hundred
/// 10 ms ticks for every second. `fugit` multiplies in `u32`, so the product
/// has to fit.
#[verifier::external_body]
pub(crate) fn ticks_from_secs(secs: u32) -> (ticks: u32)
    requires
        secs * 100 <= u32::MAX,
    ensures
        ticks == secs * 100,
{
    fugit::Duration::<u32, 1, 100>::secs(secs).ticks()
}

/// `bounded_integer::BoundedU8::<1, 10>::new`, read back with `get`: the
/// number itself when it lies between 1 and 10, nothing otherwise.
#[verifier::external_body]
pub(crate) fn bounded_level(n: u8) -> (level: Option<u8>)
    ensures
        level == (if 1 <= n <= 10 { Some(n) } else { None }),
{
    match bounded_integer::BoundedU8::<1, 10>::new(n) {
        Some(bounded) => Some(bounded.get()),
        None => None,
    }
}

} // verus!
