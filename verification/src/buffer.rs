//! The transmit buffer, a `heapless::String` of fixed capacity. The contracts
//! in this file are taken from the `heapless` crate's source and are not
//! proved here.

use vstd::prelude::*;

verus! {

/// Bytes the transmit buffer can hold.
pub const TX_CAPACITY: usize = 64;

#[verifier::external_type_specification]
#[verifier::external_body]
pub struct ExFixedString<const N: usize>(heapless::String<N>);

/// The bytes a transmit buffer holds.
pub uninterp spec fn buffer_bytes(buf: heapless::String<64>) -> Seq<u8>;

/// `heapless::String::clear`: the buffer holds no byte afterwards.
#[verifier::external_body]
pub(crate) fn buffer_clear(buf: &mut heapless::String<64>)
    ensures
        buffer_bytes(*final(buf)) == Seq::<u8>::empty(),
{
    buf.clear()
}

/// `len` on a `heapless::String`: the number of bytes the buffer holds, which
/// its fixed capacity bounds.
#[verifier::external_body]
pub(crate) fn buffer_len(buf: &heapless::String<64>) -> (n: usize)
    ensures
        n == buffer_bytes(*buf).len(),
        n <= TX_CAPACITY,
{
    buf.len()
}

} // verus!
