//! The growable byte buffer of the `bytes` crate that frames are encoded into.
use vstd::prelude::*;
use bytes::{BufMut, BytesMut};

verus! {

#[verifier::external_type_specification]
#[verifier::external_body]
pub struct ExBytesMut(BytesMut);

/// The bytes that a buffer holds, in order.
pub uninterp spec fn buf_bytes(b: BytesMut) -> Seq<u8>;

/// The big-endian bytes of a 16-bit integer.
pub open spec fn be16(n: u16) -> Seq<u8> {
    seq![(n >> 8u16) as u8, (n & 0xff) as u8]
}

/// The big-endian bytes of a 32-bit integer.
pub open spec fn be32(n: u32) -> Seq<u8> {
    seq![(n >> 24u32) as u8, ((n >> 16u32) & 0xff) as u8, ((n >> 8u32) & 0xff) as u8, (n & 0xff) as u8]
}

/// Relies on `BufMut::put_u8` for `BytesMut`: appends the byte; it panics only
/// when the length would overflow `usize`.
#[verifier::external_body]
pub(crate) fn put_u8(dst: &mut BytesMut, n: u8)
    requires
        buf_bytes(*old(dst)).len() + 1 <= usize::MAX,
    ensures
        buf_bytes(*final(dst)) == buf_bytes(*old(dst)).push(n),
{
    dst.put_u8(n)
}

/// Relies on `BufMut::put_u16` for `BytesMut`: appends the two bytes of `n` in
/// big-endian order.
#[verifier::external_body]
pub(crate) fn put_u16(dst: &mut BytesMut, n: u16)
    requires
        buf_bytes(*old(dst)).len() + 2 <= usize::MAX,
    ensures
        buf_bytes(*final(dst)) == buf_bytes(*old(dst)) + be16(n),
{
    dst.put_u16(n)
}

/// Relies on `BufMut::put_u32` for `BytesMut`: appends the four bytes of `n` in
/// big-endian order.
#[verifier::external_body]
pub(crate) fn put_u32(dst: &mut BytesMut, n: u32)
    requires
        buf_bytes(*old(dst)).len() + 4 <= usize::MAX,
    ensures
        buf_bytes(*final(dst)) == buf_bytes(*old(dst)) + be32(n),
{
    dst.put_u32(n)
}

} // verus!
