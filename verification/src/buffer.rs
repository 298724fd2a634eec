//! The byte buffers of the transport: `bytes::BytesMut`, and big-endian integers
//! read with `byteorder`.
//!
//! How much memory a buffer has allocated is not part of what is stated of it, and
//! that memory may run out is left aside.
use bytes::BytesMut;
use byteorder::{BigEndian, ByteOrder};
use vstd::prelude::*;

verus! {

/// The growable byte buffer of the `bytes` crate.
#[verifier::external_type_specification]
#[verifier::external_body]
pub struct ExBytesMut(BytesMut);

/// The bytes that a buffer holds, first to last.
pub uninterp spec fn contents(buf: BytesMut) -> Seq<u8>;

/// The number that two bytes stand for, the more significant one first.
pub open spec fn big_endian(high: u8, low: u8) -> nat {
    (high as nat) * 256 + low as nat
}

/// The two bytes of `n`, the more significant one first.
pub open spec fn big_endian_bytes(n: u16) -> Seq<u8> {
    seq![(n / 256) as u8, (n % 256) as u8]
}

/// `BytesMut::len`: the number of bytes held.
#[verifier::external_body]
pub(crate) fn buffer_len(buf: &BytesMut) -> (len: usize)
    ensures
        len == contents(*buf).len(),
{
    buf.len()
}

/// `BytesMut::as_ref`: the bytes held, as a slice.
#[verifier::external_body]
pub(crate) fn buffer_bytes(buf: &BytesMut) -> (bytes: &[u8])
    ensures
        bytes@ == contents(*buf),
{
    buf.as_ref()
}

/// `BytesMut::split_to`: takes the first `at` bytes out of the buffer and hands
/// them back in a buffer of their own. It panics past the end of the buffer.
#[verifier::external_body]
pub(crate) fn buffer_split_to(buf: &mut BytesMut, at: usize) -> (front: BytesMut)
    requires
        at <= contents(*old(buf)).len(),
    ensures
        contents(front) == contents(*old(buf)).take(at as int),
        contents(*final(buf)) == contents(*old(buf)).skip(at as int),
{
    buf.split_to(at)
}

/// `BytesMut::reserve`: makes room for `additional` more bytes and keeps the bytes
/// held. It panics where the new size is more than an allocation can have.
#[verifier::external_body]
pub(crate) fn buffer_reserve(buf: &mut BytesMut, additional: usize)
    requires
        contents(*old(buf)).len() + additional <= isize::MAX,
    ensures
        contents(*final(buf)) == contents(*old(buf)),
{
    buf.reserve(additional)
}

/// `BytesMut::extend_from_slice`: makes room for the bytes of `extend` and appends
/// them. It panics where the new size is more than an allocation can have.
#[verifier::external_body]
pub(crate) fn buffer_extend(buf: &mut BytesMut, extend: &[u8])
    requires
        contents(*old(buf)).len() + extend@.len() <= isize::MAX,
    ensures
        contents(*final(buf)) == contents(*old(buf)) + extend@,
{
    buf.extend_from_slice(extend)
}

/// `BigEndian::write_u16`: the two bytes of `n`, the more significant one first.
#[verifier::external_body]
pub(crate) fn write_u16(n: u16) -> (bytes: [u8; 2])
    ensures
        bytes@ == big_endian_bytes(n),
{
    let mut bytes = [0; 2];
    BigEndian::write_u16(&mut bytes, n);
    bytes
}

/// `BigEndian::read_u16`: the number that the first two bytes of `buf` stand for,
/// the more significant one first. It panics on fewer than two bytes.
#[verifier::external_body]
pub(crate) fn read_u16(buf: &[u8]) -> (n: u16)
    requires
        buf@.len() >= 2,
    ensures
        n == big_endian(buf@[0], buf@[1]),
{
    BigEndian::read_u16(buf)
}

/// The number of bytes that a buffer holds.
pub fn held(buf: &BytesMut) -> (len: usize)
    ensures
        len == contents(*buf).len(),
{
    buffer_len(buf)
}

} // verus!
