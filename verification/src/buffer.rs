//! The byte buffer in which messages to and from a proxy server are put together and
//! taken apart.
//!
//! The buffer is `bytes::BytesMut`. Verus sees nothing inside it: its contents are the
//! sequence `bytes_of`, and the functions below say what each operation does to it.

use bytes::{Buf, BufMut, BytesMut};
use vstd::prelude::*;

verus! {

/// The most bytes that a buffer may come to hold.
pub const MAX_LEN: usize = 65535;

/// Declares `bytes::BytesMut`.
#[verifier::external_type_specification]
#[verifier::external_body]
pub struct ExBytesMut(BytesMut);

/// The bytes that a buffer holds and has not yet handed out, first to last.
pub uninterp spec fn bytes_of(buf: BytesMut) -> Seq<u8>;

/// The two bytes of `n`, the more significant one first.
pub open spec fn be_bytes(n: u16) -> Seq<u8> {
    seq![(n / 256) as u8, (n % 256) as u8]
}

/// The number that two bytes stand for, the more significant one first.
pub open spec fn from_be_bytes(bytes: Seq<u8>) -> int {
    bytes[0] * 256 + bytes[1]
}

/// Calls `BytesMut::with_capacity`: the new buffer is empty, whatever its capacity.
#[verifier::external_body]
pub(crate) fn with_capacity(capacity: usize) -> (buf: BytesMut)
    requires
        capacity <= MAX_LEN,
    ensures
        bytes_of(buf) == Seq::<u8>::empty(),
{
    BytesMut::with_capacity(capacity)
}

/// Calls `BufMut::put_u8`: the byte goes behind those already there.
#[verifier::external_body]
pub(crate) fn put_u8(buf: &mut BytesMut, n: u8)
    requires
        bytes_of(*old(buf)).len() + 1 <= MAX_LEN,
    ensures
        bytes_of(*final(buf)) == bytes_of(*old(buf)).push(n),
{
    buf.put_u8(n)
}

/// Calls `BufMut::put_u16`: the two bytes of the number go behind those already there,
/// the more significant one first.
#[verifier::external_body]
pub(crate) fn put_u16(buf: &mut BytesMut, n: u16)
    requires
        bytes_of(*old(buf)).len() + 2 <= MAX_LEN,
    ensures
        bytes_of(*final(buf)) == bytes_of(*old(buf)) + be_bytes(n),
{
    buf.put_u16(n)
}

/// Calls `BufMut::put_slice`: the slice goes behind the bytes already there.
#[verifier::external_body]
pub(crate) fn put_slice(buf: &mut BytesMut, src: &[u8])
    requires
        bytes_of(*old(buf)).len() + src@.len() <= MAX_LEN,
    ensures
        bytes_of(*final(buf)) == bytes_of(*old(buf)) + src@,
{
    buf.put_slice(src)
}

/// Calls `Buf::get_u8`: takes the first byte out.
#[verifier::external_body]
pub(crate) fn get_u8(buf: &mut BytesMut) -> (b: u8)
    requires
        bytes_of(*old(buf)).len() >= 1,
    ensures
        b == bytes_of(*old(buf))[0],
        bytes_of(*final(buf)) == bytes_of(*old(buf)).skip(1),
{
    buf.get_u8()
}

/// Calls `Buf::advance`: drops the first `cnt` bytes.
#[verifier::external_body]
pub(crate) fn advance(buf: &mut BytesMut, cnt: usize)
    requires
        cnt <= bytes_of(*old(buf)).len(),
    ensures
        bytes_of(*final(buf)) == bytes_of(*old(buf)).skip(cnt as int),
{
    buf.advance(cnt)
}

} // verus!
