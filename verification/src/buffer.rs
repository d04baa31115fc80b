//! The growable byte buffer that outgoing frames are assembled in.
//!
//! The buffer is `bytes::BytesMut`. Verus cannot look inside it, so this
//! module names its contents and states, without proof, what each operation
//! the codec uses does to them.

use vstd::prelude::*;
use bytes::{BufMut, BytesMut};
use crate::endian::{be16, be64};

verus! {

/// Makes `bytes::BytesMut` known as an opaque type.
#[verifier::external_type_specification]
#[verifier::external_body]
pub struct ExBytesMut(BytesMut);

/// The bytes a buffer holds, first written first.
pub uninterp spec fn buffer_bytes(buf: BytesMut) -> Seq<u8>;

/// `BytesMut::new`: a buffer that holds no bytes.
#[verifier::external_body]
pub(crate) fn buffer_new() -> (buf: BytesMut)
    ensures
        buffer_bytes(buf) == Seq::<u8>::empty(),
{
    BytesMut::new()
}

/// `BytesMut::from` on a byte slice: a buffer that holds a copy of the slice.
#[verifier::external_body]
pub(crate) fn buffer_from(src: &[u8]) -> (buf: BytesMut)
    ensures
        buffer_bytes(buf) == src@,
{
    BytesMut::from(src)
}

/// Assignment through the `DerefMut` of a `BytesMut`: the byte at `at` is
/// replaced. An index past the end panics and is excluded.
#[verifier::external_body]
pub(crate) fn buffer_set(buf: &mut BytesMut, at: usize, n: u8)
    requires
        at < buffer_bytes(*old(buf)).len(),
    ensures
        buffer_bytes(*final(buf)) == buffer_bytes(*old(buf)).update(at as int, n),
{
    buf[at] = n;
}

/// `BufMut::put_u8` on a `BytesMut`: appends the byte. The buffer grows as
/// needed; growing past `isize::MAX` bytes panics and is excluded.
#[verifier::external_body]
pub(crate) fn buffer_put_u8(buf: &mut BytesMut, n: u8)
    requires
        buffer_bytes(*old(buf)).len() + 1 <= isize::MAX,
    ensures
        buffer_bytes(*final(buf)) == buffer_bytes(*old(buf)).push(n),
{
    buf.put_u8(n)
}

/// `BufMut::put_u16` on a `BytesMut`: appends the value's two bytes, most
/// significant first.
#[verifier::external_body]
pub(crate) fn buffer_put_u16(buf: &mut BytesMut, n: u16)
    requires
        buffer_bytes(*old(buf)).len() + 2 <= isize::MAX,
    ensures
        buffer_bytes(*final(buf)) == buffer_bytes(*old(buf)) + be16(n),
{
    buf.put_u16(n)
}

/// `BufMut::put_u64` on a `BytesMut`: appends the value's eight bytes, most
/// significant first.
#[verifier::external_body]
pub(crate) fn buffer_put_u64(buf: &mut BytesMut, n: u64)
    requires
        buffer_bytes(*old(buf)).len() + 8 <= isize::MAX,
    ensures
        buffer_bytes(*final(buf)) == buffer_bytes(*old(buf)) + be64(n),
{
    buf.put_u64(n)
}

/// `BufMut::put` on a `BytesMut`, given a byte slice: appends the slice.
#[verifier::external_body]
pub(crate) fn buffer_put(buf: &mut BytesMut, src: &[u8])
    requires
        buffer_bytes(*old(buf)).len() + src@.len() <= isize::MAX,
    ensures
        buffer_bytes(*final(buf)) == buffer_bytes(*old(buf)) + src@,
{
    buf.put(src)
}

/// The `Deref` of a `BytesMut`: its bytes as a slice.
#[verifier::external_body]
pub(crate) fn buffer_slice(buf: &BytesMut) -> (s: &[u8])
    ensures
        s@ == buffer_bytes(*buf),
{
    &buf[..]
}

} // verus!
