//! The receive buffer of a connection, a `bytes::BytesMut`, and the calls
//! that the connection makes on it.

use vstd::prelude::*;
use bytes::Buf;
use bytes::BytesMut;

verus! {

#[verifier::external_type_specification]
#[verifier::external_body]
pub struct ExBytesMut(BytesMut);

/// The bytes that a buffer holds, in order.
pub uninterp spec fn buffered(b: BytesMut) -> Seq<u8>;

/// Relies on `BytesMut::with_capacity`: the new buffer holds no bytes.
#[verifier::external_body]
pub(crate) fn new_buffer(capacity: usize) -> (r: BytesMut)
    ensures
        buffered(r) == Seq::<u8>::empty(),
{
    BytesMut::with_capacity(capacity)
}

/// Relies on `BytesMut::extend_from_slice`: the bytes are appended after
/// those held. It grows the buffer first, and panics where the new length
/// would pass `isize::MAX`.
#[verifier::external_body]
pub(crate) fn buffer_extend(b: &mut BytesMut, bytes: &[u8])
    requires
        buffered(*old(b)).len() + bytes@.len() <= isize::MAX,
    ensures
        buffered(*final(b)) == buffered(*old(b)) + bytes@,
{
    b.extend_from_slice(bytes)
}

/// Relies on `<BytesMut as Buf>::advance`: the first `n` bytes are dropped.
/// It panics where `n` passes the length.
#[verifier::external_body]
pub(crate) fn buffer_advance(b: &mut BytesMut, n: usize)
    requires
        n <= buffered(*old(b)).len(),
    ensures
        buffered(*final(b)) == buffered(*old(b)).subrange(n as int, buffered(*old(b)).len() as int),
{
    b.advance(n)
}

/// Relies on `<BytesMut as Deref>::deref`: the slice of the bytes held.
#[verifier::external_body]
pub(crate) fn buffer_bytes(b: &BytesMut) -> (r: &[u8])
    ensures
        r@ == buffered(*b),
{
    &b[..]
}

} // verus!
