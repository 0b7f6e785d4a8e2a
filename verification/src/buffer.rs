//! The byte buffers of the `bytes` crate.

use bytes::{Bytes, BytesMut};
use vstd::prelude::*;

verus! {

/// A shared, immutable run of bytes.
#[verifier::external_type_specification]
#[verifier::external_body]
pub struct ExBytes(bytes::Bytes);

/// A growing buffer.
#[verifier::external_type_specification]
#[verifier::external_body]
pub struct ExBytesMut(bytes::BytesMut);

/// The bytes that `bytes` holds.
pub uninterp spec fn bytes_held(bytes: bytes::Bytes) -> Seq<u8>;

/// The bytes that `buffer` holds.
pub uninterp spec fn buffer_held(buffer: bytes::BytesMut) -> Seq<u8>;

/// Calls `Bytes::deref`, which gives all the bytes held.
#[verifier::external_body]
pub(crate) fn bytes_slice(bytes: &Bytes) -> (slice: &[u8])
    ensures
        slice@ == bytes_held(*bytes),
{
    bytes
}

/// Calls `Bytes::copy_from_slice`, which copies the slice.
#[verifier::external_body]
pub(crate) fn bytes_copied(slice: &[u8]) -> (bytes: Bytes)
    ensures
        bytes_held(bytes) == slice@,
{
    Bytes::copy_from_slice(slice)
}

/// Calls `BytesMut::with_capacity`, which gives an empty buffer. It panics
/// where the capacity is more than a machine can address, which the bound on
/// it leaves out.
#[verifier::external_body]
pub(crate) fn buffer_with_capacity(capacity: usize) -> (buffer: BytesMut)
    requires
        capacity <= isize::MAX,
    ensures
        buffer_held(buffer) == Seq::<u8>::empty(),
{
    BytesMut::with_capacity(capacity)
}

/// Calls `BytesMut::extend_from_slice`, which appends the slice. Where it has
/// to grow the buffer it may double it, and it panics where that is more than
/// a machine can address, which the bound on the length leaves out.
#[verifier::external_body]
pub(crate) fn buffer_extend(buffer: &mut BytesMut, slice: &[u8])
    requires
        buffer_held(*old(buffer)).len() + slice@.len() <= isize::MAX / 2,
    ensures
        buffer_held(*final(buffer)) == buffer_held(*old(buffer)) + slice@,
{
    buffer.extend_from_slice(slice)
}

/// Calls `BytesMut::deref`, which gives all the bytes held.
#[verifier::external_body]
pub(crate) fn buffer_slice(buffer: &BytesMut) -> (slice: &[u8])
    ensures
        slice@ == buffer_held(*buffer),
{
    buffer
}

/// Calls `BytesMut::clone`, which copies all the bytes held.
#[verifier::external_body]
pub(crate) fn buffer_clone(buffer: &BytesMut) -> (copy: BytesMut)
    ensures
        buffer_held(copy) == buffer_held(*buffer),
{
    buffer.clone()
}

/// Calls `BytesMut::freeze`, which keeps the bytes held.
#[verifier::external_body]
pub(crate) fn buffer_freeze(buffer: BytesMut) -> (bytes: Bytes)
    ensures
        bytes_held(bytes) == buffer_held(buffer),
{
    buffer.freeze()
}

} // verus!
