//! The byte accumulator of a connection: `bytes::BytesMut`, with the
//! contracts under which the rest of the library uses it.

use bytes::BytesMut;
use vstd::prelude::*;

verus! {

/// `bytes::BytesMut`, carried as an opaque value.
#[verifier::external_type_specification]
#[verifier::external_body]
pub struct ExBytesMut(BytesMut);

/// The bytes that a buffer holds, first byte first.
pub uninterp spec fn buffered(buffer: BytesMut) -> Seq<u8>;

/// `BytesMut::new`: the new buffer holds no byte.
pub assume_specification[ BytesMut::new ]() -> (buffer: BytesMut)
    ensures
        buffered(buffer) == Seq::<u8>::empty(),
;

/// `BytesMut::len`: the number of bytes held.
pub assume_specification[ BytesMut::len ](buffer: &BytesMut) -> (n: usize)
    ensures
        n == buffered(*buffer).len(),
;

/// `BytesMut::extend_from_slice`: the bytes of `extend` are appended, in
/// order, behind those already held.
pub assume_specification[ BytesMut::extend_from_slice ](buffer: &mut BytesMut, extend: &[u8])
    ensures
        buffered(*final(buffer)) == buffered(*old(buffer)) + extend@,
;

/// `BytesMut::split_to`: the first `at` bytes leave the buffer and are
/// returned; the others stay, in order. The call panics where `at` exceeds
/// the length, which `requires` leaves out.
pub assume_specification[ BytesMut::split_to ](buffer: &mut BytesMut, at: usize) -> (head: BytesMut)
    requires
        at <= buffered(*old(buffer)).len(),
    ensures
        buffered(head) == buffered(*old(buffer)).take(at as int),
        buffered(*final(buffer)) == buffered(*old(buffer)).skip(at as int),
;

/// Copies what a buffer holds into a vector: `to_vec` on the slice that
/// `BytesMut` dereferences to, which is all the bytes it holds, in order.
#[verifier::external_body]
pub(crate) fn buffer_to_vec(buffer: &BytesMut) -> (bytes: Vec<u8>)
    ensures
        bytes@ == buffered(*buffer),
{
    buffer.to_vec()
}

} // verus!
