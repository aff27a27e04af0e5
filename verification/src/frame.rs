//! Message framing: a one-byte tag, then a four-byte big-endian length that
//! counts itself and the payload but not the tag.

use crate::buffer::buffered;
use bytes::BytesMut;
use postgres_protocol::message::backend;
use vstd::prelude::*;

verus! {

/// The header of one backend message.
#[derive(Debug, Clone, Copy, PartialEq, Eq, Structural)]
pub struct Header {
    pub tag: u8,
    pub declared_length: u32,
}

/// The number of bytes that a header takes: the tag and the length.
pub const HEADER_SIZE: usize = 5;

/// The unsigned big-endian number that the first four bytes of `bytes` spell.
pub open spec fn be32(bytes: Seq<u8>) -> int
    recommends
        bytes.len() >= 4,
{
    bytes[0] as int * 0x100_0000 + bytes[1] as int * 0x1_0000 + bytes[2] as int * 0x100
        + bytes[3] as int
}

/// The four bytes that spell `n` as a big-endian number.
pub open spec fn be32_bytes(n: int) -> Seq<u8>
    recommends
        0 <= n < 0x1_0000_0000,
{
    seq![
        ((n / 0x100_0000) % 0x100) as u8,
        ((n / 0x1_0000) % 0x100) as u8,
        ((n / 0x100) % 0x100) as u8,
        (n % 0x100) as u8,
    ]
}

/// The length that the header at the front of `pending` declares.
pub open spec fn declared_length(pending: Seq<u8>) -> int
    recommends
        pending.len() >= 5,
{
    be32(pending.subrange(1, 5))
}

/// A header is present and declares a length that no message can have:
/// below four, or beyond `i32::MAX`.
pub open spec fn malformed(pending: Seq<u8>) -> bool {
    pending.len() >= 5 && !(4 <= declared_length(pending) <= 0x7fff_ffff)
}

/// `pending` starts with a complete message: a well-formed header and all
/// the bytes that it announces.
pub open spec fn frame_ready(pending: Seq<u8>) -> bool {
    &&& pending.len() >= 5
    &&& 4 <= declared_length(pending) <= 0x7fff_ffff
    &&& pending.len() >= frame_size(pending)
}

/// The size on the wire of the message at the front of `pending`: the
/// declared length and the tag byte.
pub open spec fn frame_size(pending: Seq<u8>) -> int {
    declared_length(pending) + 1
}

/// `frame` is exactly one complete message, with nothing behind it.
pub open spec fn is_frame(frame: Seq<u8>) -> bool {
    frame_ready(frame) && frame.len() == frame_size(frame)
}

/// Calls `postgres_protocol::message::backend::Header::parse` on what the
/// buffer holds. As that function's source shows: with fewer than five bytes
/// there is no header yet; a length that, read as a signed 32-bit number, is
/// below four is an error; otherwise the header carries the first byte as
/// its tag and the next four, big-endian, as its length.
#[verifier::external_body]
pub(crate) fn parse_header(pending: &BytesMut) -> (r: Result<Option<Header>, std::io::Error>)
    ensures
        match r {
            Ok(None) => buffered(*pending).len() < 5,
            Ok(Some(header)) => {
                &&& buffered(*pending).len() >= 5
                &&& 4 <= declared_length(buffered(*pending)) <= 0x7fff_ffff
                &&& header.tag == buffered(*pending)[0]
                &&& header.declared_length == declared_length(buffered(*pending))
            },
            Err(_) => malformed(buffered(*pending)),
        },
{
    Ok(backend::Header::parse(pending)?.map(|h| Header { tag: h.tag(), declared_length: h.len() as u32 }))
}

} // verus!
