//! The frontend messages of the handshake: the startup message and the two
//! SASL messages, as `postgres_protocol` writes them.

use crate::buffer::buffered;
use crate::frame::be32_bytes;
use bytes::BytesMut;
use vstd::prelude::*;
use vstd::utf8::encode_utf8;

verus! {

/// Protocol version 3.0, as the startup message carries it.
pub open spec fn protocol_version() -> Seq<u8> {
    seq![0u8, 3u8, 0u8, 0u8]
}

/// The tag of a SASL message of the frontend.
pub open spec fn sasl_tag() -> Seq<u8> {
    seq![0x70u8]
}

/// The key/value pairs of a parameter list as byte strings.
pub open spec fn params_bytes(params: Seq<(String, String)>) -> Seq<(Seq<u8>, Seq<u8>)> {
    Seq::new(params.len(), |i: int| (encode_utf8(params[i].0@), encode_utf8(params[i].1@)))
}

/// A byte string followed by its terminating zero.
pub open spec fn cstring(text: Seq<u8>) -> Seq<u8> {
    text.push(0u8)
}

/// The pairs on the wire: each key and each value as a terminated string,
/// in order.
pub open spec fn pairs_bytes(pairs: Seq<(Seq<u8>, Seq<u8>)>) -> Seq<u8>
    decreases pairs.len(),
{
    if pairs.len() == 0 {
        Seq::empty()
    } else {
        cstring(pairs[0].0) + cstring(pairs[0].1) + pairs_bytes(pairs.skip(1))
    }
}

/// The startup message for `pairs`: its own length, the protocol version,
/// the pairs, and a closing zero. There is no tag byte.
pub open spec fn startup_bytes(pairs: Seq<(Seq<u8>, Seq<u8>)>) -> Seq<u8> {
    be32_bytes(9 + pairs_bytes(pairs).len() as int) + protocol_version() + pairs_bytes(pairs) + seq![0u8]
}

/// No byte of `text` is zero.
pub open spec fn zero_free(text: Seq<u8>) -> bool {
    forall|i: int| 0 <= i < text.len() ==> text[i] != 0
}

/// The pairs can be put on the wire: no key or value holds a zero byte and
/// the message's length fits the signed 32 bits of its length field.
pub open spec fn encodable(pairs: Seq<(Seq<u8>, Seq<u8>)>) -> bool {
    &&& forall|i: int| 0 <= i < pairs.len() ==> zero_free(#[trigger] pairs[i].0)
    &&& forall|i: int| 0 <= i < pairs.len() ==> zero_free(#[trigger] pairs[i].1)
    &&& 9 + pairs_bytes(pairs).len() <= 0x7fff_ffff
}

/// The SASL initial response: the tag, the length, the mechanism's name as
/// a terminated string, the length of the client's first message, and the
/// message.
pub open spec fn initial_response_bytes(mechanism: Seq<u8>, data: Seq<u8>) -> Seq<u8> {
    sasl_tag() + be32_bytes(9 + mechanism.len() as int + data.len() as int) + cstring(mechanism) + be32_bytes(
        data.len() as int,
    ) + data
}

/// The SASL response: the tag, the length, and the client's message.
pub open spec fn response_bytes(data: Seq<u8>) -> Seq<u8> {
    sasl_tag() + be32_bytes(4 + data.len() as int) + data
}

/// Calls `postgres_protocol::message::frontend::startup_message` with the
/// pairs in order. As its source shows, it fails where a key or a value
/// holds a zero byte or where the length exceeds `i32::MAX`; otherwise it
/// appends the length, the version 3.0, each key and value with its
/// terminating zero, and a closing zero.
#[verifier::external_body]
pub(crate) fn write_startup(params: &Vec<(String, String)>, buffer: &mut BytesMut) -> (r: Result<
    (),
    std::io::Error,
>)
    ensures
        r is Ok <==> encodable(params_bytes(params@)),
        r is Ok ==> buffered(*final(buffer)) == buffered(*old(buffer)) + startup_bytes(
            params_bytes(params@),
        ),
{
    postgres_protocol::message::frontend::startup_message(params.iter().map(|p| (p.0.as_str(), p.1.as_str())), buffer)
}

/// `postgres_protocol::message::frontend::sasl_initial_response`: it fails
/// where the mechanism's name holds a zero byte or a length exceeds
/// `i32::MAX`, and otherwise appends the message.
pub assume_specification[ postgres_protocol::message::frontend::sasl_initial_response ](
    mechanism: &str,
    data: &[u8],
    buf: &mut BytesMut,
) -> (r: Result<(), std::io::Error>)
    ensures
        r is Ok <==> (zero_free(encode_utf8(mechanism@)) && 9 + encode_utf8(mechanism@).len()
            + data@.len() <= 0x7fff_ffff),
        r is Ok ==> buffered(*final(buf)) == buffered(*old(buf)) + initial_response_bytes(
            encode_utf8(mechanism@),
            data@,
        ),
;

/// `postgres_protocol::message::frontend::sasl_response`: it fails where
/// the length exceeds `i32::MAX`, and otherwise appends the message.
pub assume_specification[ postgres_protocol::message::frontend::sasl_response ](data: &[u8], buf: &mut BytesMut) -> (r: Result<(), std::io::Error>)
    ensures
        r is Ok <==> 4 + data@.len() <= 0x7fff_ffff,
        r is Ok ==> buffered(*final(buf)) == buffered(*old(buf)) + response_bytes(data@),
;

} // verus!
