//! The client side of SCRAM-SHA-256, as `postgres_protocol` implements it.
//! An exchange draws a nonce at random when it is begun; everything after
//! that is decided by the exchange and the server's messages.

use postgres_protocol::authentication::sasl::ChannelBinding;
use postgres_protocol::authentication::sasl::ScramSha256;
use vstd::prelude::*;

verus! {

/// The channel binding of an exchange, carried as an opaque value.
#[verifier::external_type_specification]
#[verifier::external_body]
pub struct ExChannelBinding(ChannelBinding);

/// The state of one SCRAM exchange, carried as an opaque value.
#[verifier::external_type_specification]
#[verifier::external_body]
pub struct ExScramSha256(ScramSha256);

/// The GS2 header that a channel binding puts in front of the client's
/// first message.
pub uninterp spec fn binding_header(binding: ChannelBinding) -> Seq<u8>;

/// The exchange was begun with this password and has taken no message of
/// the server yet.
pub uninterp spec fn scram_begun_with(exchange: ScramSha256, password: Seq<u8>) -> bool;

/// The message that the exchange has to send; `None` once it has nothing
/// left to send.
pub uninterp spec fn scram_pending(exchange: ScramSha256) -> Option<Seq<u8>>;

/// The client's final message with which the exchange answers the
/// server's first message; `None` where it refuses that message.
pub uninterp spec fn scram_answer(exchange: ScramSha256, message: Seq<u8>) -> Option<Seq<u8>>;

/// The exchange finds the server verified by the server's final message.
pub uninterp spec fn scram_verifies(exchange: ScramSha256, message: Seq<u8>) -> bool;

/// The header of "no channel binding": `n,,`.
pub open spec fn no_binding_header() -> Seq<u8> {
    seq![0x6eu8, 0x2cu8, 0x2cu8]
}

/// What follows the header in every client-first message: `n=,r=`, and
/// behind it the nonce.
pub open spec fn bare_prefix() -> Seq<u8> {
    seq![0x6eu8, 0x3du8, 0x2cu8, 0x72u8, 0x3du8]
}

/// The length of the nonce that an exchange draws.
pub open spec fn nonce_length() -> nat {
    24
}

/// `ChannelBinding::unsupported`: the binding whose header is `n,,`.
pub assume_specification[ ChannelBinding::unsupported ]() -> (binding: ChannelBinding)
    ensures
        binding_header(binding) == no_binding_header(),
;

/// `ScramSha256::new`: an exchange begun with the password. It holds the
/// client's first message: the binding's header, `n=,r=`, and a nonce of
/// 24 bytes drawn at random.
pub assume_specification[ ScramSha256::new ](
    password: &[u8],
    channel_binding: ChannelBinding,
) -> (exchange: ScramSha256)
    ensures
        scram_begun_with(exchange, password@),
        scram_pending(exchange) is Some,
        scram_pending(exchange)->Some_0.len() == binding_header(channel_binding).len()
            + bare_prefix().len() + nonce_length(),
        scram_pending(exchange)->Some_0.take(
            (binding_header(channel_binding).len() + bare_prefix().len()) as int,
        ) == binding_header(channel_binding) + bare_prefix(),
;

/// Calls `ScramSha256::message`, which panics once the exchange has
/// nothing left to send; `requires` leaves that out.
#[verifier::external_body]
pub(crate) fn scram_message(exchange: &ScramSha256) -> (message: Vec<u8>)
    requires
        scram_pending(*exchange) is Some,
    ensures
        Some(message@) == scram_pending(*exchange),
{
    exchange.message().to_vec()
}

/// `ScramSha256::update`: takes in the server's first message. Where it
/// succeeds the exchange holds its answer, the client's final message;
/// whether it succeeds depends on the exchange and the message alone.
pub assume_specification[ ScramSha256::update ](exchange: &mut ScramSha256, message: &[u8]) -> (r: Result<(), std::io::Error>)
    ensures
        r is Ok ==> scram_answer(*old(exchange), message@) is Some && scram_pending(
            *final(exchange),
        ) == scram_answer(*old(exchange), message@),
        r is Err ==> scram_answer(*old(exchange), message@) is None,
;

/// `ScramSha256::finish`: checks the server's final message. Only a
/// success means that the server was verified; whether it succeeds
/// depends on the exchange and the message alone.
pub assume_specification[ ScramSha256::finish ](exchange: &mut ScramSha256, message: &[u8]) -> (r: Result<(), std::io::Error>)
    ensures
        r is Ok <==> scram_verifies(*old(exchange), message@),
;

} // verus!
