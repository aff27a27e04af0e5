//! The error taxonomy of the tunnel. Every error is terminal for the unit
//! of work in which it occurs; nothing is retried.

use vstd::prelude::*;

verus! {

/// `std::io::Error`, carried as an opaque value until it is mapped to one
/// of the errors below.
#[verifier::external_type_specification]
#[verifier::external_body]
pub struct ExIoError(std::io::Error);

/// A failure of the transport that the library itself can detect.
#[derive(Debug, Clone, Copy, PartialEq, Eq, Structural)]
pub enum TransportError {
    /// The transport reported another length for a chunk than the chunk
    /// has.
    LengthMismatch,
    /// A chunk is longer than the transport can take in one write.
    ChunkTooLarge,
}

/// A violation of the wire format.
#[derive(Debug, Clone, Copy, PartialEq, Eq, Structural)]
pub enum ProtocolError {
    /// The declared length of a header is below four or beyond `i32::MAX`.
    MalformedHeader,
    /// The frame is complete but its tag is unknown or its body is
    /// truncated or otherwise unparseable.
    MalformedBody,
}

/// Why a startup and authentication sequence failed.
#[derive(Debug, Clone, PartialEq, Eq)]
pub enum AuthError {
    /// The startup parameters cannot be put on the wire.
    InvalidParameters,
    /// The backend asked for something other than SASL.
    UnsupportedAuthMethod,
    /// The stream ended before the sequence was complete.
    ConnectionClosed,
    /// A message that the current state does not accept.
    UnexpectedMessage,
    /// The backend answered with an `ErrorResponse`; the text is built
    /// from its fields.
    Backend(Vec<u8>),
    /// The SCRAM exchange was refused or could not be verified.
    SaslFailure,
    /// The backend's bytes violate the wire format.
    Protocol(ProtocolError),
    /// The handshake was driven out of order: started twice, or driven
    /// after it had ended.
    OutOfOrder,
}

/// The mathematical content of an [`AuthError`].
pub ghost enum AuthErrorView {
    InvalidParameters,
    UnsupportedAuthMethod,
    ConnectionClosed,
    UnexpectedMessage,
    Backend(Seq<u8>),
    SaslFailure,
    Protocol(ProtocolError),
    OutOfOrder,
}

impl View for AuthError {
    type V = AuthErrorView;

    open spec fn view(&self) -> AuthErrorView {
        match *self {
            AuthError::InvalidParameters => AuthErrorView::InvalidParameters,
            AuthError::UnsupportedAuthMethod => AuthErrorView::UnsupportedAuthMethod,
            AuthError::ConnectionClosed => AuthErrorView::ConnectionClosed,
            AuthError::UnexpectedMessage => AuthErrorView::UnexpectedMessage,
            AuthError::Backend(text) => AuthErrorView::Backend(text@),
            AuthError::SaslFailure => AuthErrorView::SaslFailure,
            AuthError::Protocol(e) => AuthErrorView::Protocol(e),
            AuthError::OutOfOrder => AuthErrorView::OutOfOrder,
        }
    }
}

/// Why no WebTransport session came out of a connection.
#[derive(Debug, Clone, Copy, PartialEq, Eq, Structural)]
pub enum NegotiationError {
    /// The QUIC connection or the HTTP/3 upgrade failed.
    ConnectionFailed,
    /// The connection closed before a session was established.
    ConnectionClosed,
    /// The first request was not a CONNECT.
    NotConnect,
    /// The request did not carry the WebTransport protocol extension.
    NotWebTransport,
    /// The peer's request was refused while the session was being accepted.
    SessionRejected,
    /// A request that is not for a bidirectional stream.
    UnsupportedStream,
    /// An event that the current state does not accept.
    OutOfOrder,
}

/// Why a relay ended abnormally.
#[derive(Debug, Clone, Copy, PartialEq, Eq, Structural)]
pub enum RelayError {
    /// The upstream TCP target could not be reached.
    UpstreamUnreachable,
    /// A read or a write failed on either side while relaying.
    Disconnected,
    /// An event that the current state does not accept.
    OutOfOrder,
}

} // verus!
