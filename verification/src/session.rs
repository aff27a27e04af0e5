//! Session negotiation on the server: from an accepted QUIC connection to
//! one WebTransport session, and the acceptance of its streams.

use crate::error::NegotiationError;
use vstd::prelude::*;

verus! {

/// The method of an HTTP request.
#[derive(Debug, Clone, Copy, PartialEq, Eq, Structural)]
pub enum Method {
    Options,
    Get,
    Post,
    Put,
    Delete,
    Head,
    Trace,
    Connect,
    Patch,
    /// A method outside the standard set.
    Extension,
}

/// The protocol that an extended CONNECT names.
#[derive(Debug, Clone, Copy, PartialEq, Eq, Structural)]
pub enum Protocol {
    WebTransport,
    Other,
}

/// What the negotiation reads of the first HTTP/3 request.
#[derive(Debug, Clone, Copy, PartialEq, Eq, Structural)]
pub struct Request {
    pub method: Method,
    /// The protocol extension, where the request carries one.
    pub protocol: Option<Protocol>,
}

/// The settings with which a connection is upgraded to HTTP/3.
#[derive(Debug, Clone, Copy, PartialEq, Eq, Structural)]
pub struct Settings {
    pub enable_webtransport: bool,
    pub enable_connect: bool,
    pub enable_datagram: bool,
    pub max_webtransport_sessions: u64,
    pub send_grease: bool,
}

/// Where a negotiation stands.
#[derive(Debug, Clone, Copy, PartialEq, Eq, Structural)]
pub enum SessionState {
    /// The QUIC connection is being established.
    Connecting,
    /// The connection is being upgraded to HTTP/3.
    Upgrading,
    /// The first request is awaited.
    AwaitingRequest,
    /// The request was found proper; the session is being accepted.
    Accepting,
    /// The session is established. Terminal for the negotiation.
    Established,
    /// The negotiation failed. Terminal.
    Failed,
}

/// What happened on the connection.
#[derive(Debug, Clone, Copy, PartialEq, Eq, Structural)]
pub enum SessionEvent {
    /// The QUIC connection is established.
    Connected,
    /// The HTTP/3 connection is built.
    Upgraded,
    /// The first request arrived.
    Requested(Request),
    /// The session was accepted.
    Accepted,
    /// The connection closed before the awaited thing happened.
    Closed,
    /// The awaited thing failed.
    TransportFailed,
}

/// What the driver of a negotiation does next.
#[derive(Debug, Clone, Copy, PartialEq, Eq, Structural)]
pub enum SessionAction {
    /// Upgrade the connection to HTTP/3 with these settings.
    Upgrade(Settings),
    /// Accept the first request on the HTTP/3 connection.
    AwaitRequest,
    /// Accept the request as a WebTransport session.
    AcceptSession,
    /// The session stands.
    Ready,
}

/// What was offered on an established session.
#[derive(Debug, Clone, Copy, PartialEq, Eq, Structural)]
pub enum Offer {
    /// A bidirectional stream.
    Bidirectional,
    /// Another HTTP/3 request on the same connection.
    Request,
    /// Nothing that the session can take as a stream.
    Nothing,
    /// Waiting for a stream failed.
    TransportFailed,
}

/// The negotiation of the one WebTransport session of a connection.
pub struct Session {
    state: SessionState,
}

/// The settings of every upgrade: WebTransport, extended CONNECT and
/// datagrams enabled, and one WebTransport session at most.
pub open spec fn upgrade_settings() -> Settings {
    Settings {
        enable_webtransport: true,
        enable_connect: true,
        enable_datagram: true,
        max_webtransport_sessions: 1,
        send_grease: true,
    }
}

/// Whether a request asks for a WebTransport session, and the error where
/// it does not: the method is looked at first.
pub open spec fn request_verdict(request: Request) -> Result<(), NegotiationError> {
    if request.method != Method::Connect {
        Err(NegotiationError::NotConnect)
    } else if request.protocol != Some(Protocol::WebTransport) {
        Err(NegotiationError::NotWebTransport)
    } else {
        Ok(())
    }
}

/// The error of an event that is no progress in a state that awaits
/// something.
pub open spec fn setback(state: SessionState, event: SessionEvent) -> NegotiationError {
    match event {
        SessionEvent::Closed => NegotiationError::ConnectionClosed,
        SessionEvent::TransportFailed => if state is Accepting {
            NegotiationError::SessionRejected
        } else {
            NegotiationError::ConnectionFailed
        },
        _ => NegotiationError::OutOfOrder,
    }
}

/// The next state and the answer of a negotiation in `state` to `event`.
pub open spec fn negotiate(state: SessionState, event: SessionEvent) -> (
    SessionState,
    Result<SessionAction, NegotiationError>,
) {
    match (state, event) {
        (SessionState::Established, _) => (
            SessionState::Established,
            Err(NegotiationError::OutOfOrder),
        ),
        (SessionState::Failed, _) => (SessionState::Failed, Err(NegotiationError::OutOfOrder)),
        (SessionState::Connecting, SessionEvent::Connected) => (
            SessionState::Upgrading,
            Ok(SessionAction::Upgrade(upgrade_settings())),
        ),
        (SessionState::Upgrading, SessionEvent::Upgraded) => (
            SessionState::AwaitingRequest,
            Ok(SessionAction::AwaitRequest),
        ),
        (SessionState::AwaitingRequest, SessionEvent::Requested(request)) => match request_verdict(
            request,
        ) {
            Ok(()) => (SessionState::Accepting, Ok(SessionAction::AcceptSession)),
            Err(error) => (SessionState::Failed, Err(error)),
        },
        (SessionState::Accepting, SessionEvent::Accepted) => (
            SessionState::Established,
            Ok(SessionAction::Ready),
        ),
        _ => (SessionState::Failed, Err(setback(state, event))),
    }
}

/// The answer of a session in `state` to what was offered on it.
pub open spec fn stream_verdict(state: SessionState, offer: Offer) -> Result<
    (),
    NegotiationError,
> {
    if !(state is Established) {
        Err(NegotiationError::OutOfOrder)
    } else {
        match offer {
            Offer::Bidirectional => Ok(()),
            Offer::Request => Err(NegotiationError::UnsupportedStream),
            Offer::Nothing => Err(NegotiationError::UnsupportedStream),
            Offer::TransportFailed => Err(NegotiationError::ConnectionFailed),
        }
    }
}

/// Checks that a request asks for a WebTransport session.
pub fn check_request(request: Request) -> (r: Result<(), NegotiationError>)
    ensures
        r == request_verdict(request),
{
    match request.method {
        Method::Connect => match request.protocol {
            Some(Protocol::WebTransport) => Ok(()),
            _ => Err(NegotiationError::NotWebTransport),
        },
        _ => Err(NegotiationError::NotConnect),
    }
}

impl View for Session {
    type V = SessionState;

    closed spec fn view(&self) -> SessionState {
        self.state
    }
}

impl Session {
    /// A negotiation for a connection that is being established.
    pub fn new() -> (session: Session)
        ensures
            session@ is Connecting,
    {
        Session { state: SessionState::Connecting }
    }

    /// Where the negotiation stands.
    pub fn state(&self) -> (state: SessionState)
        ensures
            state == self@,
    {
        self.state
    }

    /// Drives the negotiation by one event: establish the connection,
    /// upgrade it, take the first request, which must be a CONNECT for
    /// WebTransport, and accept it as the session. Anything else fails the
    /// negotiation for good.
    pub fn start(&mut self, event: SessionEvent) -> (r: Result<SessionAction, NegotiationError>)
        ensures
            (final(self)@, r) == negotiate(old(self)@, event),
    {
        let (state, r) = match (self.state, event) {
            (SessionState::Established, _) => (
                SessionState::Established,
                Err(NegotiationError::OutOfOrder),
            ),
            (SessionState::Failed, _) => (SessionState::Failed, Err(NegotiationError::OutOfOrder)),
            (SessionState::Connecting, SessionEvent::Connected) => (
                SessionState::Upgrading,
                Ok(
                    SessionAction::Upgrade(
                        Settings {
                            enable_webtransport: true,
                            enable_connect: true,
                            enable_datagram: true,
                            max_webtransport_sessions: 1,
                            send_grease: true,
                        },
                    ),
                ),
            ),
            (SessionState::Upgrading, SessionEvent::Upgraded) => (
                SessionState::AwaitingRequest,
                Ok(SessionAction::AwaitRequest),
            ),
            (SessionState::AwaitingRequest, SessionEvent::Requested(request)) => {
                match check_request(request) {
                    Ok(()) => (SessionState::Accepting, Ok(SessionAction::AcceptSession)),
                    Err(error) => (SessionState::Failed, Err(error)),
                }
            },
            (SessionState::Accepting, SessionEvent::Accepted) => (
                SessionState::Established,
                Ok(SessionAction::Ready),
            ),
            (_, SessionEvent::Closed) => (
                SessionState::Failed,
                Err(NegotiationError::ConnectionClosed),
            ),
            (SessionState::Accepting, SessionEvent::TransportFailed) => (
                SessionState::Failed,
                Err(NegotiationError::SessionRejected),
            ),
            (_, SessionEvent::TransportFailed) => (
                SessionState::Failed,
                Err(NegotiationError::ConnectionFailed),
            ),
            _ => (SessionState::Failed, Err(NegotiationError::OutOfOrder)),
        };
        self.state = state;
        r
    }

    /// Decides on what was offered on the session: a bidirectional stream
    /// is accepted, anything else is not supported. Before the session is
    /// established nothing is accepted.
    pub fn accept_bidirectional(&self, offer: Offer) -> (r: Result<(), NegotiationError>)
        ensures
            r == stream_verdict(self@, offer),
    {
        match self.state {
            SessionState::Established => match offer {
                Offer::Bidirectional => Ok(()),
                Offer::Request => Err(NegotiationError::UnsupportedStream),
                Offer::Nothing => Err(NegotiationError::UnsupportedStream),
                Offer::TransportFailed => Err(NegotiationError::ConnectionFailed),
            },
            _ => Err(NegotiationError::OutOfOrder),
        }
    }
}

/// A session is accepted only for a CONNECT that names WebTransport, and
/// only as the answer to the first request: a request with any other
/// method, or without that protocol, fails the negotiation, and the
/// session is never accepted for it.
pub proof fn lemma_session_needs_proper_connect(state: SessionState, event: SessionEvent)
    ensures
        negotiate(state, event).1 == Ok::<SessionAction, NegotiationError>(
            SessionAction::AcceptSession,
        ) <==> (state is AwaitingRequest && event == SessionEvent::Requested(
            Request { method: Method::Connect, protocol: Some(Protocol::WebTransport) },
        )),
        state is AwaitingRequest && event is Requested && event->Requested_0.method
            != Method::Connect ==> negotiate(state, event) == (
            SessionState::Failed,
            Err::<SessionAction, NegotiationError>(NegotiationError::NotConnect),
        ),
{
}

/// The place of a state in the order of a negotiation.
pub open spec fn stage(state: SessionState) -> int {
    match state {
        SessionState::Connecting => 0,
        SessionState::Upgrading => 1,
        SessionState::AwaitingRequest => 2,
        SessionState::Accepting => 3,
        SessionState::Established => 4,
        SessionState::Failed => 5,
    }
}

/// One session at most per connection: a negotiation never goes back, so
/// the state in which a session is accepted is passed once; once it has
/// ended it stays as it is, and every upgrade caps the sessions at one.
pub proof fn lemma_one_session_per_connection(state: SessionState, event: SessionEvent)
    ensures
        stage(negotiate(state, event).0) >= stage(state),
        negotiate(state, event).0 == state ==> state is Established || state is Failed,
        negotiate(state, event).1 matches Ok(SessionAction::Upgrade(settings))
            ==> settings.max_webtransport_sessions == 1,
{
}

} // verus!
