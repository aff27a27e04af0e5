//! The startup and authentication handshake of the client: an explicit
//! state machine that is handed what the transport delivered and answers
//! with what to do next.

use crate::buffer::buffer_to_vec;
use crate::buffer::buffered;
use crate::connection::MAX_CHUNK;
use crate::error::TransportError;
use crate::connection::decode_step;
use crate::connection::taken_in;
use crate::connection::Connection;
use crate::connection::Decoded;
use crate::connection::Delivery;
use crate::error::AuthError;
use crate::error::AuthErrorView;
use crate::error::ProtocolError;
use crate::frame::frame_ready;
use crate::frame::frame_size;
use crate::frame::malformed;
use crate::message::backend_message;
use crate::message::fields_view;
use crate::message::Message;
use crate::message::MessageView;
use crate::outbound::encodable;
use crate::outbound::initial_response_bytes;
use crate::outbound::params_bytes;
use crate::outbound::response_bytes;
use crate::outbound::startup_bytes;
use crate::outbound::write_startup;
use crate::outbound::zero_free;
use crate::scram::bare_prefix;
use crate::scram::no_binding_header;
use crate::scram::nonce_length;
use crate::scram::scram_answer;
use crate::scram::scram_begun_with;
use crate::scram::scram_message;
use crate::scram::scram_pending;
use crate::scram::scram_verifies;
use bytes::BytesMut;
use postgres_protocol::authentication::sasl::ChannelBinding;
use postgres_protocol::authentication::sasl::ScramSha256;
use postgres_protocol::message::frontend::sasl_initial_response;
use postgres_protocol::message::frontend::sasl_response;
use vstd::prelude::*;
use vstd::utf8::encode_utf8;
use vstd::utf8::is_ascii_chars;
use vstd::utf8::is_ascii_chars_encode_utf8;

verus! {

/// Where the handshake stands. The order of the variants is the order in
/// which they are passed through.
#[derive(Debug, Clone, Copy, PartialEq, Eq, Structural)]
pub enum AuthState {
    /// Nothing was sent yet.
    Start,
    /// The startup message was sent; the authentication request is awaited.
    Auth,
    /// The initial response was sent; the server's first message is awaited.
    SaslContinue,
    /// The client's final message was sent; the server's is awaited.
    SaslFinal,
    /// The server was verified; session information is taken in until the
    /// backend is ready.
    DrainingSessionInfo,
    /// The channel is authenticated. Terminal.
    Ready,
    /// The handshake failed. Terminal.
    Failed,
}

/// What the stream brought.
#[derive(Debug, Clone, PartialEq, Eq)]
pub enum AuthEvent {
    Message(Message),
    /// The stream ended.
    Closed,
}

/// The mathematical content of an [`AuthEvent`].
pub ghost enum AuthEventView {
    Message(MessageView),
    Closed,
}

impl View for AuthEvent {
    type V = AuthEventView;

    open spec fn view(&self) -> AuthEventView {
        match *self {
            AuthEvent::Message(message) => AuthEventView::Message(message@),
            AuthEvent::Closed => AuthEventView::Closed,
        }
    }
}

/// What the driver of the handshake does next.
#[derive(Debug, Clone, PartialEq, Eq)]
pub enum AuthAction {
    /// Send these bytes, wait until they are written, then go on.
    Send(Vec<u8>),
    /// Go on with what is pending.
    Continue,
    /// Read the next chunk from the stream and deliver it.
    Read,
    /// The handshake is complete.
    Complete,
}

/// The handshake over one connection. The connection can be had back only
/// once the state is `Ready`.
pub struct Startup {
    connection: Connection,
    password: Vec<u8>,
    state: AuthState,
    exchange: Option<ScramSha256>,
    parameters: Vec<(String, String)>,
    backend_key: Option<(i32, i32)>,
}

/// The mathematical content of a [`Startup`].
pub ghost struct StartupView {
    pub state: AuthState,
    pub pending: Seq<u8>,
    /// The credential that feeds the SCRAM exchange.
    pub password: Seq<u8>,
    /// The SCRAM exchange, while one is under way.
    pub exchange: Option<ScramSha256>,
    pub parameters: Seq<(Seq<char>, Seq<char>)>,
    pub backend_key: Option<(i32, i32)>,
}

/// The mathematical content of an [`AuthedChannel`].
pub ghost struct ChannelView {
    pub pending: Seq<u8>,
    pub parameters: Seq<(Seq<char>, Seq<char>)>,
    pub backend_key: Option<(i32, i32)>,
}

/// An authenticated channel with what the backend told about the session.
/// There is no way to one but through a handshake that ended `Ready`.
pub struct AuthedChannel {
    connection: Connection,
    parameters: Vec<(String, String)>,
    backend_key: Option<(i32, i32)>,
}

/// Parameters as pairs of character sequences.
pub open spec fn params_view(params: Seq<(String, String)>) -> Seq<(Seq<char>, Seq<char>)> {
    Seq::new(params.len(), |i: int| (params[i].0@, params[i].1@))
}

/// The bytes of `Errors: `, with which the text of a backend error begins.
pub open spec fn errors_prefix() -> Seq<u8> {
    seq![0x45u8, 0x72u8, 0x72u8, 0x6fu8, 0x72u8, 0x73u8, 0x3au8, 0x20u8]
}

/// The values of the fields in order, each followed by a space.
pub open spec fn values_text(fields: Seq<(u8, Seq<u8>)>) -> Seq<u8>
    decreases fields.len(),
{
    if fields.len() == 0 {
        Seq::empty()
    } else {
        values_text(fields.drop_last()) + fields.last().1 + seq![0x20u8]
    }
}

/// The text of a backend error: the prefix, then the values of its fields.
pub open spec fn error_text(fields: Seq<(u8, Seq<u8>)>) -> Seq<u8> {
    errors_prefix() + values_text(fields)
}

/// The name of the one mechanism that the handshake speaks.
pub open spec fn mechanism_name() -> Seq<u8> {
    encode_utf8("SCRAM-SHA-256"@)
}

/// What a state makes of an event, as far as the two decide it.
pub ghost enum Ruling {
    /// The handshake fails with this error.
    Fatal(AuthErrorView),
    /// Begin the SASL exchange and send the initial response.
    BeginSasl,
    /// Take in the server's first message and send the client's final one.
    ContinueSasl(Seq<u8>),
    /// Verify the server's final message.
    VerifySasl(Seq<u8>),
    /// Keep the session information and go on.
    Collect,
    /// The backend is ready.
    Finish,
}

pub open spec fn is_terminal(state: AuthState) -> bool {
    state is Ready || state is Failed
}

/// What a state makes of a message that it does not await, once the SASL
/// exchange was asked for: the backend's error is handed on with its text.
pub open spec fn unawaited(message: MessageView) -> Ruling {
    match message {
        MessageView::ErrorResponse(fields) => Ruling::Fatal(
            AuthErrorView::Backend(error_text(fields)),
        ),
        _ => Ruling::Fatal(AuthErrorView::UnexpectedMessage),
    }
}

pub open spec fn ruling(state: AuthState, event: AuthEventView) -> Ruling {
    match (state, event) {
        (AuthState::Ready, _) => Ruling::Fatal(AuthErrorView::OutOfOrder),
        (AuthState::Failed, _) => Ruling::Fatal(AuthErrorView::OutOfOrder),
        (_, AuthEventView::Closed) => Ruling::Fatal(AuthErrorView::ConnectionClosed),
        (AuthState::Start, _) => Ruling::Fatal(AuthErrorView::OutOfOrder),
        (AuthState::Auth, AuthEventView::Message(MessageView::AuthenticationSasl)) => Ruling::BeginSasl,
        (AuthState::Auth, AuthEventView::Message(MessageView::ErrorResponse(fields))) => Ruling::Fatal(
            AuthErrorView::Backend(error_text(fields)),
        ),
        (AuthState::Auth, _) => Ruling::Fatal(AuthErrorView::UnsupportedAuthMethod),
        (
            AuthState::SaslContinue,
            AuthEventView::Message(MessageView::AuthenticationSaslContinue(data)),
        ) => Ruling::ContinueSasl(data),
        (AuthState::SaslContinue, AuthEventView::Message(message)) => unawaited(message),
        (
            AuthState::SaslFinal,
            AuthEventView::Message(MessageView::AuthenticationSaslFinal(data)),
        ) => Ruling::VerifySasl(data),
        (AuthState::SaslFinal, AuthEventView::Message(message)) => unawaited(message),
        (AuthState::DrainingSessionInfo, AuthEventView::Message(message)) => match message {
            MessageView::BackendKeyData { .. } => Ruling::Collect,
            MessageView::ParameterStatus { .. } => Ruling::Collect,
            MessageView::AuthenticationOk => Ruling::Collect,
            MessageView::ReadyForQuery(_) => Ruling::Finish,
            _ => unawaited(message),
        },
    }
}

/// The first message of an exchange that was begun with `password` and
/// without channel binding: `n,,n=,r=` and a nonce.
pub open spec fn client_first(exchange: ScramSha256, password: Seq<u8>, first: Seq<u8>) -> bool {
    &&& scram_begun_with(exchange, password)
    &&& scram_pending(exchange) == Some(first)
    &&& first.len() == no_binding_header().len() + bare_prefix().len() + nonce_length()
    &&& first.take(8) == no_binding_header() + bare_prefix()
}

/// The client's final message with which the exchange of `before` answers
/// the server's first message, where it accepts that message and the
/// answer fits one SASL response.
pub open spec fn client_final(before: StartupView, data: Seq<u8>) -> Option<Seq<u8>> {
    match before.exchange {
        Some(exchange) => match scram_answer(exchange, data) {
            Some(answer) => if 4 + answer.len() <= 0x7fff_ffff {
                Some(answer)
            } else {
                None
            },
            None => None,
        },
        None => None,
    }
}

/// Whether the step that `event` asks of `before` succeeds. Beginning the
/// exchange always does; the server's first message must be accepted by
/// the exchange, and its final message must verify the server.
pub open spec fn succeeds(before: StartupView, event: AuthEventView) -> bool {
    match ruling(before.state, event) {
        Ruling::Fatal(_) => false,
        Ruling::BeginSasl => true,
        Ruling::ContinueSasl(data) => client_final(before, data) is Some,
        Ruling::VerifySasl(data) => before.exchange is Some && scram_verifies(
            before.exchange->Some_0,
            data,
        ),
        Ruling::Collect => true,
        Ruling::Finish => true,
    }
}

/// The state that follows, given whether the step succeeded.
pub open spec fn next_state(state: AuthState, event: AuthEventView, succeeded: bool) -> AuthState {
    match ruling(state, event) {
        Ruling::Fatal(_) => if state is Ready {
            AuthState::Ready
        } else {
            AuthState::Failed
        },
        Ruling::BeginSasl => if succeeded {
            AuthState::SaslContinue
        } else {
            AuthState::Failed
        },
        Ruling::ContinueSasl(_) => if succeeded {
            AuthState::SaslFinal
        } else {
            AuthState::Failed
        },
        Ruling::VerifySasl(_) => if succeeded {
            AuthState::DrainingSessionInfo
        } else {
            AuthState::Failed
        },
        Ruling::Collect => AuthState::DrainingSessionInfo,
        Ruling::Finish => AuthState::Ready,
    }
}

/// The session information once `event` has been taken in.
pub open spec fn collected(before: StartupView, event: AuthEventView) -> StartupView {
    if before.state is DrainingSessionInfo {
        match event {
            AuthEventView::Message(MessageView::ParameterStatus { name, value }) => StartupView {
                parameters: before.parameters.push((name, value)),
                ..before
            },
            AuthEventView::Message(MessageView::BackendKeyData { process_id, secret_key }) => StartupView {
                backend_key: Some((process_id, secret_key)),
                ..before
            },
            _ => before,
        }
    } else {
        before
    }
}

/// One step of the handshake from `before` to `after` on `event`, with the
/// result `r`. The step succeeds exactly where `succeeds` says; the state,
/// the session information and the exchange follow from `before` and the
/// event; every message that is sent is the frame around what the exchange
/// holds.
pub open spec fn advanced(
    before: StartupView,
    event: AuthEventView,
    after: StartupView,
    r: Result<AuthAction, AuthError>,
) -> bool {
    &&& r is Ok <==> succeeds(before, event)
    &&& after.state == next_state(before.state, event, succeeds(before, event))
    &&& after.pending == before.pending
    &&& after.password == before.password
    &&& after.parameters == collected(before, event).parameters
    &&& after.backend_key == collected(before, event).backend_key
    &&& match ruling(before.state, event) {
        Ruling::Fatal(error) => r is Err && r->Err_0@ == error && after.exchange == before.exchange,
        Ruling::BeginSasl => match r {
            Ok(AuthAction::Send(bytes)) => exists|first: Seq<u8>|
                {
                    &&& after.exchange is Some
                    &&& #[trigger] client_first(after.exchange->Some_0, before.password, first)
                    &&& bytes@ == initial_response_bytes(mechanism_name(), first)
                },
            _ => false,
        },
        Ruling::ContinueSasl(data) => match r {
            Ok(AuthAction::Send(bytes)) => {
                &&& client_final(before, data) is Some
                &&& bytes@ == response_bytes(client_final(before, data)->Some_0)
                &&& after.exchange is Some
                &&& scram_pending(after.exchange->Some_0) == client_final(before, data)
            },
            Ok(_) => false,
            Err(error) => error@ == AuthErrorView::SaslFailure && after.exchange is None,
        },
        Ruling::VerifySasl(_) => {
            &&& after.exchange is None
            &&& match r {
                Ok(action) => action is Continue,
                Err(error) => error@ == AuthErrorView::SaslFailure,
            }
        },
        Ruling::Collect => r is Ok && r->Ok_0 is Continue && after.exchange == before.exchange,
        Ruling::Finish => r is Ok && r->Ok_0 is Complete && after.exchange == before.exchange,
    }
}

/// The name of the mechanism, byte for byte: `SCRAM-SHA-256`.
pub proof fn lemma_mechanism()
    ensures
        mechanism_name() == seq![
            0x53u8, 0x43u8, 0x52u8, 0x41u8, 0x4du8, 0x2du8, 0x53u8, 0x48u8, 0x41u8, 0x2du8, 0x32u8,
            0x35u8, 0x36u8,
        ],
        zero_free(mechanism_name()),
{
    reveal_strlit("SCRAM-SHA-256");
    let name = "SCRAM-SHA-256"@;
    assert(is_ascii_chars(name));
    is_ascii_chars_encode_utf8(name);
    assert(mechanism_name() =~= seq![
        0x53u8, 0x43u8, 0x52u8, 0x41u8, 0x4du8, 0x2du8, 0x53u8, 0x48u8, 0x41u8, 0x2du8, 0x32u8,
        0x35u8, 0x36u8,
    ]);
}

/// The state and the result of a step that sends a SASL message, given
/// what the outside work produced: the message to send, or nothing where
/// it failed.
pub fn sasl_sent(state: AuthState, produced: Option<Vec<u8>>) -> (r: (
    AuthState,
    Result<AuthAction, AuthError>,
))
    ensures
        match (state, produced) {
            (AuthState::Auth, Some(bytes)) => r == (
                AuthState::SaslContinue,
                Ok::<AuthAction, AuthError>(AuthAction::Send(bytes)),
            ),
            (AuthState::SaslContinue, Some(bytes)) => r == (
                AuthState::SaslFinal,
                Ok::<AuthAction, AuthError>(AuthAction::Send(bytes)),
            ),
            _ => r == (AuthState::Failed, Err::<AuthAction, AuthError>(AuthError::SaslFailure)),
        },
{
    match (state, produced) {
        (AuthState::Auth, Some(bytes)) => (AuthState::SaslContinue, Ok(AuthAction::Send(bytes))),
        (AuthState::SaslContinue, Some(bytes)) => (
            AuthState::SaslFinal,
            Ok(AuthAction::Send(bytes)),
        ),
        _ => (AuthState::Failed, Err(AuthError::SaslFailure)),
    }
}

/// The state and the result of the step that verifies the server, given
/// whether the verification succeeded.
pub fn sasl_verified(verified: bool) -> (r: (AuthState, Result<AuthAction, AuthError>))
    ensures
        verified ==> r == (
            AuthState::DrainingSessionInfo,
            Ok::<AuthAction, AuthError>(AuthAction::Continue),
        ),
        !verified ==> r == (
            AuthState::Failed,
            Err::<AuthAction, AuthError>(AuthError::SaslFailure),
        ),
{
    if verified {
        (AuthState::DrainingSessionInfo, Ok(AuthAction::Continue))
    } else {
        (AuthState::Failed, Err(AuthError::SaslFailure))
    }
}

/// The text of a backend error, built from the fields of its response.
pub fn format_error(fields: &Vec<(u8, Vec<u8>)>) -> (text: Vec<u8>)
    ensures
        text@ == error_text(fields_view(fields@)),
{
    let mut text: Vec<u8> = Vec::new();
    text.push(0x45u8);
    text.push(0x72u8);
    text.push(0x72u8);
    text.push(0x6fu8);
    text.push(0x72u8);
    text.push(0x73u8);
    text.push(0x3au8);
    text.push(0x20u8);
    assert(text@ =~= errors_prefix() + values_text(fields_view(fields@).take(0)));
    let mut i: usize = 0;
    while i < fields.len()
        invariant
            i <= fields.len(),
            text@ == errors_prefix() + values_text(fields_view(fields@).take(i as int)),
        decreases fields.len() - i,
    {
        let ghost done = fields_view(fields@).take(i as int);
        let ghost more = fields_view(fields@).take(i + 1);
        text.extend_from_slice(fields[i].1.as_slice());
        text.push(0x20u8);
        proof {
            assert(more.drop_last() =~= done);
            assert(more.last() == fields_view(fields@)[i as int]);
            assert(text@ =~= errors_prefix() + values_text(more));
        }
        i = i + 1;
    }
    assert(fields_view(fields@).take(i as int) =~= fields_view(fields@));
    text
}

impl View for Startup {
    type V = StartupView;

    closed spec fn view(&self) -> StartupView {
        StartupView {
            state: self.state,
            pending: self.connection@,
            password: self.password@,
            exchange: self.exchange,
            parameters: params_view(self.parameters@),
            backend_key: self.backend_key,
        }
    }
}

impl View for AuthedChannel {
    type V = ChannelView;

    closed spec fn view(&self) -> ChannelView {
        ChannelView {
            pending: self.connection@,
            parameters: params_view(self.parameters@),
            backend_key: self.backend_key,
        }
    }
}

impl AuthedChannel {
    /// The parameters that the backend reported during the handshake.
    pub fn parameters(&self) -> (parameters: &Vec<(String, String)>)
        ensures
            params_view(parameters@) == self@.parameters,
    {
        &self.parameters
    }

    /// The process id and secret key of the backend, where it reported
    /// them.
    pub fn backend_key(&self) -> (key: Option<(i32, i32)>)
        ensures
            key == self@.backend_key,
    {
        self.backend_key
    }

    /// The number of bytes that are pending on the channel.
    pub fn pending_len(&self) -> (n: usize)
        ensures
            n == self@.pending.len(),
    {
        self.connection.pending_len()
    }

    /// The chunk that is to be written to the stream for `data`, as
    /// [`Connection::encode`] gives it. The channel is not touched.
    pub fn encode(&self, data: BytesMut) -> (r: Result<Vec<u8>, TransportError>)
        ensures
            buffered(data).len() <= MAX_CHUNK ==> r is Ok && r->Ok_0@ == buffered(data),
            buffered(data).len() > MAX_CHUNK ==> r == Err::<Vec<u8>, TransportError>(
                TransportError::ChunkTooLarge,
            ),
    {
        self.connection.encode(data)
    }

    /// Takes in what the transport delivered and decodes the next message
    /// of the backend, as [`Connection::decode`] does.
    pub fn decode(&mut self, delivery: Delivery) -> (r: Result<Decoded, ProtocolError>)
        ensures
            final(self)@ == (ChannelView { pending: final(self)@.pending, ..old(self)@ }),
            match r {
                Ok(Decoded::Message(message)) => decode_step(
                    taken_in(old(self)@.pending, delivery),
                    final(self)@.pending,
                    Ok(Some(message)),
                ),
                Ok(Decoded::NeedChunk) => !(delivery is End) && decode_step(
                    taken_in(old(self)@.pending, delivery),
                    final(self)@.pending,
                    Ok(None),
                ),
                Ok(Decoded::Closed) => delivery is End && decode_step(
                    taken_in(old(self)@.pending, delivery),
                    final(self)@.pending,
                    Ok(None),
                ),
                Err(e) => decode_step(
                    taken_in(old(self)@.pending, delivery),
                    final(self)@.pending,
                    Err(e),
                ),
            },
    {
        self.connection.decode(delivery)
    }

    /// Gives the connection up.
    pub fn into_connection(self) -> (connection: Connection)
        ensures
            connection@ == self@.pending,
    {
        self.connection
    }
}

impl Startup {
    /// A handshake that has not begun, over `connection`, for the given
    /// password.
    pub fn new(connection: Connection, password: Vec<u8>) -> (startup: Startup)
        ensures
            startup@ == (StartupView {
                state: AuthState::Start,
                pending: connection@,
                password: password@,
                exchange: None,
                parameters: Seq::empty(),
                backend_key: None,
            }),
    {
        let startup = Startup {
            connection,
            password,
            state: AuthState::Start,
            exchange: None,
            parameters: Vec::new(),
            backend_key: None,
        };
        assert(startup@.parameters =~= Seq::empty());
        startup
    }

    /// The connection over which the handshake runs.
    pub fn connection(&self) -> (connection: &Connection)
        ensures
            connection@ == self@.pending,
    {
        &self.connection
    }

    /// Where the handshake stands.
    pub fn state(&self) -> (state: AuthState)
        ensures
            state == self@.state,
    {
        self.state
    }

    /// The parameters that the backend has reported so far, in order.
    pub fn parameters(&self) -> (parameters: &Vec<(String, String)>)
        ensures
            params_view(parameters@) == self@.parameters,
    {
        &self.parameters
    }

    /// The process id and secret key of the backend, once reported.
    pub fn backend_key(&self) -> (key: Option<(i32, i32)>)
        ensures
            key == self@.backend_key,
    {
        self.backend_key
    }

    /// Begins the handshake: the startup message for `params` is to be
    /// sent. It fails where the parameters cannot be put on the wire, and
    /// where the handshake was begun before.
    pub fn start(&mut self, params: &Vec<(String, String)>) -> (r: Result<AuthAction, AuthError>)
        ensures
            final(self)@ == (StartupView { state: final(self)@.state, ..old(self)@ }),
            !(old(self)@.state is Start) ==> {
                &&& r is Err && r->Err_0@ == AuthErrorView::OutOfOrder
                &&& final(self)@.state == if old(self)@.state is Ready {
                    AuthState::Ready
                } else {
                    AuthState::Failed
                }
            },
            old(self)@.state is Start && !encodable(params_bytes(params@)) ==> {
                &&& r is Err && r->Err_0@ == AuthErrorView::InvalidParameters
                &&& final(self)@.state is Failed
            },
            old(self)@.state is Start && encodable(params_bytes(params@)) ==> {
                &&& r matches Ok(AuthAction::Send(bytes)) && bytes@ == startup_bytes(
                    params_bytes(params@),
                )
                &&& final(self)@.state is Auth
            },
    {
        match self.state {
            AuthState::Start => {
                let mut buffer = BytesMut::new();
                match write_startup(params, &mut buffer) {
                    Ok(()) => {
                        self.state = AuthState::Auth;
                        let bytes = buffer_to_vec(&buffer);
                        assert(bytes@ =~= startup_bytes(params_bytes(params@)));
                        Ok(AuthAction::Send(bytes))
                    },
                    Err(_) => {
                        self.state = AuthState::Failed;
                        Err(AuthError::InvalidParameters)
                    },
                }
            },
            AuthState::Ready => Err(AuthError::OutOfOrder),
            _ => {
                self.state = AuthState::Failed;
                Err(AuthError::OutOfOrder)
            },
        }
    }

    /// Takes in one event of the stream. Before the SASL exchange only the
    /// request for SASL is accepted, and an error of the backend is handed
    /// on with its text; everything after it is the exchange's.
    pub fn advance(&mut self, event: AuthEvent) -> (r: Result<AuthAction, AuthError>)
        ensures
            advanced(old(self)@, event@, final(self)@, r),
    {
        match self.state {
            AuthState::Ready => Err(AuthError::OutOfOrder),
            AuthState::Failed => Err(AuthError::OutOfOrder),
            AuthState::Start => {
                self.state = AuthState::Failed;
                match event {
                    AuthEvent::Closed => Err(AuthError::ConnectionClosed),
                    AuthEvent::Message(_) => Err(AuthError::OutOfOrder),
                }
            },
            AuthState::Auth => match event {
                AuthEvent::Message(Message::AuthenticationSasl) => sasl(
                    self,
                    AuthEvent::Message(Message::AuthenticationSasl),
                ),
                AuthEvent::Message(Message::ErrorResponse(fields)) => {
                    self.state = AuthState::Failed;
                    Err(AuthError::Backend(format_error(&fields)))
                },
                AuthEvent::Message(_) => {
                    self.state = AuthState::Failed;
                    Err(AuthError::UnsupportedAuthMethod)
                },
                AuthEvent::Closed => {
                    self.state = AuthState::Failed;
                    Err(AuthError::ConnectionClosed)
                },
            },
            _ => sasl(self, event),
        }
    }

    /// Takes in what the transport delivered and drives the handshake with
    /// the next message that is pending, if there is one. A violation of
    /// the wire format fails the handshake.
    pub fn receive(&mut self, delivery: Delivery) -> (r: Result<AuthAction, AuthError>)
        ensures
            is_terminal(old(self)@.state) ==> final(self)@ == old(self)@ && r is Err && r->Err_0@
                == AuthErrorView::OutOfOrder,
            !is_terminal(old(self)@.state) ==> received(old(self)@, delivery, final(self)@, r),
    {
        match self.state {
            AuthState::Ready => {
                return Err(AuthError::OutOfOrder);
            },
            AuthState::Failed => {
                return Err(AuthError::OutOfOrder);
            },
            _ => {},
        }
        match self.connection.decode(delivery) {
            Ok(Decoded::Message(message)) => self.advance(AuthEvent::Message(message)),
            Ok(Decoded::NeedChunk) => Ok(AuthAction::Read),
            Ok(Decoded::Closed) => self.advance(AuthEvent::Closed),
            Err(e) => {
                self.state = AuthState::Failed;
                Err(AuthError::Protocol(e))
            },
        }
    }

    /// Hands the connection over once the handshake is complete, with the
    /// session information that was collected. Before that the channel
    /// cannot be had.
    pub fn finish(self) -> (r: Result<AuthedChannel, AuthError>)
        ensures
            self@.state is Ready <==> r is Ok,
            r matches Ok(channel) ==> channel@ == (ChannelView {
                pending: self@.pending,
                parameters: self@.parameters,
                backend_key: self@.backend_key,
            }),
            r matches Err(error) ==> error@ == AuthErrorView::OutOfOrder,
    {
        match self.state {
            AuthState::Ready => Ok(
                AuthedChannel {
                    connection: self.connection,
                    parameters: self.parameters,
                    backend_key: self.backend_key,
                },
            ),
            _ => Err(AuthError::OutOfOrder),
        }
    }
}

/// One delivery taken in by a handshake that has not ended: the pending
/// bytes change as one decoding step changes them; a malformed header or
/// body fails the handshake; an incomplete message asks for a read, or, at
/// the end of the stream, is the stream's closure; a message drives the
/// handshake one step.
pub open spec fn received(
    before: StartupView,
    delivery: Delivery,
    after: StartupView,
    r: Result<AuthAction, AuthError>,
) -> bool {
    let pending = taken_in(before.pending, delivery);
    let decoded = StartupView { pending: after.pending, ..before };
    if malformed(pending) {
        &&& after == StartupView { state: AuthState::Failed, pending: pending, ..before }
        &&& r is Err && r->Err_0@ == AuthErrorView::Protocol(ProtocolError::MalformedHeader)
    } else if !frame_ready(pending) {
        &&& after.pending == pending
        &&& if delivery is End {
            advanced(decoded, AuthEventView::Closed, after, r)
        } else {
            after == decoded && r is Ok && r->Ok_0 is Read
        }
    } else {
        &&& after.pending == pending.skip(frame_size(pending))
        &&& match backend_message(pending.take(frame_size(pending))) {
            Some(message) => advanced(decoded, AuthEventView::Message(message), after, r),
            None => {
                &&& after == StartupView { state: AuthState::Failed, ..decoded }
                &&& r is Err && r->Err_0@ == AuthErrorView::Protocol(ProtocolError::MalformedBody)
            },
        }
    }
}

/// The SASL exchange and what follows it: the initial response on the
/// backend's request, the client's final message on the server's first,
/// the verification of the server's final message, then the session
/// information until the backend is ready. Every unexpected message, every
/// failure of the exchange and the closure of the stream fail the
/// handshake for good.
pub fn sasl(startup: &mut Startup, event: AuthEvent) -> (r: Result<AuthAction, AuthError>)
    ensures
        advanced(old(startup)@, event@, final(startup)@, r),
{
    let ghost before = startup@;
    match startup.state {
        AuthState::Ready => {
            return Err(AuthError::OutOfOrder);
        },
        AuthState::Failed => {
            return Err(AuthError::OutOfOrder);
        },
        _ => {},
    }
    let message = match event {
        AuthEvent::Closed => {
            startup.state = AuthState::Failed;
            return Err(AuthError::ConnectionClosed);
        },
        AuthEvent::Message(message) => message,
    };
    match (startup.state, message) {
        (AuthState::Start, _) => {
            startup.state = AuthState::Failed;
            Err(AuthError::OutOfOrder)
        },
        (AuthState::Auth, Message::AuthenticationSasl) => {
            let exchange = ScramSha256::new(
                startup.password.as_slice(),
                ChannelBinding::unsupported(),
            );
            let first = scram_message(&exchange);
            let mut buffer = BytesMut::new();
            proof {
                lemma_mechanism();
            }
            let produced = match sasl_initial_response(
                "SCRAM-SHA-256",
                first.as_slice(),
                &mut buffer,
            ) {
                Ok(()) => Some(buffer_to_vec(&buffer)),
                Err(_) => None,
            };
            proof {
                assert(produced is Some);
                assert(produced->Some_0@ =~= initial_response_bytes(mechanism_name(), first@));
                assert(client_first(exchange, before.password, first@));
            }
            let (state, r) = sasl_sent(AuthState::Auth, produced);
            startup.exchange = Some(exchange);
            startup.state = state;
            r
        },
        (AuthState::Auth, Message::ErrorResponse(fields)) => {
            startup.state = AuthState::Failed;
            Err(AuthError::Backend(format_error(&fields)))
        },
        (AuthState::Auth, _) => {
            startup.state = AuthState::Failed;
            Err(AuthError::UnsupportedAuthMethod)
        },
        (AuthState::SaslContinue, Message::AuthenticationSaslContinue(data)) => {
            let (produced, kept) = match startup.exchange.take() {
                Some(mut exchange) => {
                    match exchange.update(data.as_slice()) {
                        Ok(()) => {
                            let last = scram_message(&exchange);
                            let mut buffer = BytesMut::new();
                            match sasl_response(last.as_slice(), &mut buffer) {
                                Ok(()) => {
                                    let bytes = buffer_to_vec(&buffer);
                                    assert(bytes@ =~= response_bytes(last@));
                                    (Some(bytes), Some(exchange))
                                },
                                Err(_) => (None, None),
                            }
                        },
                        Err(_) => (None, None),
                    }
                },
                None => (None, None),
            };
            let (state, r) = sasl_sent(AuthState::SaslContinue, produced);
            startup.exchange = kept;
            startup.state = state;
            r
        },
        (AuthState::SaslFinal, Message::AuthenticationSaslFinal(data)) => {
            let verified = match startup.exchange.take() {
                Some(mut exchange) => exchange.finish(data.as_slice()).is_ok(),
                None => false,
            };
            let (state, r) = sasl_verified(verified);
            startup.state = state;
            r
        },
        (AuthState::DrainingSessionInfo, Message::BackendKeyData { process_id, secret_key }) => {
            startup.backend_key = Some((process_id, secret_key));
            Ok(AuthAction::Continue)
        },
        (AuthState::DrainingSessionInfo, Message::ParameterStatus { name, value }) => {
            startup.parameters.push((name, value));
            assert(startup@.parameters =~= before.parameters.push((name@, value@)));
            Ok(AuthAction::Continue)
        },
        (AuthState::DrainingSessionInfo, Message::AuthenticationOk) => Ok(AuthAction::Continue),
        (AuthState::DrainingSessionInfo, Message::ReadyForQuery(_)) => {
            startup.state = AuthState::Ready;
            Ok(AuthAction::Complete)
        },
        (_, Message::ErrorResponse(fields)) => {
            startup.state = AuthState::Failed;
            Err(AuthError::Backend(format_error(&fields)))
        },
        (_, _) => {
            startup.state = AuthState::Failed;
            Err(AuthError::UnexpectedMessage)
        },
    }
}

/// The place of a state in the order in which the handshake passes
/// through its states.
pub open spec fn rank(state: AuthState) -> int {
    match state {
        AuthState::Start => 0,
        AuthState::Auth => 1,
        AuthState::SaslContinue => 2,
        AuthState::SaslFinal => 3,
        AuthState::DrainingSessionInfo => 4,
        AuthState::Ready => 5,
        AuthState::Failed => 6,
    }
}

/// The handshake only moves forward: whatever the event and whatever the
/// outcome of the outside work, the next state is never an earlier one; it
/// is the same one only while session information is collected and once
/// the handshake has ended. A handshake that has ended stays as it is and
/// answers every event with an error.
pub proof fn lemma_handshake_moves_forward(state: AuthState, event: AuthEventView, succeeded: bool)
    ensures
        rank(next_state(state, event, succeeded)) >= rank(state),
        next_state(state, event, succeeded) == state ==> is_terminal(state) || (state
            is DrainingSessionInfo && ruling(state, event) is Collect),
        is_terminal(state) ==> next_state(state, event, succeeded) == state && ruling(state, event)
            == Ruling::Fatal(AuthErrorView::OutOfOrder),
{
}

/// The channel is ready only after the server was verified: `Ready` is
/// entered only from the draining of session information, on the
/// backend's `ReadyForQuery`, and the draining only from the state that
/// awaits the server's final message, on that message and on its
/// successful verification.
pub proof fn lemma_ready_only_after_verification(
    state: AuthState,
    event: AuthEventView,
    succeeded: bool,
)
    ensures
        next_state(state, event, succeeded) is Ready ==> state is Ready || (state
            is DrainingSessionInfo && event is Message && event->Message_0 is ReadyForQuery),
        next_state(state, event, succeeded) is DrainingSessionInfo ==> state
            is DrainingSessionInfo || (state is SaslFinal && succeeded && event is Message
            && event->Message_0 is AuthenticationSaslFinal),
        next_state(state, event, succeeded) is SaslFinal ==> state is SaslContinue && succeeded
            && event is Message && event->Message_0 is AuthenticationSaslContinue,
        next_state(state, event, succeeded) is SaslContinue ==> state is Auth && succeeded
            && event == AuthEventView::Message(MessageView::AuthenticationSasl),
{
}

/// The state and the session information of a started handshake that is
/// handed `events` one after the other, every step succeeding. The other
/// fields are those of `before`: of the exchange itself nothing is said.
pub open spec fn driven(before: StartupView, events: Seq<AuthEventView>) -> StartupView
    decreases events.len(),
{
    if events.len() == 0 {
        before
    } else {
        driven(
            StartupView {
                state: next_state(before.state, events[0], true),
                ..collected(before, events[0])
            },
            events.skip(1),
        )
    }
}

/// The successful exchange ends `Ready` with what the backend reported:
/// after the startup message, the request for SASL, the server's first
/// and final messages, `AuthenticationOk`, the backend's key, a parameter
/// status and `ReadyForQuery`, in this order and with the SCRAM exchange
/// succeeding, lead to `Ready`, and the parameter and the key are
/// collected.
pub proof fn lemma_successful_exchange_ends_ready(
    before: StartupView,
    server_first: Seq<u8>,
    server_final: Seq<u8>,
    process_id: i32,
    secret_key: i32,
    name: Seq<char>,
    value: Seq<char>,
    status: u8,
)
    requires
        before.state is Auth,
    ensures
        ({
            let after = driven(
                before,
                seq![
                    AuthEventView::Message(MessageView::AuthenticationSasl),
                    AuthEventView::Message(MessageView::AuthenticationSaslContinue(server_first)),
                    AuthEventView::Message(MessageView::AuthenticationSaslFinal(server_final)),
                    AuthEventView::Message(MessageView::AuthenticationOk),
                    AuthEventView::Message(MessageView::BackendKeyData { process_id, secret_key }),
                    AuthEventView::Message(MessageView::ParameterStatus { name, value }),
                    AuthEventView::Message(MessageView::ReadyForQuery(status)),
                ],
            );
            &&& after.state is Ready
            &&& after.parameters == before.parameters.push((name, value))
            &&& after.backend_key == Some((process_id, secret_key))
        }),
{
    reveal_with_fuel(driven, 8);
    let events = seq![
        AuthEventView::Message(MessageView::AuthenticationSasl),
        AuthEventView::Message(MessageView::AuthenticationSaslContinue(server_first)),
        AuthEventView::Message(MessageView::AuthenticationSaslFinal(server_final)),
        AuthEventView::Message(MessageView::AuthenticationOk),
        AuthEventView::Message(MessageView::BackendKeyData { process_id, secret_key }),
        AuthEventView::Message(MessageView::ParameterStatus { name, value }),
        AuthEventView::Message(MessageView::ReadyForQuery(status)),
    ];
    assert(events.skip(1)[0] == events[1]);
    assert(events.skip(1).skip(1)[0] == events[2]);
    assert(events.skip(1).skip(1).skip(1)[0] == events[3]);
    assert(events.skip(1).skip(1).skip(1).skip(1)[0] == events[4]);
    assert(events.skip(1).skip(1).skip(1).skip(1).skip(1)[0] == events[5]);
    assert(events.skip(1).skip(1).skip(1).skip(1).skip(1).skip(1)[0] == events[6]);
    assert(events.skip(1).skip(1).skip(1).skip(1).skip(1).skip(1).skip(1).len() == 0);
}

/// An `ErrorResponse` that arrives at any point after the startup message,
/// in place of the authentication request, during the SASL exchange or
/// while the session information is collected, fails the handshake for
/// good, with the text built from its fields.
pub proof fn lemma_error_response_is_fatal(
    state: AuthState,
    fields: Seq<(u8, Seq<u8>)>,
    succeeded: bool,
)
    requires
        state is Auth || state is SaslContinue || state is SaslFinal || state
            is DrainingSessionInfo,
    ensures
        ruling(state, AuthEventView::Message(MessageView::ErrorResponse(fields))) == Ruling::Fatal(
            AuthErrorView::Backend(error_text(fields)),
        ),
        next_state(state, AuthEventView::Message(MessageView::ErrorResponse(fields)), succeeded)
            is Failed,
{
}

/// The text of a backend error holds the value of every field, whole.
pub proof fn lemma_error_text_holds_every_value(fields: Seq<(u8, Seq<u8>)>, i: int)
    requires
        0 <= i < fields.len(),
    ensures
        exists|at: int|
            0 <= at && at + fields[i].1.len() <= error_text(fields).len() && #[trigger] error_text(
                fields,
            ).subrange(at, at + fields[i].1.len()) == fields[i].1,
    decreases fields.len(),
{
    let text = error_text(fields);
    let front = fields.drop_last();
    let value = fields.last().1;
    assert(text =~= error_text(front) + value + seq![0x20u8]);
    if i == fields.len() - 1 {
        let at = error_text(front).len() as int;
        assert(text.subrange(at, at + value.len()) =~= value);
    } else {
        lemma_error_text_holds_every_value(front, i);
        let at = choose|at: int|
            0 <= at && at + front[i].1.len() <= error_text(front).len() && #[trigger] error_text(
                front,
            ).subrange(at, at + front[i].1.len()) == front[i].1;
        assert(text.subrange(at, at + fields[i].1.len()) =~= error_text(front).subrange(
            at,
            at + front[i].1.len(),
        ));
    }
}

} // verus!
