//! The backend messages that the tunnel's client consumes, and their
//! extraction from one complete frame by `postgres_protocol`.

use crate::buffer::buffered;
use crate::error::ProtocolError;
use crate::frame::is_frame;
use bytes::BytesMut;
use fallible_iterator::FallibleIterator;
use postgres_protocol::message::backend::Message as Wire;
use postgres_protocol::message::backend::CommandCompleteBody;
use postgres_protocol::message::backend::ErrorFields;
use postgres_protocol::message::backend::ErrorResponseBody;
use postgres_protocol::message::backend::ParameterStatusBody;
use vstd::prelude::*;

verus! {

/// One backend message, with what the tunnel reads of it.
#[derive(Debug, Clone, PartialEq, Eq)]
pub enum Message {
    AuthenticationOk,
    AuthenticationSasl,
    /// The server-first SCRAM message.
    AuthenticationSaslContinue(Vec<u8>),
    /// The server-final SCRAM message.
    AuthenticationSaslFinal(Vec<u8>),
    BackendKeyData { process_id: i32, secret_key: i32 },
    ParameterStatus { name: String, value: String },
    /// The transaction status byte.
    ReadyForQuery(u8),
    /// The fields of the response, each with its type byte and its value.
    ErrorResponse(Vec<(u8, Vec<u8>)>),
    /// The values of one row, as they stand on the wire behind the count
    /// of the columns.
    DataRow(Vec<u8>),
    /// The tag of the command that was completed.
    CommandComplete(String),
    /// Any other message of the backend's catalog.
    Unsupported,
}

/// The mathematical content of a [`Message`].
pub ghost enum MessageView {
    AuthenticationOk,
    AuthenticationSasl,
    AuthenticationSaslContinue(Seq<u8>),
    AuthenticationSaslFinal(Seq<u8>),
    BackendKeyData { process_id: i32, secret_key: i32 },
    ParameterStatus { name: Seq<char>, value: Seq<char> },
    ReadyForQuery(u8),
    ErrorResponse(Seq<(u8, Seq<u8>)>),
    DataRow(Seq<u8>),
    CommandComplete(Seq<char>),
    Unsupported,
}

/// The fields of an error response as sequences.
pub open spec fn fields_view(fields: Seq<(u8, Vec<u8>)>) -> Seq<(u8, Seq<u8>)> {
    Seq::new(fields.len(), |i: int| (fields[i].0, fields[i].1@))
}

impl View for Message {
    type V = MessageView;

    open spec fn view(&self) -> MessageView {
        match *self {
            Message::AuthenticationOk => MessageView::AuthenticationOk,
            Message::AuthenticationSasl => MessageView::AuthenticationSasl,
            Message::AuthenticationSaslContinue(data) => MessageView::AuthenticationSaslContinue(
                data@,
            ),
            Message::AuthenticationSaslFinal(data) => MessageView::AuthenticationSaslFinal(data@),
            Message::BackendKeyData { process_id, secret_key } => MessageView::BackendKeyData {
                process_id,
                secret_key,
            },
            Message::ParameterStatus { name, value } => MessageView::ParameterStatus {
                name: name@,
                value: value@,
            },
            Message::ReadyForQuery(status) => MessageView::ReadyForQuery(status),
            Message::ErrorResponse(fields) => MessageView::ErrorResponse(fields_view(fields@)),
            Message::DataRow(values) => MessageView::DataRow(values@),
            Message::CommandComplete(tag) => MessageView::CommandComplete(tag@),
            Message::Unsupported => MessageView::Unsupported,
        }
    }
}

/// The body of a `ParameterStatus` message, as `postgres_protocol` holds it.
#[verifier::external_type_specification]
#[verifier::external_body]
pub struct ExParameterStatusBody(ParameterStatusBody);

/// The body of an `ErrorResponse` message, as `postgres_protocol` holds it.
#[verifier::external_type_specification]
#[verifier::external_body]
pub struct ExErrorResponseBody(ErrorResponseBody);

/// The body of a `CommandComplete` message, as `postgres_protocol` holds
/// it.
#[verifier::external_type_specification]
#[verifier::external_body]
pub struct ExCommandCompleteBody(CommandCompleteBody);

/// The iterator over the fields of an `ErrorResponse` body.
#[verifier::external_type_specification]
#[verifier::external_body]
pub struct ExErrorFields<'a>(ErrorFields<'a>);

/// A message as the outside parser hands it over: three of the bodies are
/// still unopened.
pub enum RawMessage {
    AuthenticationOk,
    AuthenticationSasl,
    AuthenticationSaslContinue(Vec<u8>),
    AuthenticationSaslFinal(Vec<u8>),
    BackendKeyData(i32, i32),
    ParameterStatus(ParameterStatusBody),
    ReadyForQuery(u8),
    ErrorResponse(ErrorResponseBody),
    DataRow(Vec<u8>),
    CommandComplete(CommandCompleteBody),
    Unsupported,
}

/// The message that one complete frame holds; `None` where it holds none:
/// an unknown tag, or a body that is truncated, too long or unparseable.
pub uninterp spec fn backend_message(frame: Seq<u8>) -> Option<MessageView>;

/// The name of a parameter status, `None` where it is not UTF-8.
pub uninterp spec fn status_name(body: ParameterStatusBody) -> Option<Seq<char>>;

/// The value of a parameter status, `None` where it is not UTF-8.
pub uninterp spec fn status_value(body: ParameterStatusBody) -> Option<Seq<char>>;

/// The tag of a completed command, `None` where it is not UTF-8.
pub uninterp spec fn command_tag(body: CommandCompleteBody) -> Option<Seq<char>>;

/// The fields of an error response, in order, up to the first that cannot
/// be read.
pub uninterp spec fn body_fields(body: ErrorResponseBody) -> Seq<(u8, Seq<u8>)>;

/// The fields that an iterator has yet to hand out before it first hands
/// out none.
pub uninterp spec fn fields_ahead(fields: ErrorFields<'_>) -> Seq<(u8, Seq<u8>)>;

/// What a raw message holds once its bodies are opened.
pub open spec fn raw_content(raw: RawMessage) -> Option<MessageView> {
    match raw {
        RawMessage::AuthenticationOk => Some(MessageView::AuthenticationOk),
        RawMessage::AuthenticationSasl => Some(MessageView::AuthenticationSasl),
        RawMessage::AuthenticationSaslContinue(data) => Some(
            MessageView::AuthenticationSaslContinue(data@),
        ),
        RawMessage::AuthenticationSaslFinal(data) => Some(
            MessageView::AuthenticationSaslFinal(data@),
        ),
        RawMessage::BackendKeyData(process_id, secret_key) => Some(
            MessageView::BackendKeyData { process_id, secret_key },
        ),
        RawMessage::ParameterStatus(body) => match (status_name(body), status_value(body)) {
            (Some(name), Some(value)) => Some(MessageView::ParameterStatus { name, value }),
            _ => None,
        },
        RawMessage::ReadyForQuery(status) => Some(MessageView::ReadyForQuery(status)),
        RawMessage::ErrorResponse(body) => Some(MessageView::ErrorResponse(body_fields(body))),
        RawMessage::DataRow(values) => Some(MessageView::DataRow(values@)),
        RawMessage::CommandComplete(body) => match command_tag(body) {
            Some(tag) => Some(MessageView::CommandComplete(tag)),
            None => None,
        },
        RawMessage::Unsupported => Some(MessageView::Unsupported),
    }
}

/// Calls `postgres_protocol::message::backend::Message::parse` on a buffer
/// that holds exactly one complete frame, and tells the variants apart.
/// The outcome depends on the frame's bytes alone: an error where the frame
/// holds no message, else the message. As the source shows, a complete
/// frame never yields "incomplete", and the frame is consumed.
#[verifier::external_body]
pub(crate) fn parse_frame(frame: &mut BytesMut) -> (r: Result<Option<RawMessage>, std::io::Error>)
    requires
        is_frame(buffered(*old(frame))),
    ensures
        match r {
            Ok(Some(raw)) => raw_content(raw) == backend_message(buffered(*old(frame))),
            Ok(None) => false,
            Err(_) => backend_message(buffered(*old(frame))) is None,
        },
{
    Ok(Wire::parse(frame)?.map(|m| match m {
        Wire::AuthenticationOk => RawMessage::AuthenticationOk,
        Wire::AuthenticationSasl(_) => RawMessage::AuthenticationSasl,
        Wire::AuthenticationSaslContinue(b) => RawMessage::AuthenticationSaslContinue(b.data().to_vec()),
        Wire::AuthenticationSaslFinal(b) => RawMessage::AuthenticationSaslFinal(b.data().to_vec()),
        Wire::BackendKeyData(b) => RawMessage::BackendKeyData(b.process_id(), b.secret_key()),
        Wire::ParameterStatus(b) => RawMessage::ParameterStatus(b),
        Wire::ReadyForQuery(b) => RawMessage::ReadyForQuery(b.status()),
        Wire::ErrorResponse(b) => RawMessage::ErrorResponse(b),
        Wire::DataRow(b) => RawMessage::DataRow(b.buffer().to_vec()),
        Wire::CommandComplete(b) => RawMessage::CommandComplete(b),
        _ => RawMessage::Unsupported,
    }))
}

/// Calls `ParameterStatusBody::name`: the name, or an error where it is not
/// UTF-8.
#[verifier::external_body]
pub(crate) fn parameter_name(body: &ParameterStatusBody) -> (r: Result<String, std::io::Error>)
    ensures
        match r {
            Ok(name) => status_name(*body) == Some(name@),
            Err(_) => status_name(*body) is None,
        },
{
    Ok(body.name()?.to_string())
}

/// Calls `ParameterStatusBody::value`: the value, or an error where it is
/// not UTF-8.
#[verifier::external_body]
pub(crate) fn parameter_value(body: &ParameterStatusBody) -> (r: Result<String, std::io::Error>)
    ensures
        match r {
            Ok(value) => status_value(*body) == Some(value@),
            Err(_) => status_value(*body) is None,
        },
{
    Ok(body.value()?.to_string())
}

/// Calls `CommandCompleteBody::tag`: the tag, or an error where it is not
/// UTF-8.
#[verifier::external_body]
pub(crate) fn completed_tag(body: &CommandCompleteBody) -> (r: Result<String, std::io::Error>)
    ensures
        match r {
            Ok(tag) => command_tag(*body) == Some(tag@),
            Err(_) => command_tag(*body) is None,
        },
{
    Ok(body.tag()?.to_string())
}

/// Calls `ErrorResponseBody::fields`: an iterator that has all the fields
/// of the body ahead of it.
#[verifier::external_body]
pub(crate) fn error_fields<'a>(body: &'a ErrorResponseBody) -> (fields: ErrorFields<'a>)
    ensures
        fields_ahead(fields) == body_fields(*body),
{
    body.fields()
}

/// Calls `FallibleIterator::next` on `ErrorFields`. A field comes out with
/// its type byte and its value, and is then no longer ahead; at the end of
/// the list nothing comes out; where the next field cannot be read the
/// error of the call comes out. In both of these no field is ahead.
#[verifier::external_body]
pub(crate) fn next_field(fields: &mut ErrorFields<'_>) -> (r: Result<
    Option<(u8, Vec<u8>)>,
    std::io::Error,
>)
    ensures
        match r {
            Ok(Some(field)) => {
                &&& fields_ahead(*old(fields)).len() > 0
                &&& fields_ahead(*old(fields))[0] == (field.0, field.1@)
                &&& fields_ahead(*final(fields)) == fields_ahead(*old(fields)).skip(1)
            },
            Ok(None) => fields_ahead(*old(fields)).len() == 0,
            Err(_) => fields_ahead(*old(fields)).len() == 0,
        },
{
    Ok(fields.next()?.map(|field| (field.type_(), field.value_bytes().to_vec())))
}

/// Reads the fields of an error response, in order, and stops at the end
/// of the list or at the first field that cannot be read.
pub(crate) fn read_fields(body: &ErrorResponseBody) -> (out: Vec<(u8, Vec<u8>)>)
    ensures
        fields_view(out@) == body_fields(*body),
{
    let mut fields = error_fields(body);
    let mut out: Vec<(u8, Vec<u8>)> = Vec::new();
    proof {
        assert(fields_view(out@) + fields_ahead(fields) =~= fields_ahead(fields));
    }
    loop
        invariant_except_break
            fields_view(out@) + fields_ahead(fields) == body_fields(*body),
        ensures
            fields_view(out@) == body_fields(*body),
        decreases fields_ahead(fields).len(),
    {
        let ghost before = out@;
        let ghost ahead = fields_ahead(fields);
        match next_field(&mut fields) {
            Ok(Some(field)) => {
                out.push(field);
                proof {
                    assert(fields_view(out@) =~= fields_view(before).push(ahead[0]));
                    assert(fields_view(before).push(ahead[0]) + ahead.skip(1) =~= fields_view(
                        before,
                    ) + ahead);
                }
            },
            Ok(None) => {
                proof {
                    assert(fields_view(out@) + ahead =~= fields_view(out@));
                }
                break ;
            },
            Err(_) => {
                proof {
                    assert(fields_view(out@) + ahead =~= fields_view(out@));
                }
                break ;
            },
        }
    }
    out
}

/// Opens the bodies of a raw message. A `ParameterStatus` whose name or
/// value is not UTF-8 is a malformed body, and so is a `CommandComplete`
/// whose tag is not.
pub(crate) fn open_message(raw: RawMessage) -> (r: Result<Message, ProtocolError>)
    ensures
        match raw_content(raw) {
            Some(content) => r is Ok && r->Ok_0@ == content,
            None => r == Err::<Message, ProtocolError>(ProtocolError::MalformedBody),
        },
{
    match raw {
        RawMessage::AuthenticationOk => Ok(Message::AuthenticationOk),
        RawMessage::AuthenticationSasl => Ok(Message::AuthenticationSasl),
        RawMessage::AuthenticationSaslContinue(data) => Ok(
            Message::AuthenticationSaslContinue(data),
        ),
        RawMessage::AuthenticationSaslFinal(data) => Ok(Message::AuthenticationSaslFinal(data)),
        RawMessage::BackendKeyData(process_id, secret_key) => Ok(
            Message::BackendKeyData { process_id, secret_key },
        ),
        RawMessage::ParameterStatus(body) => {
            match parameter_name(&body) {
                Ok(name) => match parameter_value(&body) {
                    Ok(value) => Ok(Message::ParameterStatus { name, value }),
                    Err(_) => Err(ProtocolError::MalformedBody),
                },
                Err(_) => Err(ProtocolError::MalformedBody),
            }
        },
        RawMessage::ReadyForQuery(status) => Ok(Message::ReadyForQuery(status)),
        RawMessage::ErrorResponse(body) => Ok(Message::ErrorResponse(read_fields(&body))),
        RawMessage::DataRow(values) => Ok(Message::DataRow(values)),
        RawMessage::CommandComplete(body) => match completed_tag(&body) {
            Ok(tag) => Ok(Message::CommandComplete(tag)),
            Err(_) => Err(ProtocolError::MalformedBody),
        },
        RawMessage::Unsupported => Ok(Message::Unsupported),
    }
}

} // verus!
