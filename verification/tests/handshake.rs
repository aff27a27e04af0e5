use base64::engine::general_purpose::STANDARD;
use base64::Engine;
use hmac::Hmac;
use hmac::KeyInit;
use hmac::Mac;
use pg_tunnel::connection::Connection;
use pg_tunnel::connection::Decoded;
use pg_tunnel::connection::Delivery;
use pg_tunnel::error::AuthError;
use pg_tunnel::error::ProtocolError;
use pg_tunnel::message::Message;
use pg_tunnel::startup::format_error;
use pg_tunnel::startup::sasl;
use pg_tunnel::startup::sasl_sent;
use pg_tunnel::startup::sasl_verified;
use pg_tunnel::startup::AuthAction;
use pg_tunnel::startup::AuthEvent;
use pg_tunnel::startup::AuthState;
use pg_tunnel::startup::Startup;
use pg_tunnel::startup_message::parse_startup_message;
use sha2::Sha256;

const PASSWORD: &[u8] = b"supersecretpassword";

fn frame(tag: u8, body: &[u8]) -> Vec<u8> {
    let mut out = vec![tag];
    out.extend_from_slice(&((body.len() as u32 + 4).to_be_bytes()));
    out.extend_from_slice(body);
    out
}

fn authentication(code: u32, data: &[u8]) -> Vec<u8> {
    let mut body = code.to_be_bytes().to_vec();
    body.extend_from_slice(data);
    frame(b'R', &body)
}

fn parameter_status(name: &str, value: &str) -> Vec<u8> {
    let mut body = Vec::new();
    body.extend_from_slice(name.as_bytes());
    body.push(0);
    body.extend_from_slice(value.as_bytes());
    body.push(0);
    frame(b'S', &body)
}

fn error_response() -> Vec<u8> {
    frame(b'E', b"SFATAL\0Mpassword authentication failed\0\0")
}

fn contains(text: &[u8], part: &[u8]) -> bool {
    text.windows(part.len()).any(|w| w == part)
}

fn params() -> Vec<(String, String)> {
    vec![
        ("client_encoding".to_string(), "UTF8".to_string()),
        ("user".to_string(), "postgres".to_string()),
        ("database".to_string(), "postgres".to_string()),
        ("application_name".to_string(), "webtransport".to_string()),
    ]
}

fn sent(action: Result<AuthAction, AuthError>) -> Vec<u8> {
    match action {
        Ok(AuthAction::Send(bytes)) => bytes,
        other => panic!("nothing to send: {:?}", other),
    }
}

/// A handshake that has sent its startup message.
fn started() -> Startup {
    let mut startup = Startup::new(Connection::new(), PASSWORD.to_vec());
    sent(startup.start(&params()));
    assert_eq!(startup.state(), AuthState::Auth);
    startup
}

/// The client's first message out of an initial response.
fn client_first(initial: &[u8]) -> String {
    assert_eq!(initial[0], b'p');
    let declared = u32::from_be_bytes([initial[1], initial[2], initial[3], initial[4]]) as usize;
    assert_eq!(declared + 1, initial.len());
    let mechanism = b"SCRAM-SHA-256\0";
    assert_eq!(&initial[5..5 + mechanism.len()], mechanism);
    let at = 5 + mechanism.len();
    let length =
        u32::from_be_bytes([initial[at], initial[at + 1], initial[at + 2], initial[at + 3]])
            as usize;
    assert_eq!(at + 4 + length, initial.len());
    String::from_utf8(initial[at + 4..].to_vec()).unwrap()
}

/// The client's message out of a SASL response.
fn client_final(response: &[u8]) -> String {
    assert_eq!(response[0], b'p');
    let declared =
        u32::from_be_bytes([response[1], response[2], response[3], response[4]]) as usize;
    assert_eq!(declared + 1, response.len());
    String::from_utf8(response[5..].to_vec()).unwrap()
}

/// The server's side of the exchange, from the verifier that a backend
/// would have stored for the password.
struct Server {
    salt: String,
    server_key: Vec<u8>,
}

impl Server {
    fn new() -> Server {
        let verifier = postgres_protocol::password::scram_sha_256(PASSWORD);
        let parts: Vec<&str> = verifier.split('$').collect();
        assert_eq!(parts[0], "SCRAM-SHA-256");
        let salt = parts[1].split(':').nth(1).unwrap().to_string();
        assert_eq!(parts[1].split(':').next().unwrap(), "4096");
        let server_key = STANDARD.decode(parts[2].split(':').nth(1).unwrap()).unwrap();
        Server { salt, server_key }
    }

    fn first(&self, nonce: &str) -> String {
        format!("r={}serverside,s={},i=4096", nonce, self.salt)
    }

    fn last(&self, nonce: &str, first: &str, client_final: &str) -> String {
        let bare = &client_final[..client_final.find(",p=").unwrap()];
        let auth_message = format!("n=,r={},{},{}", nonce, first, bare);
        let mut mac = Hmac::<Sha256>::new_from_slice(&self.server_key).unwrap();
        mac.update(auth_message.as_bytes());
        format!("v={}", STANDARD.encode(mac.finalize().into_bytes()))
    }
}

/// Drives a started handshake up to the state `SaslFinal` and returns the
/// server's final message.
fn exchange(startup: &mut Startup) -> String {
    let initial = sent(startup.receive(Delivery::Chunk(authentication(10, b"SCRAM-SHA-256\0\0"))));
    assert_eq!(startup.state(), AuthState::SaslContinue);
    let first = client_first(&initial);
    assert!(first.starts_with("n,,n=,r="));
    let nonce = first["n,,n=,r=".len()..].to_string();
    assert_eq!(nonce.len(), 24);
    let server = Server::new();
    let server_first = server.first(&nonce);
    let response =
        sent(startup.receive(Delivery::Chunk(authentication(11, server_first.as_bytes()))));
    assert_eq!(startup.state(), AuthState::SaslFinal);
    let last = client_final(&response);
    assert!(last.starts_with(&format!("c=biws,r={}serverside,p=", nonce)));
    server.last(&nonce, &server_first, &last)
}

/// A handshake in the state `DrainingSessionInfo`.
fn verified() -> Startup {
    let mut startup = started();
    let server_final = exchange(&mut startup);
    assert_eq!(
        startup.receive(Delivery::Chunk(authentication(12, server_final.as_bytes()))),
        Ok(AuthAction::Continue)
    );
    assert_eq!(startup.state(), AuthState::DrainingSessionInfo);
    startup
}

#[test]
fn start_sends_the_startup_message() {
    let mut startup = Startup::new(Connection::new(), PASSWORD.to_vec());
    assert_eq!(startup.state(), AuthState::Start);
    let bytes = sent(
        startup.start(&vec![("user".to_string(), "postgres".to_string())]),
    );
    assert_eq!(
        bytes,
        vec![
            0, 0, 0, 23, 0, 3, 0, 0, b'u', b's', b'e', b'r', 0, b'p', b'o', b's', b't', b'g', b'r',
            b'e', b's', 0, 0
        ]
    );
    assert_eq!(startup.state(), AuthState::Auth);
}

#[test]
fn startup_message_is_read_back_in_order() {
    let mut startup = Startup::new(Connection::new(), PASSWORD.to_vec());
    let bytes = sent(startup.start(&params()));
    let expected: Vec<(Vec<u8>, Vec<u8>)> = params()
        .into_iter()
        .map(|(k, v)| (k.into_bytes(), v.into_bytes()))
        .collect();
    assert_eq!(parse_startup_message(&bytes), Some(expected));
}

#[test]
fn parameters_with_a_zero_byte_are_invalid() {
    let mut startup = Startup::new(Connection::new(), PASSWORD.to_vec());
    let r = startup.start(&vec![("us\0er".to_string(), "postgres".to_string())]);
    assert_eq!(r, Err(AuthError::InvalidParameters));
    assert_eq!(startup.state(), AuthState::Failed);
}

#[test]
fn starting_twice_is_out_of_order() {
    let mut startup = started();
    assert_eq!(startup.start(&params()), Err(AuthError::OutOfOrder));
    assert_eq!(startup.state(), AuthState::Failed);
}

#[test]
fn a_message_before_the_start_is_out_of_order() {
    let mut startup = Startup::new(Connection::new(), PASSWORD.to_vec());
    assert_eq!(
        startup.advance(AuthEvent::Message(Message::AuthenticationSasl)),
        Err(AuthError::OutOfOrder)
    );
    assert_eq!(startup.state(), AuthState::Failed);
}

#[test]
fn only_sasl_is_accepted_as_authentication() {
    let mut startup = started();
    assert_eq!(
        startup.receive(Delivery::Chunk(authentication(3, &[]))),
        Err(AuthError::UnsupportedAuthMethod)
    );
    assert_eq!(startup.state(), AuthState::Failed);
    let mut startup = started();
    assert_eq!(
        startup.advance(AuthEvent::Message(Message::AuthenticationOk)),
        Err(AuthError::UnsupportedAuthMethod)
    );
}

#[test]
fn closure_before_authentication_is_fatal() {
    let mut startup = started();
    assert_eq!(startup.receive(Delivery::End), Err(AuthError::ConnectionClosed));
    assert_eq!(startup.state(), AuthState::Failed);
}

#[test]
fn a_partial_message_asks_for_a_read() {
    let mut startup = started();
    let bytes = authentication(10, b"SCRAM-SHA-256\0\0");
    assert_eq!(startup.receive(Delivery::Chunk(bytes[..7].to_vec())), Ok(AuthAction::Read));
    assert_eq!(startup.state(), AuthState::Auth);
    let initial = sent(startup.receive(Delivery::Chunk(bytes[7..].to_vec())));
    assert!(client_first(&initial).starts_with("n,,n=,r="));
}

#[test]
fn a_malformed_header_fails_the_handshake() {
    let mut startup = started();
    assert_eq!(
        startup.receive(Delivery::Chunk(vec![b'R', 0, 0, 0, 1])),
        Err(AuthError::Protocol(ProtocolError::MalformedHeader))
    );
    assert_eq!(startup.state(), AuthState::Failed);
}

#[test]
fn a_malformed_body_fails_the_handshake() {
    let mut startup = started();
    assert_eq!(
        startup.receive(Delivery::Chunk(authentication(77, &[]))),
        Err(AuthError::Protocol(ProtocolError::MalformedBody))
    );
    assert_eq!(startup.state(), AuthState::Failed);
}

#[test]
fn successful_exchange_ends_ready_with_the_server_version() {
    let mut startup = started();
    let server_final = exchange(&mut startup);
    let mut chunk = authentication(12, server_final.as_bytes());
    chunk.extend_from_slice(&authentication(0, &[]));
    chunk.extend_from_slice(&frame(b'K', &[0, 0, 0, 42, 0, 0, 1, 0]));
    chunk.extend_from_slice(&parameter_status("server_version", "16.0"));
    chunk.extend_from_slice(&frame(b'Z', b"I"));
    assert_eq!(startup.receive(Delivery::Chunk(chunk)), Ok(AuthAction::Continue));
    assert_eq!(startup.state(), AuthState::DrainingSessionInfo);
    assert_eq!(startup.receive(Delivery::Nothing), Ok(AuthAction::Continue));
    assert_eq!(startup.receive(Delivery::Nothing), Ok(AuthAction::Continue));
    assert_eq!(startup.backend_key(), Some((42, 256)));
    assert_eq!(startup.receive(Delivery::Nothing), Ok(AuthAction::Continue));
    assert_eq!(startup.state(), AuthState::DrainingSessionInfo);
    assert_eq!(startup.receive(Delivery::Nothing), Ok(AuthAction::Complete));
    assert_eq!(startup.state(), AuthState::Ready);
    assert_eq!(
        startup.parameters(),
        &vec![("server_version".to_string(), "16.0".to_string())]
    );
    let channel = startup.finish().ok().unwrap();
    assert_eq!(
        channel.parameters(),
        &vec![("server_version".to_string(), "16.0".to_string())]
    );
    assert_eq!(channel.backend_key(), Some((42, 256)));
    assert_eq!(channel.pending_len(), 0);
}

#[test]
fn an_authenticated_channel_decodes_what_follows_the_handshake() {
    let mut startup = verified();
    let mut chunk = frame(b'Z', b"I");
    chunk.extend_from_slice(&parameter_status("TimeZone", "UTC"));
    chunk.extend_from_slice(&[b'Z', 0]);
    assert_eq!(startup.receive(Delivery::Chunk(chunk)), Ok(AuthAction::Complete));
    assert_eq!(startup.connection().pending_len(), 20);
    let mut channel = startup.finish().ok().unwrap();
    assert_eq!(channel.pending_len(), 20);
    assert_eq!(
        channel.decode(Delivery::Nothing),
        Ok(Decoded::Message(Message::ParameterStatus {
            name: "TimeZone".to_string(),
            value: "UTC".to_string(),
        }))
    );
    assert_eq!(channel.decode(Delivery::Nothing), Ok(Decoded::NeedChunk));
    assert_eq!(channel.decode(Delivery::End), Ok(Decoded::Closed));
    assert_eq!(channel.parameters(), &Vec::<(String, String)>::new());
    assert_eq!(channel.into_connection().pending_bytes(), vec![b'Z', 0]);
}

#[test]
fn a_ready_handshake_takes_no_more_events() {
    let mut startup = verified();
    assert_eq!(
        startup.receive(Delivery::Chunk(frame(b'Z', b"I"))),
        Ok(AuthAction::Complete)
    );
    assert_eq!(startup.receive(Delivery::Chunk(frame(b'Z', b"I"))), Err(AuthError::OutOfOrder));
    assert_eq!(startup.state(), AuthState::Ready);
    assert_eq!(startup.advance(AuthEvent::Closed), Err(AuthError::OutOfOrder));
    assert_eq!(startup.state(), AuthState::Ready);
    assert_eq!(startup.start(&params()), Err(AuthError::OutOfOrder));
    assert_eq!(startup.state(), AuthState::Ready);
}

#[test]
fn the_channel_cannot_be_had_before_ready() {
    let startup = started();
    assert!(matches!(startup.finish(), Err(AuthError::OutOfOrder)));
    let startup = verified();
    assert!(matches!(startup.finish(), Err(AuthError::OutOfOrder)));
}

#[test]
fn error_response_in_place_of_the_authentication_request_is_fatal() {
    let mut startup = Startup::new(Connection::new(), PASSWORD.to_vec());
    sent(startup.start(&vec![("user".to_string(), "postgres".to_string())]));
    let response = error_response();
    assert_eq!(response.len(), 45);
    assert_eq!(&response[..5], &[b'E', 0, 0, 0, 44]);
    match startup.receive(Delivery::Chunk(response)) {
        Err(AuthError::Backend(text)) => {
            assert!(contains(&text, b"password authentication failed"));
            assert_eq!(text, b"Errors: FATAL password authentication failed ".to_vec());
        }
        other => panic!("unexpected {:?}", other),
    }
    assert_eq!(startup.state(), AuthState::Failed);
    assert_eq!(
        startup.receive(Delivery::Chunk(authentication(10, b"SCRAM-SHA-256\0\0"))),
        Err(AuthError::OutOfOrder)
    );
    assert_eq!(startup.state(), AuthState::Failed);
    let mut startup = started();
    let fields = vec![(b'M', b"password authentication failed".to_vec())];
    match startup.advance(AuthEvent::Message(Message::ErrorResponse(fields))) {
        Err(AuthError::Backend(text)) => {
            assert!(contains(&text, b"password authentication failed"))
        }
        other => panic!("unexpected {:?}", other),
    }
    assert_eq!(startup.state(), AuthState::Failed);
}

#[test]
fn initial_response_is_one_frame_around_the_client_first_message() {
    let mut startup = started();
    let initial = sent(startup.receive(Delivery::Chunk(authentication(10, b"SCRAM-SHA-256\0\0"))));
    assert_eq!(initial.len(), 1 + 4 + 14 + 4 + 32);
    assert_eq!(initial[0], b'p');
    assert_eq!(&initial[1..5], &[0, 0, 0, 54]);
    assert_eq!(&initial[5..19], b"SCRAM-SHA-256\0");
    assert_eq!(&initial[19..23], &[0, 0, 0, 32]);
    assert_eq!(&initial[23..31], b"n,,n=,r=");
    assert!(initial[31..].iter().all(|b| (0x21..=0x7e).contains(b) && *b != b','));
}

#[test]
fn sasl_response_is_one_frame_around_the_client_final_message() {
    let mut startup = started();
    let initial = sent(startup.receive(Delivery::Chunk(authentication(10, b"SCRAM-SHA-256\0\0"))));
    let nonce = client_first(&initial)["n,,n=,r=".len()..].to_string();
    let server_first = format!("r={}xyz,s=c2FsdA==,i=4096", nonce);
    let response =
        sent(startup.receive(Delivery::Chunk(authentication(11, server_first.as_bytes()))));
    assert_eq!(response[0], b'p');
    let declared = u32::from_be_bytes([response[1], response[2], response[3], response[4]]);
    assert_eq!(declared as usize, response.len() - 1);
    assert!(client_final(&response).starts_with(&format!("c=biws,r={}xyz,p=", nonce)));
}

#[test]
fn an_authenticated_channel_encodes_without_touching_what_is_pending() {
    let mut startup = verified();
    let mut chunk = frame(b'Z', b"I");
    chunk.extend_from_slice(&[b'C', 0]);
    assert_eq!(startup.receive(Delivery::Chunk(chunk)), Ok(AuthAction::Complete));
    let channel = startup.finish().ok().unwrap();
    let data = bytes::BytesMut::from(&b"S\x00\x00\x00\x04"[..]);
    assert_eq!(channel.encode(data), Ok(vec![b'S', 0, 0, 0, 4]));
    assert_eq!(channel.pending_len(), 2);
}

#[test]
fn error_response_to_the_initial_response_is_fatal() {
    let mut startup = started();
    sent(startup.receive(Delivery::Chunk(authentication(10, b"SCRAM-SHA-256\0\0"))));
    let r = startup.receive(Delivery::Chunk(error_response()));
    match r {
        Err(AuthError::Backend(text)) => {
            assert!(contains(&text, b"password authentication failed"));
            assert_eq!(text, b"Errors: FATAL password authentication failed ".to_vec());
        }
        other => panic!("unexpected {:?}", other),
    }
    assert_eq!(startup.state(), AuthState::Failed);
    assert_eq!(
        startup.receive(Delivery::Chunk(authentication(11, b"r=x"))),
        Err(AuthError::OutOfOrder)
    );
    assert_eq!(startup.state(), AuthState::Failed);
}

#[test]
fn error_response_to_the_final_message_is_fatal() {
    let mut startup = started();
    exchange(&mut startup);
    let r = startup.receive(Delivery::Chunk(error_response()));
    match r {
        Err(AuthError::Backend(text)) => {
            assert!(contains(&text, b"password authentication failed"))
        }
        other => panic!("unexpected {:?}", other),
    }
    assert_eq!(startup.state(), AuthState::Failed);
    assert_eq!(startup.receive(Delivery::Nothing), Err(AuthError::OutOfOrder));
}

#[test]
fn error_response_while_draining_is_fatal() {
    let mut startup = verified();
    let r = startup.receive(Delivery::Chunk(error_response()));
    match r {
        Err(AuthError::Backend(text)) => {
            assert!(contains(&text, b"password authentication failed"))
        }
        other => panic!("unexpected {:?}", other),
    }
    assert_eq!(startup.state(), AuthState::Failed);
    assert_eq!(
        startup.receive(Delivery::Chunk(frame(b'Z', b"I"))),
        Err(AuthError::OutOfOrder)
    );
    assert_eq!(startup.state(), AuthState::Failed);
}

#[test]
fn unexpected_message_in_the_exchange_is_fatal() {
    let mut startup = started();
    sent(startup.receive(Delivery::Chunk(authentication(10, b"SCRAM-SHA-256\0\0"))));
    assert_eq!(
        startup.receive(Delivery::Chunk(frame(b'Z', b"I"))),
        Err(AuthError::UnexpectedMessage)
    );
    assert_eq!(startup.state(), AuthState::Failed);
    let mut startup = started();
    exchange(&mut startup);
    assert_eq!(
        startup.receive(Delivery::Chunk(authentication(11, b"r=x"))),
        Err(AuthError::UnexpectedMessage)
    );
    let mut startup = verified();
    assert_eq!(
        startup.receive(Delivery::Chunk(frame(b'D', &[0, 0]))),
        Err(AuthError::UnexpectedMessage)
    );
    assert_eq!(startup.state(), AuthState::Failed);
}

#[test]
fn closure_during_the_exchange_is_fatal() {
    let mut startup = started();
    sent(startup.receive(Delivery::Chunk(authentication(10, b"SCRAM-SHA-256\0\0"))));
    assert_eq!(startup.receive(Delivery::End), Err(AuthError::ConnectionClosed));
    assert_eq!(startup.state(), AuthState::Failed);
    let mut startup = verified();
    assert_eq!(startup.receive(Delivery::End), Err(AuthError::ConnectionClosed));
    assert_eq!(startup.state(), AuthState::Failed);
}

#[test]
fn a_server_first_message_with_a_foreign_nonce_is_refused() {
    let mut startup = started();
    sent(startup.receive(Delivery::Chunk(authentication(10, b"SCRAM-SHA-256\0\0"))));
    assert_eq!(
        startup.receive(Delivery::Chunk(authentication(11, b"r=foreign,s=c2FsdA==,i=4096"))),
        Err(AuthError::SaslFailure)
    );
    assert_eq!(startup.state(), AuthState::Failed);
}

#[test]
fn a_server_that_cannot_prove_itself_is_refused() {
    let mut startup = started();
    exchange(&mut startup);
    let forged = format!("v={}", STANDARD.encode([0u8; 32]));
    assert_eq!(
        startup.receive(Delivery::Chunk(authentication(12, forged.as_bytes()))),
        Err(AuthError::SaslFailure)
    );
    assert_eq!(startup.state(), AuthState::Failed);
}

#[test]
fn sasl_is_the_step_after_the_request_for_it() {
    let mut startup = started();
    let initial = sent(sasl(&mut startup, AuthEvent::Message(Message::AuthenticationSasl)));
    assert!(client_first(&initial).starts_with("n,,n=,r="));
    assert_eq!(startup.state(), AuthState::SaslContinue);
}

#[test]
fn outcome_of_a_sasl_message() {
    assert_eq!(
        sasl_sent(AuthState::Auth, Some(vec![1, 2])),
        (AuthState::SaslContinue, Ok(AuthAction::Send(vec![1, 2])))
    );
    assert_eq!(
        sasl_sent(AuthState::SaslContinue, Some(vec![3])),
        (AuthState::SaslFinal, Ok(AuthAction::Send(vec![3])))
    );
    assert_eq!(
        sasl_sent(AuthState::SaslContinue, None),
        (AuthState::Failed, Err(AuthError::SaslFailure))
    );
    assert_eq!(
        sasl_sent(AuthState::Ready, Some(vec![3])),
        (AuthState::Failed, Err(AuthError::SaslFailure))
    );
    assert_eq!(
        sasl_verified(true),
        (AuthState::DrainingSessionInfo, Ok(AuthAction::Continue))
    );
    assert_eq!(sasl_verified(false), (AuthState::Failed, Err(AuthError::SaslFailure)));
}

#[test]
fn error_text_is_the_prefix_and_each_value_with_a_space() {
    assert_eq!(format_error(&vec![]), b"Errors: ".to_vec());
    assert_eq!(
        format_error(&vec![(b'S', b"FATAL".to_vec()), (b'C', b"28P01".to_vec())]),
        b"Errors: FATAL 28P01 ".to_vec()
    );
}
