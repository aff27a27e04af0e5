//! Tunnelling of the Postgres wire protocol over a WebTransport session:
//! message framing, the startup and authentication handshake on the client
//! side, session negotiation and the byte relay on the server side.

pub mod buffer;
pub mod connection;
pub mod error;
pub mod frame;
pub mod message;
pub mod outbound;
pub mod proxy;
pub mod scram;
pub mod session;
pub mod startup;
pub mod startup_message;
