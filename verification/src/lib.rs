//! Client side of the proxy-connection protocol of an SSH agent.
//!
//! - [`grant`]: the grant that authentication earns, and the slot that keeps
//!   it for the session.
//! - [`message`]: the messages exchanged with the proxy server, and the body
//!   of a proxy request.
//! - [`json`]: the JSON text that the bodies are made of.
//! - [`wire`]: the header and the frame round a body.
//! - [`handshake`]: the exchange with the proxy server as a state machine.
//!   The caller owns the socket, carries out each action that the machine
//!   asks for and reports what came of it.

pub mod grant;
pub mod handshake;
pub mod json;
pub mod message;
pub mod wire;
