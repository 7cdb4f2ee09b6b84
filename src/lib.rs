//! Handshake layer of a TDS database client: packet framing, the PreLogin
//! negotiation payload, connection parameters and the connection state machine.

pub mod catalog;
pub mod connection;
pub mod header;
pub mod message;
pub mod settings;
