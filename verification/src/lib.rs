//! Composition of outgoing mail: configuration of the relay, validation of
//! send requests and the layout of the message that is handed to the transport.

pub mod addresses;
pub mod apidoc;
pub mod assemble;
pub mod compose;
pub mod config;
pub mod dispatch;
pub mod filename;
pub mod mail;
pub mod message;
pub mod request;
pub mod text;
pub mod transport;
