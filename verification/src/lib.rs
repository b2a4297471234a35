//! A transport-agnostic WebSocket (RFC 6455) protocol engine.
//!
//! The crate holds the frame codec, the message assembler, the HTTP upgrade
//! handshake, the per-connection state machine, the connection registry and
//! the per-peer rate limiter. Every function states its behaviour in a
//! contract that Verus proves.

use vstd::prelude::*;

pub mod buffer;
pub mod client;
pub mod compression;
pub mod connection;
pub mod digest;
pub mod error;
pub mod frame;
pub mod handshake;
pub mod headers;
pub mod message;
pub mod protocol;
pub mod random;
pub mod server;
pub mod text;
pub mod transport;

pub use error::Error;
pub use frame::{Frame, FrameKind};
pub use handshake::{HandshakeConfig, HandshakeRequest, HandshakeResponse};
pub use message::{Message, MessageKind};
pub use protocol::Opcode;

verus! {

/// The name of the library
pub const NAME: &'static str = "aerosocket";

/// The version of the library
pub const VERSION: &'static str = "0.1.0";

} // verus!
