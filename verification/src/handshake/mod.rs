//! The HTTP upgrade handshake of RFC 6455: building, parsing and
//! validating the request of a client and the response of a server.
//!
//! Requests and responses are parsed from text. A line ends at a line
//! feed, and a carriage return before it belongs to the line end. Header
//! names are put in lower case when they are parsed and are written in
//! their usual spelling. White space and letter case are those of ASCII.

use crate::headers::{Fields, Headers, texts};
use vstd::prelude::*;

pub mod extension;
pub mod keys;
pub mod laws;
pub mod parse;
pub mod request;
pub mod response;
pub mod validate;
pub mod write;

pub use self::extension::{negotiate_extension, offer_has_deflate};
pub use self::keys::{
    compute_accept_key, generate_key, key_from_nonce, validate_key, validate_version,
};
pub use self::parse::{parse_client_handshake, parse_server_handshake};
pub use self::request::{create_client_handshake, create_client_handshake_with_key};
pub use self::response::create_server_handshake;
pub use self::validate::{
    negotiate_protocol, validate_client_handshake, validate_client_handshake_with,
    validate_server_handshake, validate_server_handshake_with,
};
pub use self::write::{request_to_string, response_to_string};

verus! {

/// WebSocket handshake request information
#[derive(Debug, Clone)]
pub struct HandshakeRequest {
    /// HTTP method (should be GET)
    pub method: String,
    /// Request URI
    pub uri: String,
    /// HTTP version
    pub version: String,
    /// HTTP headers
    pub headers: Headers,
    /// Request body (should be empty for WebSocket handshake)
    pub body: Vec<u8>,
}

/// WebSocket handshake response information
#[derive(Debug, Clone)]
pub struct HandshakeResponse {
    /// HTTP status code
    pub status: u16,
    /// HTTP status message
    pub status_message: String,
    /// HTTP headers
    pub headers: Headers,
    /// Response body (should be empty for WebSocket handshake)
    pub body: Vec<u8>,
}

/// WebSocket handshake configuration
#[derive(Debug, Clone)]
pub struct HandshakeConfig {
    /// WebSocket protocols to offer/accept
    pub protocols: Vec<String>,
    /// WebSocket extensions to offer/accept
    pub extensions: Vec<String>,
    /// Origin to send (client) or to accept (server)
    pub origin: Option<String>,
    /// Host header value (client only)
    pub host: Option<String>,
    /// Additional headers
    pub extra_headers: Headers,
    /// Further origins that a server accepts
    pub allowed_origins: Vec<String>,
    /// Whether a server refuses a client with which it shares no protocol
    pub require_protocol: bool,
}

/// The mathematical value of a handshake request.
pub struct RequestView {
    pub method: Seq<char>,
    pub uri: Seq<char>,
    pub version: Seq<char>,
    pub headers: Fields,
    pub body: Seq<u8>,
}

/// The mathematical value of a handshake response.
pub struct ResponseView {
    pub status: u16,
    pub status_message: Seq<char>,
    pub headers: Fields,
    pub body: Seq<u8>,
}

/// The mathematical value of a handshake configuration.
pub struct ConfigView {
    pub protocols: Seq<Seq<char>>,
    pub extensions: Seq<Seq<char>>,
    pub origin: Option<Seq<char>>,
    pub host: Option<Seq<char>>,
    pub extra_headers: Fields,
    pub allowed_origins: Seq<Seq<char>>,
    pub require_protocol: bool,
}

/// The characters of an optional string.
pub open spec fn opt_text(s: Option<String>) -> Option<Seq<char>> {
    match s {
        Some(s) => Some(s@),
        None => None,
    }
}

impl View for HandshakeRequest {
    type V = RequestView;

    open spec fn view(&self) -> RequestView {
        RequestView {
            method: self.method@,
            uri: self.uri@,
            version: self.version@,
            headers: self.headers@,
            body: self.body@,
        }
    }
}

impl View for HandshakeResponse {
    type V = ResponseView;

    open spec fn view(&self) -> ResponseView {
        ResponseView {
            status: self.status,
            status_message: self.status_message@,
            headers: self.headers@,
            body: self.body@,
        }
    }
}

impl View for HandshakeConfig {
    type V = ConfigView;

    open spec fn view(&self) -> ConfigView {
        ConfigView {
            protocols: texts(self.protocols@),
            extensions: texts(self.extensions@),
            origin: opt_text(self.origin),
            host: opt_text(self.host),
            extra_headers: self.extra_headers@,
            allowed_origins: texts(self.allowed_origins@),
            require_protocol: self.require_protocol,
        }
    }
}

impl Default for HandshakeConfig {
    fn default() -> (c: Self)
        ensures
            c@ == (ConfigView {
                protocols: Seq::empty(),
                extensions: Seq::empty(),
                origin: None,
                host: None,
                extra_headers: Seq::empty(),
                allowed_origins: Seq::empty(),
                require_protocol: false,
            }),
    {
        let c = HandshakeConfig {
            protocols: Vec::new(),
            extensions: Vec::new(),
            origin: None,
            host: None,
            extra_headers: Headers::new(),
            allowed_origins: Vec::new(),
            require_protocol: false,
        };
        assert(c@.protocols =~= Seq::empty());
        c
    }
}

} // verus!
