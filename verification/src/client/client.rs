//! The decisions of a client that connects: which request to send, and
//! what to make of the response.
//!
//! A [`Client`] opens no stream. The driver that does sends the request
//! that [`Client::begin`] makes, reads the response with
//! [`crate::server::http::read_step`], and hands it to
//! [`Client::complete`], which gives the connection.

use crate::client::config::{client_fault, ClientConfig};
use crate::client::connection::{ClientConnection, unspecified_addr};
use crate::connection::ConnectionState;
use crate::connection::model::{ConnectionView, fresh_connection};
use crate::error::Error;
use crate::frame::Role;
use crate::handshake::{ConfigView, HandshakeConfig, opt_text, ResponseView};
use crate::handshake::extension::{offer_has_deflate, offers_deflate};
use crate::handshake::keys::{accept_key, key_from_nonce};
use crate::handshake::parse::{parse_server_handshake, parsed_response, reports_response_fault};
use crate::handshake::request::{client_request, create_client_handshake_with_key};
use crate::handshake::validate::{reports_handshake_fault, server_fault, validate_server_handshake};
use crate::handshake::write::{request_text, request_to_string};
use crate::headers::{copy_text, copy_texts, Fields, Headers, inserted, lookup, texts};
use crate::protocol::constants::{HEADER_SEC_WEBSOCKET_EXTENSIONS, HEADER_SEC_WEBSOCKET_PROTOCOL};
use crate::random::random_nonce;
use crate::text::{chars_to_string, find_char, first_index, str_chars, trim_bounds, trimmed};
use crate::transport::SocketAddress;
use vstd::prelude::*;

verus! {

/// WebSocket client
#[derive(Debug)]
pub struct Client {
    /// Server address
    addr: SocketAddress,
    /// Client configuration
    config: ClientConfig,
}

/// The request that opens a connection, and the key that it carries.
#[derive(Debug, Clone)]
pub struct Opening {
    /// The request as it is sent
    pub request: String,
    /// The key of the request
    pub key: String,
}

/// The fields that `n` custom headers set, in order.
pub open spec fn custom_fields(headers: Seq<(String, String)>, n: int) -> Fields
    decreases n,
{
    if n <= 0 {
        Seq::empty()
    } else {
        inserted(custom_fields(headers, n - 1), headers[n - 1].0@, headers[n - 1].1@)
    }
}

/// The handshake configuration that a client configuration amounts to for
/// the host `host`.
pub open spec fn handshake_view(config: &ClientConfig, host: Seq<char>) -> ConfigView {
    ConfigView {
        protocols: texts(config.protocols@),
        extensions: Seq::empty(),
        origin: opt_text(config.origin),
        host: Some(host),
        extra_headers: custom_fields(config.headers@, config.headers@.len() as int),
        allowed_origins: Seq::empty(),
        require_protocol: false,
    }
}

/// The items of `s` from index `from`, which commas separate, each without
/// the white space around it.
pub open spec fn list_items(s: Seq<char>, from: int) -> Seq<Seq<char>>
    decreases s.len() - from,
{
    if from < 0 || from > s.len() {
        Seq::empty()
    } else {
        let c = first_index(s, ',', from, s.len() as int);
        if c >= s.len() {
            seq![trimmed(s, from, c)]
        } else {
            proof {
                crate::text::lemma_first_index_bounds(s, ',', from, s.len() as int);
            }
            seq![trimmed(s, from, c)] + list_items(s, c + 1)
        }
    }
}

/// The extensions that a response names.
pub open spec fn response_extensions(resp: ResponseView) -> Seq<Seq<char>> {
    match lookup(resp.headers, HEADER_SEC_WEBSOCKET_EXTENSIONS@) {
        Some(v) => list_items(v, 0),
        None => Seq::empty(),
    }
}

/// Whether a response grants compression.
pub open spec fn response_grants_deflate(resp: ResponseView) -> bool {
    lookup(resp.headers, HEADER_SEC_WEBSOCKET_EXTENSIONS@) matches Some(v) && offers_deflate(v, 0)
}

/// The connection that a client configured as `config` has after the
/// response `resp` was accepted at time `now`.
pub open spec fn connected_view(
    config: &ClientConfig,
    remote_addr: SocketAddress,
    resp: ResponseView,
    now: u64,
) -> ConnectionView {
    ConnectionView {
        max_frame_size: config.max_frame_size,
        assembler: crate::message::assembler::fresh_assembler(config.max_message_size as nat),
        subprotocol: lookup(resp.headers, HEADER_SEC_WEBSOCKET_PROTOCOL@),
        extensions: response_extensions(resp),
        compression_negotiated: response_grants_deflate(resp),
        ..fresh_connection(
            remote_addr,
            unspecified_addr(),
            Role::Client,
            ConnectionState::Connected,
            None,
            now,
        )
    }
}

/// The items of a comma separated header value
pub fn split_list(value: &str) -> (items: Vec<String>)
    ensures
        texts(items@) == list_items(value@, 0),
{
    let chars = str_chars(value);
    let chars = chars.as_slice();
    let mut items: Vec<String> = Vec::new();
    let mut at: usize = 0;
    loop
        invariant
            at <= chars@.len(),
            chars@ == value@,
            list_items(value@, 0) == texts(items@) + list_items(value@, at as int),
        decreases chars@.len() - at,
    {
        let c = find_char(chars, ',', at, chars.len());
        let (a, b) = trim_bounds(chars, at, c);
        items.push(chars_to_string(chars, a, b));
        if c >= chars.len() {
            return items;
        }
        at = c + 1;
    }
}

impl Client {
    /// The address of the server.
    pub closed spec fn spec_addr(&self) -> SocketAddress {
        self.addr
    }

    /// The configuration of the client.
    pub closed spec fn spec_config(&self) -> ClientConfig {
        self.config
    }

    /// Create a new client
    pub fn new(addr: SocketAddress) -> (c: Self)
        ensures
            c.spec_addr() == addr,
            client_fault(c.spec_config().limits()) is None,
    {
        Client { addr, config: ClientConfig::default() }
    }

    /// Set client configuration
    pub fn with_config(self, config: ClientConfig) -> (c: Self)
        ensures
            c.spec_addr() == self.spec_addr(),
            c.spec_config() == config,
    {
        Client { addr: self.addr, config }
    }

    /// The address of the server
    pub fn addr(&self) -> (a: SocketAddress)
        ensures
            a == self.spec_addr(),
    {
        self.addr
    }

    /// The configuration of the client
    pub fn config(&self) -> (c: &ClientConfig)
        ensures
            *c == self.spec_config(),
    {
        &self.config
    }

    /// The name that a TLS session asks for: the server name of the TLS
    /// configuration when it is set, and the host otherwise
    pub fn server_name(&self, host: &str) -> (name: String)
        ensures
            name@ == (match self.spec_config().tls {
                Some(tls) => match tls.server_name {
                    Some(n) => n@,
                    None => host@,
                },
                None => host@,
            }),
    {
        match &self.config.tls {
            Some(tls) => match &tls.server_name {
                Some(n) => n.clone(),
                None => host.to_string(),
            },
            None => host.to_string(),
        }
    }

    /// The handshake configuration of the client for the host `host`
    pub fn handshake_config(&self, host: &str) -> (c: HandshakeConfig)
        ensures
            c@ == handshake_view(&self.spec_config(), host@),
    {
        let mut extra = Headers::new();
        let mut i: usize = 0;
        while i < self.config.headers.len()
            invariant
                i <= self.config.headers@.len(),
                extra@ == custom_fields(self.config.headers@, i as int),
            decreases self.config.headers.len() - i,
        {
            extra.insert(self.config.headers[i].0.clone(), self.config.headers[i].1.clone());
            i += 1;
        }
        let c = HandshakeConfig {
            protocols: copy_texts(&self.config.protocols),
            extensions: Vec::new(),
            origin: copy_text(&self.config.origin),
            host: Some(host.to_string()),
            extra_headers: extra,
            allowed_origins: Vec::new(),
            require_protocol: false,
        };
        assert(c@.extensions =~= Seq::empty());
        c
    }

    /// Makes the request that opens a connection to `uri` at the host
    /// `host`, with the key `key`
    pub fn begin_with_key(&self, uri: &str, host: &str, key: String) -> (r: Result<Opening, Error>)
        ensures
            r matches Ok(o) && o.key@ == key@ && o.request@ == request_text(
                client_request(uri@, handshake_view(&self.spec_config(), host@), key@),
            ),
    {
        let cfg = self.handshake_config(host);
        let copy = key.clone();
        match create_client_handshake_with_key(uri, &cfg, key) {
            Ok(request) => Ok(Opening { request: request_to_string(&request), key: copy }),
            Err(e) => Err(e),
        }
    }

    /// Makes the request that opens a connection to `uri` at the host
    /// `host`, with a fresh random key
    pub fn begin(&self, uri: &str, host: &str) -> (r: Result<Opening, Error>)
        ensures
            r matches Ok(o) && o.request@ == request_text(
                client_request(uri@, handshake_view(&self.spec_config(), host@), o.key@),
            ),
    {
        let nonce = random_nonce();
        self.begin_with_key(uri, host, key_from_nonce(&nonce))
    }

    /// Accepts or refuses the response of the server to the request that
    /// carried `key`; a response that is accepted gives the connection.
    pub fn complete(&self, response: &str, key: &str, remote_addr: SocketAddress, now: u64) -> (r:
        Result<ClientConnection, Error>)
        ensures
            match parsed_response(response@) {
                Err(f) => r matches Err(e) && reports_response_fault(e, f),
                Ok(resp) => match server_fault(resp, accept_key(key@)) {
                    Some(f) => r matches Err(e) && reports_handshake_fault(e, f),
                    None => r matches Ok(c) && c@ == connected_view(
                        &self.spec_config(),
                        remote_addr,
                        resp,
                        now,
                    ),
                },
            },
    {
        let resp = match parse_server_handshake(response) {
            Ok(resp) => resp,
            Err(e) => {
                return Err(e);
            },
        };
        match validate_server_handshake(&resp, key) {
            Ok(()) => {},
            Err(e) => {
                return Err(e);
            },
        }
        let subprotocol = match resp.headers.get(HEADER_SEC_WEBSOCKET_PROTOCOL) {
            Some(p) => Some(p.clone()),
            None => None,
        };
        let (extensions, compression) = match resp.headers.get(HEADER_SEC_WEBSOCKET_EXTENSIONS) {
            Some(v) => (split_list(v.as_str()), offer_has_deflate(v.as_str())),
            None => (Vec::new(), false),
        };
        assert(texts(extensions@) =~= response_extensions(resp@));
        let mut connection = ClientConnection::with_stream(remote_addr, now);
        connection.set_limits(self.config.max_frame_size, self.config.max_message_size);
        connection.set_negotiated(subprotocol, extensions, compression);
        Ok(connection)
    }
}

/// Client builder
#[derive(Debug)]
pub struct ClientBuilder {
    addr: SocketAddress,
    config: ClientConfig,
}

impl ClientBuilder {
    /// The address of the server.
    pub closed spec fn spec_addr(&self) -> SocketAddress {
        self.addr
    }

    /// The configuration put together so far.
    pub closed spec fn spec_config(&self) -> ClientConfig {
        self.config
    }

    /// Create a new client builder
    pub fn new(addr: SocketAddress) -> (b: Self)
        ensures
            b.spec_addr() == addr,
            client_fault(b.spec_config().limits()) is None,
    {
        ClientBuilder { addr, config: ClientConfig::default() }
    }

    /// Set maximum frame size
    pub fn max_frame_size(self, size: usize) -> (b: Self)
        ensures
            b.spec_addr() == self.spec_addr(),
            b.spec_config() == (ClientConfig { max_frame_size: size, ..self.spec_config() }),
    {
        let mut b = self;
        b.config.max_frame_size = size;
        b
    }

    /// Set maximum message size
    pub fn max_message_size(self, size: usize) -> (b: Self)
        ensures
            b.spec_addr() == self.spec_addr(),
            b.spec_config() == (ClientConfig { max_message_size: size, ..self.spec_config() }),
    {
        let mut b = self;
        b.config.max_message_size = size;
        b
    }

    /// Set handshake timeout
    pub fn handshake_timeout(self, timeout: u64) -> (b: Self)
        ensures
            b.spec_addr() == self.spec_addr(),
            b.spec_config() == (ClientConfig { handshake_timeout: timeout, ..self.spec_config() }),
    {
        let mut b = self;
        b.config.handshake_timeout = timeout;
        b
    }

    /// Enable/disable compression
    pub fn compression(self, enabled: bool) -> (b: Self)
        ensures
            b.spec_addr() == self.spec_addr(),
            b.spec_config() == (ClientConfig {
                compression: crate::server::config::CompressionConfig {
                    enabled,
                    ..self.spec_config().compression
                },
                ..self.spec_config()
            }),
    {
        let mut b = self;
        b.config.compression.enabled = enabled;
        b
    }

    /// Build the client
    pub fn build(self) -> (c: Client)
        ensures
            c.spec_addr() == self.spec_addr(),
            c.spec_config() == self.spec_config(),
    {
        Client::new(self.addr).with_config(self.config)
    }
}

} // verus!
