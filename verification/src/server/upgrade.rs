//! The handshake as a server does it: the request is parsed and
//! validated, and the response is made.

use crate::error::Error;
use crate::handshake::{ConfigView, HandshakeConfig, opt_text, RequestView};
use crate::handshake::extension::{negotiate_extension, negotiated_extension};
use crate::handshake::parse::{parse_client_handshake, parsed_request, reports_request_fault};
use crate::handshake::response::{create_server_handshake, server_response};
use crate::handshake::validate::{
    client_fault, decoded_key_of, negotiate_protocol, negotiated_protocol, reports_handshake_fault,
    validate_client_handshake,
};
use crate::handshake::write::{response_text, response_to_string};
use crate::headers::{copy_text, copy_texts, texts};
use crate::server::config::ServerConfig;
use vstd::prelude::*;

verus! {

/// What a successful handshake settles.
#[derive(Debug, Clone)]
pub struct Upgrade {
    /// The response to send
    pub response: String,
    /// The request target
    pub endpoint: String,
    /// The subprotocol settled on
    pub subprotocol: Option<String>,
    /// The extensions settled on
    pub extensions: Vec<String>,
    /// Whether messages may be compressed
    pub compression: bool,
}

/// The handshake configuration that a server configuration amounts to. A
/// server with compression switched on supports `permessage-deflate`.
pub open spec fn handshake_view(config: &ServerConfig) -> ConfigView {
    ConfigView {
        protocols: texts(config.supported_protocols@),
        extensions: if config.compression.enabled {
            texts(config.supported_extensions@).push(
                crate::protocol::extensions::PERMESSAGE_DEFLATE@,
            )
        } else {
            texts(config.supported_extensions@)
        },
        origin: opt_text(config.allowed_origin),
        host: None,
        extra_headers: config.extra_headers@,
        allowed_origins: texts(config.allowed_origins@),
        require_protocol: config.require_protocol,
    }
}

/// The extensions that a handshake settled on, as a list.
pub open spec fn extension_list(e: Option<Seq<char>>) -> Seq<Seq<char>> {
    match e {
        Some(e) => seq![e],
        None => Seq::empty(),
    }
}

/// `up` is what the handshake on the request `req` settles for a server
/// configured as `cfg`.
pub open spec fn upgrade_is(up: Upgrade, req: RequestView, cfg: ConfigView) -> bool {
    &&& server_response(req, cfg) matches Ok(resp) && up.response@ == response_text(resp)
    &&& up.endpoint@ == req.uri
    &&& negotiated_protocol(req, cfg) matches Ok(p) && opt_text(up.subprotocol) == p
    &&& texts(up.extensions@) == extension_list(negotiated_extension(req, cfg))
    &&& up.compression == negotiated_extension(req, cfg) is Some
}

/// The handshake configuration of a server
pub fn handshake_config(config: &ServerConfig) -> (c: HandshakeConfig)
    ensures
        c@ == handshake_view(config),
{
    let mut extensions = copy_texts(&config.supported_extensions);
    if config.compression.enabled {
        let ghost before = extensions@;
        extensions.push(crate::protocol::extensions::PERMESSAGE_DEFLATE.to_string());
        assert(texts(extensions@) =~= texts(before).push(
            crate::protocol::extensions::PERMESSAGE_DEFLATE@,
        ));
    }
    HandshakeConfig {
        protocols: copy_texts(&config.supported_protocols),
        extensions,
        origin: copy_text(&config.allowed_origin),
        host: None,
        extra_headers: config.extra_headers.copy(),
        allowed_origins: copy_texts(&config.allowed_origins),
        require_protocol: config.require_protocol,
    }
}

/// Answers the upgrade request `request_text`: the request is parsed and
/// validated, and the response is made.
pub fn perform_handshake(request_text: &str, config: &ServerConfig) -> (r: Result<Upgrade, Error>)
    ensures
        match parsed_request(request_text@) {
            Err(f) => r matches Err(e) && reports_request_fault(e, f),
            Ok(req) => match client_fault(req, handshake_view(config), decoded_key_of(req)) {
                Some(f) => r matches Err(e) && reports_handshake_fault(e, f),
                None => r matches Ok(up) && upgrade_is(up, req, handshake_view(config)),
            },
        },
{
    let request = match parse_client_handshake(request_text) {
        Ok(request) => request,
        Err(e) => {
            return Err(e);
        },
    };
    let cfg = handshake_config(config);
    match validate_client_handshake(&request, &cfg) {
        Ok(()) => {},
        Err(e) => {
            return Err(e);
        },
    }
    let response = match create_server_handshake(&request, &cfg) {
        Ok(response) => response,
        Err(e) => {
            return Err(e);
        },
    };
    let subprotocol = match negotiate_protocol(&request, &cfg) {
        Ok(p) => p,
        Err(e) => {
            return Err(e);
        },
    };
    let extension = negotiate_extension(&request, &cfg);
    let compression = extension.is_some();
    let mut extensions: Vec<String> = Vec::new();
    if let Some(e) = extension {
        extensions.push(e);
    }
    assert(texts(extensions@) =~= extension_list(negotiated_extension(request@, cfg@)));
    Ok(
        Upgrade {
            response: response_to_string(&response),
            endpoint: request.uri,
            subprotocol,
            extensions,
            compression,
        },
    )
}

} // verus!
