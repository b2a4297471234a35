//! The response of a server.

use crate::error::{Error, ProtocolError};
use crate::handshake::{
    ConfigView, HandshakeConfig, HandshakeRequest, HandshakeResponse, RequestView, ResponseView,
};
use crate::handshake::extension::{negotiate_extension, negotiated_extension};
use crate::handshake::keys::{accept_key, compute_accept_key};
use crate::handshake::request::{insert_all, insert_extra, inserted_if};
use crate::handshake::validate::{
    HandshakeFault, negotiate_protocol, negotiated_protocol, reports_handshake_fault,
};
use crate::headers::{Headers, inserted, lookup};
use crate::protocol::constants::{
    HEADER_CONNECTION, HEADER_SEC_WEBSOCKET_ACCEPT, HEADER_SEC_WEBSOCKET_EXTENSIONS,
    HEADER_SEC_WEBSOCKET_KEY, HEADER_SEC_WEBSOCKET_PROTOCOL, HEADER_UPGRADE,
};
use crate::protocol::http_status::SWITCHING_PROTOCOLS;
use crate::protocol::http_value::{UPGRADE, WEBSOCKET};
use vstd::prelude::*;

verus! {

/// The response of a server to a request, or the fault for which there is
/// none: status 101 with the fields that grant the upgrade, the accept
/// value that answers the key, the subprotocol and the extension settled
/// on, and last the additional fields.
pub open spec fn server_response(req: RequestView, cfg: ConfigView) -> Result<
    ResponseView,
    HandshakeFault,
> {
    match lookup(req.headers, HEADER_SEC_WEBSOCKET_KEY@) {
        None => Err(HandshakeFault::MissingHeader(HEADER_SEC_WEBSOCKET_KEY@)),
        Some(key) => match negotiated_protocol(req, cfg) {
            Err(f) => Err(f),
            Ok(protocol) => {
                let h = inserted(Seq::empty(), HEADER_UPGRADE@, WEBSOCKET@);
                let h = inserted(h, HEADER_CONNECTION@, UPGRADE@);
                let h = inserted(h, HEADER_SEC_WEBSOCKET_ACCEPT@, accept_key(key));
                let h = inserted_if(h, HEADER_SEC_WEBSOCKET_PROTOCOL@, protocol);
                let h = inserted_if(
                    h,
                    HEADER_SEC_WEBSOCKET_EXTENSIONS@,
                    negotiated_extension(req, cfg),
                );
                Ok(
                    ResponseView {
                        status: SWITCHING_PROTOCOLS,
                        status_message: "Switching Protocols"@,
                        headers: insert_all(h, cfg.extra_headers, cfg.extra_headers.len() as int),
                        body: Seq::empty(),
                    },
                )
            },
        },
    }
}

/// Create a server handshake response
pub fn create_server_handshake(request: &HandshakeRequest, config: &HandshakeConfig) -> (r: Result<
    HandshakeResponse,
    Error,
>)
    ensures
        match server_response(request@, config@) {
            Ok(view) => r matches Ok(resp) && resp@ == view,
            Err(f) => r matches Err(e) && reports_handshake_fault(e, f),
        },
{
    let key = match request.headers.get(HEADER_SEC_WEBSOCKET_KEY) {
        Some(key) => key,
        None => {
            return Err(
                Error::Protocol(
                    ProtocolError::MissingHeader(HEADER_SEC_WEBSOCKET_KEY.to_string()),
                ),
            );
        },
    };
    let protocol = match negotiate_protocol(request, config) {
        Ok(p) => p,
        Err(e) => {
            return Err(e);
        },
    };
    let accept = match compute_accept_key(key.as_str()) {
        Ok(a) => a,
        Err(e) => {
            return Err(e);
        },
    };
    let mut headers = Headers::new();
    headers.insert(HEADER_UPGRADE.to_string(), WEBSOCKET.to_string());
    headers.insert(HEADER_CONNECTION.to_string(), UPGRADE.to_string());
    headers.insert(HEADER_SEC_WEBSOCKET_ACCEPT.to_string(), accept);
    if let Some(p) = protocol {
        headers.insert(HEADER_SEC_WEBSOCKET_PROTOCOL.to_string(), p);
    }
    if let Some(ext) = negotiate_extension(request, config) {
        headers.insert(HEADER_SEC_WEBSOCKET_EXTENSIONS.to_string(), ext);
    }
    insert_extra(&mut headers, &config.extra_headers);
    Ok(
        HandshakeResponse {
            status: SWITCHING_PROTOCOLS,
            status_message: "Switching Protocols".to_string(),
            headers,
            body: Vec::new(),
        },
    )
}

} // verus!
