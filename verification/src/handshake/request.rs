//! The request of a client.

use crate::digest::base64_encode_result;
use crate::error::Error;
use crate::handshake::{ConfigView, HandshakeConfig, HandshakeRequest, RequestView};
use crate::handshake::keys::key_from_nonce;
use crate::headers::{Fields, Headers, inserted, texts};
use crate::protocol::constants::{
    HEADER_CONNECTION, HEADER_SEC_WEBSOCKET_EXTENSIONS, HEADER_SEC_WEBSOCKET_KEY,
    HEADER_SEC_WEBSOCKET_PROTOCOL, HEADER_SEC_WEBSOCKET_VERSION, HEADER_UPGRADE, WEBSOCKET_VERSION,
};
use crate::protocol::http_header::{HOST, ORIGIN};
use crate::protocol::http_method::GET;
use crate::protocol::http_value::{UPGRADE, WEBSOCKET};
use crate::random::random_nonce;
use vstd::prelude::*;
use vstd::string::StringExecFns;

verus! {

/// The first `n` of `items`, joined by `sep`.
pub open spec fn joined(items: Seq<Seq<char>>, sep: Seq<char>, n: int) -> Seq<char>
    decreases n,
{
    if n <= 0 {
        Seq::empty()
    } else if n == 1 {
        items[0]
    } else {
        joined(items, sep, n - 1) + sep + items[n - 1]
    }
}

/// The fields `h` after the first `n` fields of `extra` were set in order.
pub open spec fn insert_all(h: Fields, extra: Fields, n: int) -> Fields
    decreases n,
{
    if n <= 0 {
        h
    } else {
        inserted(insert_all(h, extra, n - 1), extra[n - 1].0, extra[n - 1].1)
    }
}

/// `h` with the field `name` set if there is a value for it.
pub open spec fn inserted_if(h: Fields, name: Seq<char>, value: Option<Seq<char>>) -> Fields {
    match value {
        Some(v) => inserted(h, name, v),
        None => h,
    }
}

/// The list `items` as one header value, if there is any item.
pub open spec fn listed(items: Seq<Seq<char>>) -> Option<Seq<char>> {
    if items.len() > 0 {
        Some(joined(items, ", "@, items.len() as int))
    } else {
        None
    }
}

/// The header fields of a client's request: the host, the four fields that
/// ask for the upgrade, the protocols and extensions offered, the origin,
/// and last the additional fields, which may replace any of the others.
pub open spec fn client_fields(cfg: ConfigView, key: Seq<char>) -> Fields {
    let h = inserted_if(Seq::empty(), HOST@, cfg.host);
    let h = inserted(h, HEADER_UPGRADE@, WEBSOCKET@);
    let h = inserted(h, HEADER_CONNECTION@, UPGRADE@);
    let h = inserted(h, HEADER_SEC_WEBSOCKET_KEY@, key);
    let h = inserted(h, HEADER_SEC_WEBSOCKET_VERSION@, WEBSOCKET_VERSION@);
    let h = inserted_if(h, HEADER_SEC_WEBSOCKET_PROTOCOL@, listed(cfg.protocols));
    let h = inserted_if(h, HEADER_SEC_WEBSOCKET_EXTENSIONS@, listed(cfg.extensions));
    let h = inserted_if(h, ORIGIN@, cfg.origin);
    insert_all(h, cfg.extra_headers, cfg.extra_headers.len() as int)
}

/// The request of a client for `uri` with the key `key`.
pub open spec fn client_request(uri: Seq<char>, cfg: ConfigView, key: Seq<char>) -> RequestView {
    RequestView {
        method: GET@,
        uri,
        version: "HTTP/1.1"@,
        headers: client_fields(cfg, key),
        body: Seq::empty(),
    }
}

/// The strings of `items`, joined by `sep`.
pub fn join_texts(items: &Vec<String>, sep: &str) -> (s: String)
    ensures
        s@ == joined(texts(items@), sep@, items@.len() as int),
{
    let mut s = String::new();
    let mut i: usize = 0;
    while i < items.len()
        invariant
            i <= items@.len(),
            s@ == joined(texts(items@), sep@, i as int),
        decreases items.len() - i,
    {
        if i > 0 {
            s.append(sep);
        }
        s.append(items[i].as_str());
        i += 1;
    }
    s
}

pub(crate) fn insert_extra(headers: &mut Headers, extra: &Headers)
    ensures
        final(headers)@ == insert_all(old(headers)@, extra@, extra@.len() as int),
{
    let mut i: usize = 0;
    while i < extra.len()
        invariant
            i <= extra@.len(),
            headers@ == insert_all(old(headers)@, extra@, i as int),
        decreases extra@.len() - i,
    {
        let (name, value) = extra.entry(i);
        headers.insert(name.clone(), value.clone());
        i += 1;
    }
}

/// Create a client handshake request with the given key
pub fn create_client_handshake_with_key(uri: &str, config: &HandshakeConfig, key: String) -> (r:
    Result<HandshakeRequest, Error>)
    ensures
        r matches Ok(req) && req@ == client_request(uri@, config@, key@),
{
    let mut headers = Headers::new();
    if let Some(host) = &config.host {
        headers.insert(HOST.to_string(), host.clone());
    }
    headers.insert(HEADER_UPGRADE.to_string(), WEBSOCKET.to_string());
    headers.insert(HEADER_CONNECTION.to_string(), UPGRADE.to_string());
    headers.insert(HEADER_SEC_WEBSOCKET_KEY.to_string(), key);
    headers.insert(HEADER_SEC_WEBSOCKET_VERSION.to_string(), WEBSOCKET_VERSION.to_string());
    if config.protocols.len() > 0 {
        headers.insert(
            HEADER_SEC_WEBSOCKET_PROTOCOL.to_string(),
            join_texts(&config.protocols, ", "),
        );
    }
    if config.extensions.len() > 0 {
        headers.insert(
            HEADER_SEC_WEBSOCKET_EXTENSIONS.to_string(),
            join_texts(&config.extensions, ", "),
        );
    }
    if let Some(origin) = &config.origin {
        headers.insert(ORIGIN.to_string(), origin.clone());
    }
    insert_extra(&mut headers, &config.extra_headers);
    Ok(
        HandshakeRequest {
            method: GET.to_string(),
            uri: uri.to_string(),
            version: "HTTP/1.1".to_string(),
            headers,
            body: Vec::new(),
        },
    )
}

/// Create a client handshake request with a fresh random key
pub fn create_client_handshake(uri: &str, config: &HandshakeConfig) -> (r: Result<
    HandshakeRequest,
    Error,
>)
    ensures
        r matches Ok(req) && exists|nonce: Seq<u8>|
            nonce.len() == 16 && req@ == client_request(
                uri@,
                config@,
                #[trigger] base64_encode_result(nonce),
            ),
{
    let nonce = random_nonce();
    let key = key_from_nonce(&nonce);
    let r = create_client_handshake_with_key(uri, config, key);
    r
}

} // verus!
