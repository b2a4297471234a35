//! Validating a request and a response, and settling the subprotocol.
//!
//! The checks are made in a fixed order, and the first fault found is the
//! one reported.

use crate::buffer::byte_view;
use crate::digest::{base64_decode, base64_decode_result};
use crate::error::{Error, ProtocolError};
use crate::handshake::{
    ConfigView, HandshakeConfig, HandshakeRequest, HandshakeResponse, opt_text, RequestView,
    ResponseView,
};
use crate::handshake::keys::{
    accept_key, compute_accept_key, decoded_key_is_valid, key_decodes_to_nonce, validate_version,
};
use crate::headers::{lookup, texts};
use crate::protocol::constants::{
    HEADER_CONNECTION, HEADER_SEC_WEBSOCKET_ACCEPT, HEADER_SEC_WEBSOCKET_KEY,
    HEADER_SEC_WEBSOCKET_PROTOCOL, HEADER_SEC_WEBSOCKET_VERSION, HEADER_UPGRADE, WEBSOCKET_VERSION,
};
use crate::protocol::http_header::ORIGIN;
use crate::protocol::http_method::GET;
use crate::protocol::http_status::SWITCHING_PROTOCOLS;
use crate::protocol::http_value::WEBSOCKET;
use crate::text::{
    chars_eq, chars_eq_lower, chars_to_string, find_char, first_index, lower, str_chars, str_eq,
    trim_bounds, trimmed,
};
use vstd::prelude::*;

verus! {

/// The reasons for which a handshake is refused.
pub enum HandshakeFault {
    /// The method is not GET.
    InvalidMethod(Seq<char>),
    /// A header that the handshake needs is not there.
    MissingHeader(Seq<char>),
    /// A header does not hold what the handshake needs.
    InvalidHeaderValue { header: Seq<char>, value: Seq<char> },
    /// The origin is none that the server accepts.
    InvalidOrigin { expected: Seq<char>, received: Seq<char> },
    /// The server supports none of the protocols offered.
    UnsupportedProtocol(Seq<char>),
    /// The status of the response is not 101.
    UnexpectedStatus(u16),
    /// The accept value does not answer the key.
    InvalidAcceptKey { expected: Seq<char>, received: Seq<char> },
}

/// The error value `e` reports the fault `fault`.
pub open spec fn reports_handshake_fault(e: Error, fault: HandshakeFault) -> bool {
    match fault {
        HandshakeFault::InvalidMethod(m) => e matches Error::Protocol(
            ProtocolError::InvalidMethod(method),
        ) && method@ == m,
        HandshakeFault::MissingHeader(h) => e matches Error::Protocol(
            ProtocolError::MissingHeader(header),
        ) && header@ == h,
        HandshakeFault::InvalidHeaderValue { header, value } => e matches Error::Protocol(
            ProtocolError::InvalidHeaderValue { header: h, value: v },
        ) && h@ == header && v@ == value,
        HandshakeFault::InvalidOrigin { expected, received } => e matches Error::Protocol(
            ProtocolError::InvalidOrigin { expected: x, received: r },
        ) && x@ == expected && r@ == received,
        HandshakeFault::UnsupportedProtocol(p) => e matches Error::Protocol(
            ProtocolError::UnsupportedProtocol(offer),
        ) && offer@ == p,
        HandshakeFault::UnexpectedStatus(s) => e matches Error::Protocol(
            ProtocolError::UnexpectedStatus(status),
        ) && status == s,
        HandshakeFault::InvalidAcceptKey { expected, received } => e matches Error::Protocol(
            ProtocolError::InvalidAcceptKey { expected: x, received: r },
        ) && x@ == expected && r@ == received,
    }
}

/// Whether one of the items of `s` from index `from`, which commas
/// separate, is `word` once it is trimmed and put in lower case.
pub open spec fn has_token(s: Seq<char>, from: int, word: Seq<char>) -> bool
    decreases s.len() - from,
{
    if from < 0 || from > s.len() {
        false
    } else {
        let c = first_index(s, ',', from, s.len() as int);
        if lower(trimmed(s, from, c)) == word {
            true
        } else if c >= s.len() {
            false
        } else {
            proof {
                crate::text::lemma_first_index_bounds(s, ',', from, s.len() as int);
            }
            has_token(s, c + 1, word)
        }
    }
}

/// The first of the items of `offer` from index `from`, which commas
/// separate, that is among `supported`.
pub open spec fn first_supported(offer: Seq<char>, from: int, supported: Seq<Seq<char>>) -> Option<
    Seq<char>,
>
    decreases offer.len() - from,
{
    if from < 0 || from > offer.len() {
        None
    } else {
        let c = first_index(offer, ',', from, offer.len() as int);
        let item = trimmed(offer, from, c);
        if supported.contains(item) {
            Some(item)
        } else if c >= offer.len() {
            None
        } else {
            proof {
                crate::text::lemma_first_index_bounds(offer, ',', from, offer.len() as int);
            }
            first_supported(offer, c + 1, supported)
        }
    }
}

/// The subprotocol that a server settles on, or the fault for which it
/// refuses the client.
///
/// A server without protocols settles on none. Otherwise it takes the
/// first protocol of the client's offer that it supports. Where there is
/// none, because nothing was offered or nothing offered is supported, a
/// server that requires a protocol refuses the client, and any other
/// server goes on without a protocol.
pub open spec fn negotiated_protocol(req: RequestView, cfg: ConfigView) -> Result<
    Option<Seq<char>>,
    HandshakeFault,
> {
    if cfg.protocols.len() == 0 {
        Ok(None)
    } else {
        match lookup(req.headers, HEADER_SEC_WEBSOCKET_PROTOCOL@) {
            None => if cfg.require_protocol {
                Err(HandshakeFault::MissingHeader(HEADER_SEC_WEBSOCKET_PROTOCOL@))
            } else {
                Ok(None)
            },
            Some(offer) => match first_supported(offer, 0, cfg.protocols) {
                Some(p) => Ok(Some(p)),
                None => if cfg.require_protocol {
                    Err(HandshakeFault::UnsupportedProtocol(offer))
                } else {
                    Ok(None)
                },
            },
        }
    }
}

/// The origins that a server accepts.
pub open spec fn permitted_origins(cfg: ConfigView) -> Seq<Seq<char>> {
    (match cfg.origin {
        Some(o) => seq![o],
        None => Seq::empty(),
    }) + cfg.allowed_origins
}

/// The fault of an origin, if it has one: a server that names origins
/// refuses an origin that is none of them.
pub open spec fn origin_fault(req: RequestView, cfg: ConfigView) -> Option<HandshakeFault> {
    let permitted = permitted_origins(cfg);
    match lookup(req.headers, ORIGIN@) {
        Some(o) => if permitted.len() > 0 && !permitted.contains(o) {
            Some(HandshakeFault::InvalidOrigin { expected: permitted[0], received: o })
        } else {
            None
        },
        None => None,
    }
}

/// The first fault, in the order of the checks, of an upgrade request:
/// the method, then the headers `Upgrade`, `Connection`,
/// `Sec-WebSocket-Key` and `Sec-WebSocket-Version`, then the origin and
/// the subprotocol. `decoded_key` is what decoding the key gave.
pub open spec fn client_fault(req: RequestView, cfg: ConfigView, decoded_key: Option<Seq<u8>>)
    -> Option<HandshakeFault> {
    let upgrade = lookup(req.headers, HEADER_UPGRADE@);
    let connection = lookup(req.headers, HEADER_CONNECTION@);
    let key = lookup(req.headers, HEADER_SEC_WEBSOCKET_KEY@);
    let version = lookup(req.headers, HEADER_SEC_WEBSOCKET_VERSION@);
    if req.method != GET@ {
        Some(HandshakeFault::InvalidMethod(req.method))
    } else if upgrade is None {
        Some(HandshakeFault::MissingHeader(HEADER_UPGRADE@))
    } else if lower(upgrade->0) != WEBSOCKET@ {
        Some(HandshakeFault::InvalidHeaderValue { header: HEADER_UPGRADE@, value: upgrade->0 })
    } else if connection is None {
        Some(HandshakeFault::MissingHeader(HEADER_CONNECTION@))
    } else if !has_token(connection->0, 0, "upgrade"@) {
        Some(
            HandshakeFault::InvalidHeaderValue {
                header: HEADER_CONNECTION@,
                value: connection->0,
            },
        )
    } else if key is None {
        Some(HandshakeFault::MissingHeader(HEADER_SEC_WEBSOCKET_KEY@))
    } else if !key_decodes_to_nonce(decoded_key) {
        Some(
            HandshakeFault::InvalidHeaderValue {
                header: HEADER_SEC_WEBSOCKET_KEY@,
                value: key->0,
            },
        )
    } else if version is None {
        Some(HandshakeFault::MissingHeader(HEADER_SEC_WEBSOCKET_VERSION@))
    } else if version->0 != WEBSOCKET_VERSION@ {
        Some(
            HandshakeFault::InvalidHeaderValue {
                header: HEADER_SEC_WEBSOCKET_VERSION@,
                value: version->0,
            },
        )
    } else if origin_fault(req, cfg) is Some {
        origin_fault(req, cfg)
    } else {
        match negotiated_protocol(req, cfg) {
            Err(f) => Some(f),
            Ok(_) => None,
        }
    }
}

/// What decoding the key of a request gives; nothing if there is no key.
pub open spec fn decoded_key_of(req: RequestView) -> Option<Seq<u8>> {
    match lookup(req.headers, HEADER_SEC_WEBSOCKET_KEY@) {
        Some(k) => base64_decode_result(k),
        None => None,
    }
}

/// The answer `r` of a validation is the verdict `fault`.
pub open spec fn verdict_is(r: Result<(), Error>, fault: Option<HandshakeFault>) -> bool {
    match fault {
        None => r is Ok,
        Some(f) => r matches Err(e) && reports_handshake_fault(e, f),
    }
}

/// Whether `value`, put in lower case, is `word`.
fn equals_lower(value: &str, word: &str) -> (r: bool)
    ensures
        r == (lower(value@) == word@),
{
    let chars = str_chars(value);
    let w = str_chars(word);
    assert(chars@.subrange(0, chars@.len() as int) =~= chars@);
    chars_eq_lower(chars.as_slice(), 0, chars.len(), w.as_slice())
}

/// Whether a comma-separated header value holds `word` as one of its
/// items, whatever the case of its letters.
pub fn value_has_token(value: &str, word: &str) -> (r: bool)
    ensures
        r == has_token(value@, 0, word@),
{
    let chars = str_chars(value);
    let chars = chars.as_slice();
    let w = str_chars(word);
    let mut at: usize = 0;
    loop
        invariant
            at <= chars@.len(),
            chars@ == value@,
            w@ == word@,
            has_token(value@, 0, word@) == has_token(value@, at as int, word@),
        decreases chars@.len() - at,
    {
        let c = find_char(chars, ',', at, chars.len());
        let (a, b) = trim_bounds(chars, at, c);
        if chars_eq_lower(chars, a, b, w.as_slice()) {
            return true;
        }
        if c >= chars.len() {
            return false;
        }
        at = c + 1;
    }
}

/// Whether `chars[from..to]` is one of the strings of `list`.
fn list_contains(list: &Vec<String>, chars: &[char], from: usize, to: usize) -> (r: bool)
    requires
        from <= to <= chars@.len(),
    ensures
        r == texts(list@).contains(chars@.subrange(from as int, to as int)),
{
    let ghost item = chars@.subrange(from as int, to as int);
    let mut i: usize = 0;
    while i < list.len()
        invariant
            i <= list@.len(),
            item == chars@.subrange(from as int, to as int),
            from <= to <= chars@.len(),
            forall|j: int| 0 <= j < i ==> texts(list@)[j] != item,
        decreases list.len() - i,
    {
        let entry = str_chars(list[i].as_str());
        if chars_eq(chars, from, to, entry.as_slice()) {
            assert(texts(list@)[i as int] == item);
            return true;
        }
        i += 1;
    }
    false
}

/// Whether `text` is one of the strings of `list`.
pub(crate) fn list_holds(list: &Vec<String>, text: &str) -> (r: bool)
    ensures
        r == texts(list@).contains(text@),
{
    let chars = str_chars(text);
    assert(chars@.subrange(0, chars@.len() as int) =~= text@);
    list_contains(list, chars.as_slice(), 0, chars.len())
}

/// The first protocol of the offer `offer` that `supported` holds.
pub fn choose_protocol(offer: &str, supported: &Vec<String>) -> (r: Option<String>)
    ensures
        opt_text(r) == first_supported(offer@, 0, texts(supported@)),
{
    let chars = str_chars(offer);
    let chars = chars.as_slice();
    let mut at: usize = 0;
    loop
        invariant
            at <= chars@.len(),
            chars@ == offer@,
            first_supported(offer@, 0, texts(supported@)) == first_supported(
                offer@,
                at as int,
                texts(supported@),
            ),
        decreases chars@.len() - at,
    {
        let c = find_char(chars, ',', at, chars.len());
        let (a, b) = trim_bounds(chars, at, c);
        if list_contains(supported, chars, a, b) {
            return Some(chars_to_string(chars, a, b));
        }
        if c >= chars.len() {
            return None;
        }
        at = c + 1;
    }
}

/// Settles the subprotocol of a connection, as a server does.
pub fn negotiate_protocol(request: &HandshakeRequest, config: &HandshakeConfig) -> (r: Result<
    Option<String>,
    Error,
>)
    ensures
        match negotiated_protocol(request@, config@) {
            Ok(p) => r matches Ok(chosen) && opt_text(chosen) == p,
            Err(f) => r matches Err(e) && reports_handshake_fault(e, f),
        },
{
    if config.protocols.len() == 0 {
        return Ok(None);
    }
    match request.headers.get(HEADER_SEC_WEBSOCKET_PROTOCOL) {
        None => {
            if config.require_protocol {
                Err(
                    Error::Protocol(
                        ProtocolError::MissingHeader(HEADER_SEC_WEBSOCKET_PROTOCOL.to_string()),
                    ),
                )
            } else {
                Ok(None)
            }
        },
        Some(offer) => {
            match choose_protocol(offer.as_str(), &config.protocols) {
                Some(p) => Ok(Some(p)),
                None => {
                    if config.require_protocol {
                        Err(Error::Protocol(ProtocolError::UnsupportedProtocol(offer.clone())))
                    } else {
                        Ok(None)
                    }
                },
            }
        },
    }
}

fn check_origin(request: &HandshakeRequest, config: &HandshakeConfig) -> (r: Result<(), Error>)
    ensures
        verdict_is(r, origin_fault(request@, config@)),
{
    let received = match request.headers.get(ORIGIN) {
        Some(o) => o,
        None => {
            return Ok(());
        },
    };
    let ghost permitted = permitted_origins(config@);
    match &config.origin {
        Some(own) => {
            assert(permitted[0] == own@);
            if str_eq(own.as_str(), received.as_str()) {
                assert(permitted.contains(received@));
                return Ok(());
            }
            if list_holds(&config.allowed_origins, received.as_str()) {
                let ghost k = choose|k: int|
                    0 <= k < config@.allowed_origins.len() && config@.allowed_origins[k]
                        == received@;
                assert(permitted[k + 1] == received@);
                return Ok(());
            }
            assert(!permitted.contains(received@)) by {
                if permitted.contains(received@) {
                    let k = choose|k: int| 0 <= k < permitted.len() && permitted[k] == received@;
                    if k > 0 {
                        assert(config@.allowed_origins[k - 1] == received@);
                    }
                }
            }
            Err(
                Error::Protocol(
                    ProtocolError::InvalidOrigin {
                        expected: own.clone(),
                        received: received.clone(),
                    },
                ),
            )
        },
        None => {
            assert(permitted =~= config@.allowed_origins);
            if config.allowed_origins.len() == 0 {
                return Ok(());
            }
            if list_holds(&config.allowed_origins, received.as_str()) {
                return Ok(());
            }
            Err(
                Error::Protocol(
                    ProtocolError::InvalidOrigin {
                        expected: config.allowed_origins[0].clone(),
                        received: received.clone(),
                    },
                ),
            )
        },
    }
}

/// Validate a client handshake request; `decoded_key` is what decoding
/// the key of the request gave.
pub fn validate_client_handshake_with(
    request: &HandshakeRequest,
    config: &HandshakeConfig,
    decoded_key: &Option<Vec<u8>>,
) -> (r: Result<(), Error>)
    ensures
        verdict_is(r, client_fault(request@, config@, byte_view(*decoded_key))),
{
    if !str_eq(request.method.as_str(), GET) {
        return Err(Error::Protocol(ProtocolError::InvalidMethod(request.method.clone())));
    }
    let upgrade = match request.headers.get(HEADER_UPGRADE) {
        Some(v) => v,
        None => {
            return Err(Error::Protocol(ProtocolError::MissingHeader(HEADER_UPGRADE.to_string())));
        },
    };
    if !equals_lower(upgrade.as_str(), WEBSOCKET) {
        return Err(
            Error::Protocol(
                ProtocolError::InvalidHeaderValue {
                    header: HEADER_UPGRADE.to_string(),
                    value: upgrade.clone(),
                },
            ),
        );
    }
    let connection = match request.headers.get(HEADER_CONNECTION) {
        Some(v) => v,
        None => {
            return Err(
                Error::Protocol(ProtocolError::MissingHeader(HEADER_CONNECTION.to_string())),
            );
        },
    };
    if !value_has_token(connection.as_str(), "upgrade") {
        return Err(
            Error::Protocol(
                ProtocolError::InvalidHeaderValue {
                    header: HEADER_CONNECTION.to_string(),
                    value: connection.clone(),
                },
            ),
        );
    }
    let key = match request.headers.get(HEADER_SEC_WEBSOCKET_KEY) {
        Some(v) => v,
        None => {
            return Err(
                Error::Protocol(
                    ProtocolError::MissingHeader(HEADER_SEC_WEBSOCKET_KEY.to_string()),
                ),
            );
        },
    };
    if !decoded_key_is_valid(decoded_key) {
        return Err(
            Error::Protocol(
                ProtocolError::InvalidHeaderValue {
                    header: HEADER_SEC_WEBSOCKET_KEY.to_string(),
                    value: key.clone(),
                },
            ),
        );
    }
    let version = match request.headers.get(HEADER_SEC_WEBSOCKET_VERSION) {
        Some(v) => v,
        None => {
            return Err(
                Error::Protocol(
                    ProtocolError::MissingHeader(HEADER_SEC_WEBSOCKET_VERSION.to_string()),
                ),
            );
        },
    };
    if !validate_version(version.as_str()) {
        return Err(
            Error::Protocol(
                ProtocolError::InvalidHeaderValue {
                    header: HEADER_SEC_WEBSOCKET_VERSION.to_string(),
                    value: version.clone(),
                },
            ),
        );
    }
    match check_origin(request, config) {
        Ok(()) => {},
        Err(e) => {
            return Err(e);
        },
    }
    match negotiate_protocol(request, config) {
        Ok(_) => Ok(()),
        Err(e) => Err(e),
    }
}

/// Validate a client handshake request
pub fn validate_client_handshake(request: &HandshakeRequest, config: &HandshakeConfig) -> (r:
    Result<(), Error>)
    ensures
        verdict_is(r, client_fault(request@, config@, decoded_key_of(request@))),
{
    let decoded = match request.headers.get(HEADER_SEC_WEBSOCKET_KEY) {
        Some(key) => base64_decode(key.as_str()),
        None => None,
    };
    validate_client_handshake_with(request, config, &decoded)
}

/// The first fault, in the order of the checks, of a response to an
/// upgrade request: the status, which must be 101, then the headers
/// `Upgrade` and `Connection`, then the accept value, which must be
/// `expected`.
pub open spec fn server_fault(resp: ResponseView, expected: Seq<char>) -> Option<HandshakeFault> {
    let upgrade = lookup(resp.headers, HEADER_UPGRADE@);
    let connection = lookup(resp.headers, HEADER_CONNECTION@);
    let accept = lookup(resp.headers, HEADER_SEC_WEBSOCKET_ACCEPT@);
    if resp.status != SWITCHING_PROTOCOLS {
        Some(HandshakeFault::UnexpectedStatus(resp.status))
    } else if upgrade is None {
        Some(HandshakeFault::MissingHeader(HEADER_UPGRADE@))
    } else if lower(upgrade->0) != WEBSOCKET@ {
        Some(HandshakeFault::InvalidHeaderValue { header: HEADER_UPGRADE@, value: upgrade->0 })
    } else if connection is None {
        Some(HandshakeFault::MissingHeader(HEADER_CONNECTION@))
    } else if !has_token(connection->0, 0, "upgrade"@) {
        Some(
            HandshakeFault::InvalidHeaderValue {
                header: HEADER_CONNECTION@,
                value: connection->0,
            },
        )
    } else if accept is None {
        Some(HandshakeFault::MissingHeader(HEADER_SEC_WEBSOCKET_ACCEPT@))
    } else if accept->0 != expected {
        Some(HandshakeFault::InvalidAcceptKey { expected, received: accept->0 })
    } else {
        None
    }
}

/// Validate a server handshake response against the accept value that
/// the client expects
pub fn validate_server_handshake_with(response: &HandshakeResponse, expected_accept: &str) -> (r:
    Result<(), Error>)
    ensures
        verdict_is(r, server_fault(response@, expected_accept@)),
{
    if response.status != SWITCHING_PROTOCOLS {
        return Err(Error::Protocol(ProtocolError::UnexpectedStatus(response.status)));
    }
    let upgrade = match response.headers.get(HEADER_UPGRADE) {
        Some(v) => v,
        None => {
            return Err(Error::Protocol(ProtocolError::MissingHeader(HEADER_UPGRADE.to_string())));
        },
    };
    if !equals_lower(upgrade.as_str(), WEBSOCKET) {
        return Err(
            Error::Protocol(
                ProtocolError::InvalidHeaderValue {
                    header: HEADER_UPGRADE.to_string(),
                    value: upgrade.clone(),
                },
            ),
        );
    }
    let connection = match response.headers.get(HEADER_CONNECTION) {
        Some(v) => v,
        None => {
            return Err(
                Error::Protocol(ProtocolError::MissingHeader(HEADER_CONNECTION.to_string())),
            );
        },
    };
    if !value_has_token(connection.as_str(), "upgrade") {
        return Err(
            Error::Protocol(
                ProtocolError::InvalidHeaderValue {
                    header: HEADER_CONNECTION.to_string(),
                    value: connection.clone(),
                },
            ),
        );
    }
    let accept = match response.headers.get(HEADER_SEC_WEBSOCKET_ACCEPT) {
        Some(v) => v,
        None => {
            return Err(
                Error::Protocol(
                    ProtocolError::MissingHeader(HEADER_SEC_WEBSOCKET_ACCEPT.to_string()),
                ),
            );
        },
    };
    if !str_eq(accept.as_str(), expected_accept) {
        return Err(
            Error::Protocol(
                ProtocolError::InvalidAcceptKey {
                    expected: expected_accept.to_string(),
                    received: accept.clone(),
                },
            ),
        );
    }
    Ok(())
}

/// Validate a server handshake response: the accept value must answer
/// the key that the client sent.
pub fn validate_server_handshake(response: &HandshakeResponse, client_key: &str) -> (r: Result<
    (),
    Error,
>)
    ensures
        verdict_is(r, server_fault(response@, accept_key(client_key@))),
{
    match compute_accept_key(client_key) {
        Ok(expected) => validate_server_handshake_with(response, expected.as_str()),
        Err(e) => Err(e),
    }
}

} // verus!
