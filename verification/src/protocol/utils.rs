//! Small protocol predicates.

use crate::digest::{base64_decode_result, base64_encode_result};
use crate::handshake::keys::{accept_key, key_decodes_to_nonce};
use crate::protocol::constants::WEBSOCKET_VERSION;
use vstd::prelude::*;

verus! {

/// The close codes that may be sent on the wire: the nine named codes of
/// RFC 6455 and the application range 3000 to 4999.
pub open spec fn close_code_is_sendable(code: u16) -> bool {
    ||| 1000 <= code <= 1003
    ||| 1007 <= code <= 1011
    ||| 3000 <= code <= 4999
}

/// Check if a close code is valid
pub fn is_valid_close_code(code: u16) -> (r: bool)
    ensures
        r == close_code_is_sendable(code),
{
    (1000 <= code && code <= 1003) || (1007 <= code && code <= 1011) || (3000 <= code && code
        <= 4999)
}

/// Generate a random WebSocket key: the Base64 text of 16 random bytes.
pub fn generate_key() -> (key: String)
    ensures
        exists|nonce: Seq<u8>| nonce.len() == 16 && key@ == #[trigger] base64_encode_result(nonce),
{
    crate::handshake::keys::generate_key()
}

/// Compute WebSocket accept key
pub fn calculate_accept(key: &str) -> (accept: String)
    ensures
        accept@ == accept_key(key@),
{
    match crate::handshake::keys::compute_accept_key(key) {
        Ok(accept) => accept,
        Err(_) => String::new(),
    }
}

/// Validate WebSocket key format: the key must decode to 16 bytes.
pub fn validate_key(key: &str) -> (r: bool)
    ensures
        r == key_decodes_to_nonce(base64_decode_result(key@)),
{
    crate::handshake::keys::validate_key(key)
}

/// Validate WebSocket version
pub fn validate_version(version: &str) -> (r: bool)
    ensures
        r == (version@ == WEBSOCKET_VERSION@),
{
    crate::handshake::keys::validate_version(version)
}

} // verus!
