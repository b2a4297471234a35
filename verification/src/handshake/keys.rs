//! The key of a request and the accept value that answers it.

use crate::buffer::byte_view;
use crate::digest::{
    base64_decode, base64_decode_result, base64_encode, base64_encode_result, sha1, sha1_result,
};
use crate::error::Error;
use crate::protocol::constants::{WEBSOCKET_MAGIC, WEBSOCKET_VERSION};
use crate::random::random_nonce;
use crate::text::str_eq;
use vstd::prelude::*;
use vstd::slice::slice_to_vec;
use vstd::utf8::encode_utf8;

verus! {

/// The accept value that answers a client key: the Base64 text of the
/// SHA-1 digest of the key followed by the fixed GUID of RFC 6455.
pub open spec fn accept_key(client_key: Seq<char>) -> Seq<char> {
    base64_encode_result(sha1_result(encode_utf8(client_key) + encode_utf8(WEBSOCKET_MAGIC@)))
}

/// A key is valid when it is the Base64 text of exactly 16 bytes;
/// `decoded` is what decoding the key gave.
pub open spec fn key_decodes_to_nonce(decoded: Option<Seq<u8>>) -> bool {
    decoded matches Some(bytes) && bytes.len() == 16
}

/// The key that a nonce of 16 bytes makes.
pub fn key_from_nonce(nonce: &[u8; 16]) -> (key: String)
    ensures
        key@ == base64_encode_result(nonce@),
{
    base64_encode(nonce.as_slice())
}

/// Generate a random WebSocket key: the Base64 text of 16 random bytes.
pub fn generate_key() -> (key: String)
    ensures
        exists|nonce: Seq<u8>| nonce.len() == 16 && key@ == #[trigger] base64_encode_result(nonce),
{
    let nonce = random_nonce();
    key_from_nonce(&nonce)
}

/// Compute WebSocket accept key from client key
pub fn compute_accept_key(client_key: &str) -> (r: Result<String, Error>)
    ensures
        r matches Ok(accept) && accept@ == accept_key(client_key@),
{
    let mut combined = slice_to_vec(client_key.as_bytes());
    combined.extend_from_slice(WEBSOCKET_MAGIC.as_bytes());
    assert(combined@ =~= encode_utf8(client_key@) + encode_utf8(WEBSOCKET_MAGIC@));
    let hash = sha1(combined.as_slice());
    Ok(base64_encode(hash.as_slice()))
}

/// Whether what decoding a key gave makes the key valid.
pub fn decoded_key_is_valid(decoded: &Option<Vec<u8>>) -> (r: bool)
    ensures
        r == key_decodes_to_nonce(byte_view(*decoded)),
{
    match decoded {
        Some(bytes) => bytes.len() == 16,
        None => false,
    }
}

/// Validate WebSocket key format: the key must decode to 16 bytes.
pub fn validate_key(key: &str) -> (r: bool)
    ensures
        r == key_decodes_to_nonce(base64_decode_result(key@)),
{
    let decoded = base64_decode(key);
    decoded_key_is_valid(&decoded)
}

/// Validate WebSocket version
pub fn validate_version(version: &str) -> (r: bool)
    ensures
        r == (version@ == WEBSOCKET_VERSION@),
{
    str_eq(version, WEBSOCKET_VERSION)
}

} // verus!
