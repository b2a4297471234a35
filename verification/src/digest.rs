//! SHA-1 and Base64, done by the `sha1` and `base64` crates.
//!
//! The digest of a byte string and its Base64 text are not described
//! here: they are named. Each wrapper is believed to return what the name
//! stands for; of SHA-1 it is also believed that a digest has 20 bytes.

use base64::Engine;
use base64::engine::general_purpose::STANDARD;
use crate::buffer::byte_view;
use sha1::{Digest, Sha1};
use vstd::prelude::*;

verus! {

/// The SHA-1 digest of `data`.
pub uninterp spec fn sha1_result(data: Seq<u8>) -> Seq<u8>;

/// The text that the standard Base64 alphabet, with padding, gives for
/// `data`.
pub uninterp spec fn base64_encode_result(data: Seq<u8>) -> Seq<char>;

/// The bytes that `text` stands for in the standard Base64 alphabet with
/// padding; `None` if `text` is no such encoding.
pub uninterp spec fn base64_decode_result(text: Seq<char>) -> Option<Seq<u8>>;

/// Calls `Sha1::digest` of the `sha1` crate. The result is the named
/// digest, which has 20 bytes.
#[verifier::external_body]
pub(crate) fn sha1(data: &[u8]) -> (r: Vec<u8>)
    ensures
        r@ == sha1_result(data@),
        r@.len() == 20,
{
    Sha1::digest(data).to_vec()
}

/// Calls `Engine::encode` of `base64`'s `STANDARD` engine. It panics when
/// the length of the text does not fit a `usize`, so that is required.
#[verifier::external_body]
pub(crate) fn base64_encode(data: &[u8]) -> (r: String)
    requires
        data@.len() / 3 * 4 + 4 <= usize::MAX,
    ensures
        r@ == base64_encode_result(data@),
{
    STANDARD.encode(data)
}

/// Calls `Engine::decode` of `base64`'s `STANDARD` engine; an error
/// becomes `None`.
#[verifier::external_body]
pub(crate) fn base64_decode(text: &str) -> (r: Option<Vec<u8>>)
    ensures
        byte_view(r) == base64_decode_result(text@),
{
    match STANDARD.decode(text) {
        Ok(bytes) => Some(bytes),
        Err(_) => None,
    }
}

} // verus!
