//! Raw DEFLATE, as `permessage-deflate` uses it, done by the `flate2` crate.
//!
//! The compressed form of a payload is not described here: it is named.
//! [`deflate_result`] and [`inflate_result`] stand for what `flate2` returns
//! for given bytes, and the two wrappers below are believed to return
//! exactly that. Nothing else is assumed of either name; in particular it is
//! not assumed that inflating undoes deflating.

use crate::buffer::byte_view;
use flate2::Compression;
use flate2::read::DeflateDecoder;
use flate2::write::DeflateEncoder;
use std::io::{Read, Write};
use vstd::prelude::*;

verus! {

/// What `flate2` produces when it compresses `data` at `level` as a raw
/// DEFLATE stream and ends it with a sync flush; `None` if it reports an
/// error.
pub uninterp spec fn deflate_result(data: Seq<u8>, level: u32) -> Option<Seq<u8>>;

/// What `flate2` produces when it decompresses `data` as a complete raw
/// DEFLATE stream; `None` if the stream is corrupt or incomplete.
pub uninterp spec fn inflate_result(data: Seq<u8>) -> Option<Seq<u8>>;

/// Calls `flate2::write::DeflateEncoder` on a vector: writes all of `data`,
/// flushes (a sync flush) and hands back what was written so far. The
/// contract only names the result. Only the levels from 0 to 9 are passed
/// on.
#[verifier::external_body]
pub(crate) fn deflate(data: &[u8], level: u32) -> (r: Option<Vec<u8>>)
    requires
        level <= 9,
    ensures
        byte_view(r) == deflate_result(data@, level),
{
    let mut encoder = DeflateEncoder::new(Vec::new(), Compression::new(level));
    if encoder.write_all(data).is_ok() && encoder.flush().is_ok() {
        Some(encoder.get_ref().clone())
    } else {
        None
    }
}

/// Calls `flate2::read::DeflateDecoder::read_to_end` on `data`. The contract
/// only names the result.
#[verifier::external_body]
pub(crate) fn inflate(data: &[u8]) -> (r: Option<Vec<u8>>)
    ensures
        byte_view(r) == inflate_result(data@),
{
    let mut out = Vec::new();
    match DeflateDecoder::new(data).read_to_end(&mut out) {
        Ok(_) => Some(out),
        Err(_) => None,
    }
}

} // verus!
