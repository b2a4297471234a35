//! Random bytes from the `rand` crate.
//!
//! Nothing is claimed of the values: a caller is verified for every key
//! that may come back.

use rand::RngCore;
use vstd::prelude::*;

verus! {

/// Calls `rand::random` for a four-byte masking key. Any four bytes may
/// come back.
#[verifier::external_body]
pub(crate) fn random_mask_key() -> (key: [u8; 4]) {
    rand::random::<[u8; 4]>()
}

/// Calls `RngCore::fill_bytes` of `rand::thread_rng()` for the sixteen bytes
/// of a handshake nonce. Any sixteen bytes may come back.
#[verifier::external_body]
pub(crate) fn random_nonce() -> (nonce: [u8; 16]) {
    let mut nonce = [0u8; 16];
    rand::thread_rng().fill_bytes(&mut nonce);
    nonce
}

} // verus!
