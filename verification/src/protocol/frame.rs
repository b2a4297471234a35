//! Frame header bit positions and masks.

use vstd::prelude::*;

verus! {

/// FIN bit position
pub const FIN_BIT: u8 = 0x80;

/// RSV1 bit position
pub const RSV1_BIT: u8 = 0x40;

/// RSV2 bit position
pub const RSV2_BIT: u8 = 0x20;

/// RSV3 bit position
pub const RSV3_BIT: u8 = 0x10;

/// Opcode mask
pub const OPCODE_MASK: u8 = 0x0F;

/// MASK bit position
pub const MASK_BIT: u8 = 0x80;

/// Payload length mask for 7-bit length
pub const PAYLOAD_LEN_MASK: u8 = 0x7F;

/// Extended payload length (16-bit) marker
pub const PAYLOAD_LEN_16: u8 = 126;

/// Extended payload length (64-bit) marker
pub const PAYLOAD_LEN_64: u8 = 127;

/// Masking key length
pub const MASKING_KEY_LEN: usize = 4;

} // verus!
