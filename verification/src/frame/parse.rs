//! Reading the wire format: one frame from the start of a buffer.
//!
//! The bytes are scanned in a fixed order, which decides what is reported
//! when several things are wrong at once: first the two fixed header
//! bytes, then the extended length, then the masking key and the payload,
//! and only when the whole frame is there the structural checks.

use bytes::BytesMut;
use crate::buffer::{
    byte_view, bytes_as_slice, bytes_from_vec, bytes_mut_advance, bytes_mut_as_slice,
    bytes_mut_len, bytes_mut_seq,
};
use crate::compression::{inflate, inflate_result};
use crate::error::{Error, FrameError};
use crate::frame::{Frame, FrameView, MAX_PAYLOAD_LEN};
use crate::frame::wire::{be16_value, be64_value, mask_bytes, Rejection, reports, xor_mask};
use crate::protocol::Opcode;
use crate::protocol::constants::DEFAULT_MAX_FRAME_SIZE;
use vstd::prelude::*;
use vstd::slice::{slice_subrange, slice_to_vec};

verus! {

/// Which frames a receiver accepts with respect to masking.
#[derive(Debug, Clone, Copy, PartialEq, Eq, Structural)]
pub enum MaskPolicy {
    /// Masked and unmasked frames are accepted.
    Any,
    /// Only masked frames are accepted: a server reading from a client.
    Masked,
    /// Only unmasked frames are accepted: a client reading from a server.
    Unmasked,
}

/// What a receiver has negotiated and allows.
#[derive(Debug, Clone, Copy)]
pub struct ParseConfig {
    /// Whether `permessage-deflate` was negotiated
    pub compression_enabled: bool,
    /// Largest payload of a single frame
    pub max_frame_size: usize,
    /// The masking rule for incoming frames
    pub masking: MaskPolicy,
}

/// The value of the seven length bits of the second header byte.
pub open spec fn len7(buf: Seq<u8>) -> nat {
    (buf[1] % 128) as nat
}

/// The number of bytes of the extended length field.
pub open spec fn ext_len(buf: Seq<u8>) -> nat {
    if len7(buf) == 126 {
        2
    } else if len7(buf) == 127 {
        8
    } else {
        0
    }
}

/// The payload length that the header declares.
pub open spec fn declared_len(buf: Seq<u8>) -> nat {
    if len7(buf) == 126 {
        be16_value(buf, 2)
    } else if len7(buf) == 127 {
        be64_value(buf, 2)
    } else {
        len7(buf)
    }
}

/// Whether the mask bit is set.
pub open spec fn mask_bit(buf: Seq<u8>) -> bool {
    buf[1] >= 128
}

/// The index of the first payload byte.
pub open spec fn payload_start(buf: Seq<u8>) -> nat {
    2 + ext_len(buf) + if mask_bit(buf) {
        4nat
    } else {
        0nat
    }
}

/// The length of the whole frame, header and payload.
pub open spec fn frame_len(buf: Seq<u8>) -> nat {
    payload_start(buf) + declared_len(buf)
}

/// The opcode bits of the first header byte.
pub open spec fn opcode_bits(buf: Seq<u8>) -> u8 {
    buf[0] % 16
}

/// The masking key of a frame whose mask bit is set.
pub open spec fn key_at(buf: Seq<u8>, at: int) -> [u8; 4] {
    [buf[at], buf[at + 1], buf[at + 2], buf[at + 3]]
}

/// The first reason, in the order of the checks, for which a complete
/// frame at the start of `buf` is refused.
pub open spec fn header_fault(buf: Seq<u8>, cfg: ParseConfig) -> Option<Rejection> {
    let fin = buf[0] >= 128;
    let rsv1 = buf[0] / 64 % 2 == 1;
    let rsv2 = buf[0] / 32 % 2 == 1;
    let rsv3 = buf[0] / 16 % 2 == 1;
    let len = declared_len(buf);
    match Opcode::decode(opcode_bits(buf)) {
        None => Some(Rejection::InvalidOpcode(opcode_bits(buf))),
        Some(opcode) => {
            if rsv2 || rsv3 {
                Some(Rejection::ReservedBits)
            } else if rsv1 && !(cfg.compression_enabled && opcode.spec_is_data()) {
                Some(Rejection::ReservedBits)
            } else if opcode.spec_is_control() && !fin {
                Some(Rejection::FragmentedControl)
            } else if opcode.spec_is_control() && len > 125 {
                Some(Rejection::TooLarge { size: len, max: 125 })
            } else if len > cfg.max_frame_size {
                Some(Rejection::TooLarge { size: len, max: cfg.max_frame_size as nat })
            } else if (cfg.masking == MaskPolicy::Masked && !mask_bit(buf)) || (cfg.masking
                == MaskPolicy::Unmasked && mask_bit(buf)) {
                Some(Rejection::Masking)
            } else {
                None
            }
        },
    }
}

/// What the bytes at the start of a buffer amount to.
pub enum Scan {
    /// No whole frame yet: at least this many more bytes are needed.
    NeedMore(nat),
    /// The bytes are no acceptable frame.
    Rejected(Rejection),
    /// A whole, acceptable frame.
    Accepted,
}

/// Reads the start of `buf` as a frame: first the two fixed header bytes,
/// then the extended length, whose high bit must be clear, then the key and
/// the payload, and only then the structural checks.
pub open spec fn scan(buf: Seq<u8>, cfg: ParseConfig) -> Scan {
    if buf.len() < 2 {
        Scan::NeedMore((2 - buf.len()) as nat)
    } else if buf.len() < 2 + ext_len(buf) {
        Scan::NeedMore((2 + ext_len(buf) - buf.len()) as nat)
    } else if len7(buf) == 127 && buf[2] >= 128 {
        Scan::Rejected(Rejection::LengthOverflow)
    } else if buf.len() < frame_len(buf) {
        Scan::NeedMore((frame_len(buf) - buf.len()) as nat)
    } else {
        match header_fault(buf, cfg) {
            Some(r) => Scan::Rejected(r),
            None => Scan::Accepted,
        }
    }
}

/// The payload bytes of the frame at the start of `buf`, as they travel.
pub open spec fn raw_payload(buf: Seq<u8>) -> Seq<u8> {
    buf.subrange(payload_start(buf) as int, frame_len(buf) as int)
}

/// The frame at the start of `buf`, its payload unmasked.
pub open spec fn scanned_frame(buf: Seq<u8>) -> FrameView {
    let mask = if mask_bit(buf) {
        Some(key_at(buf, payload_start(buf) - 4))
    } else {
        None
    };
    FrameView {
        fin: buf[0] >= 128,
        rsv1: buf[0] / 64 % 2 == 1,
        rsv2: buf[0] / 32 % 2 == 1,
        rsv3: buf[0] / 16 % 2 == 1,
        opcode: Opcode::decode(opcode_bits(buf)).unwrap(),
        masked: mask_bit(buf),
        mask,
        payload: match mask {
            Some(k) => xor_mask(raw_payload(buf), k),
            None => raw_payload(buf),
        },
    }
}

/// The result of trying to parse one frame from the start of a buffer.
#[derive(Debug, Clone)]
pub enum ParseOutcome {
    /// A frame, and the number of bytes of the buffer that it took.
    Complete {
        /// The frame
        frame: Frame,
        /// Length of the frame on the wire
        consumed: usize,
    },
    /// The buffer ends before the frame does.
    NeedMore {
        /// Least number of further bytes without which no frame can be parsed
        min_needed: u64,
    },
    /// The bytes are no acceptable frame; nothing was consumed.
    Invalid(FrameError),
}

fn read_be64(buf: &[u8], at: usize) -> (n: u64)
    requires
        at + 8 <= buf@.len(),
    ensures
        n == be64_value(buf@, at as int),
{
    let mut n: u64 = buf[at] as u64;
    n = n * 256 + buf[at + 1] as u64;
    n = n * 256 + buf[at + 2] as u64;
    n = n * 256 + buf[at + 3] as u64;
    n = n * 256 + buf[at + 4] as u64;
    n = n * 256 + buf[at + 5] as u64;
    n = n * 256 + buf[at + 6] as u64;
    n = n * 256 + buf[at + 7] as u64;
    n
}

fn check_header(buf: &[u8], cfg: &ParseConfig, len: u64) -> (r: Result<Opcode, FrameError>)
    requires
        buf@.len() >= 2,
        len == declared_len(buf@),
        len <= usize::MAX,
    ensures
        match r {
            Ok(opcode) => header_fault(buf@, *cfg) is None && Opcode::decode(opcode_bits(buf@))
                == Some(opcode),
            Err(e) => header_fault(buf@, *cfg) matches Some(rej) && reports(e, rej),
        },
{
    let b0 = buf[0];
    let fin = b0 >= 128;
    let rsv1 = b0 / 64 % 2 == 1;
    let rsv2 = b0 / 32 % 2 == 1;
    let rsv3 = b0 / 16 % 2 == 1;
    let masked = buf[1] >= 128;
    let opcode = match Opcode::from(b0 % 16) {
        Some(opcode) => opcode,
        None => {
            return Err(FrameError::InvalidOpcode(b0 % 16));
        },
    };
    if rsv2 || rsv3 {
        return Err(FrameError::ReservedBitsSet);
    }
    if rsv1 && !(cfg.compression_enabled && opcode.is_data()) {
        return Err(FrameError::ReservedBitsSet);
    }
    if opcode.is_control() && !fin {
        return Err(FrameError::FragmentedControlFrame);
    }
    if opcode.is_control() && len > 125 {
        return Err(FrameError::TooLarge { size: len as usize, max: 125 });
    }
    if len > cfg.max_frame_size as u64 {
        return Err(FrameError::TooLarge { size: len as usize, max: cfg.max_frame_size });
    }
    let refused = match cfg.masking {
        MaskPolicy::Any => false,
        MaskPolicy::Masked => !masked,
        MaskPolicy::Unmasked => masked,
    };
    if refused {
        return Err(FrameError::InvalidMasking("frame breaks the masking rule".to_string()));
    }
    Ok(opcode)
}

/// Reads one frame from the start of `buf` without looking into its
/// payload: the payload comes back unmasked but otherwise as it was sent.
pub fn scan_frame(buf: &[u8], cfg: &ParseConfig) -> (r: ParseOutcome)
    ensures
        match r {
            ParseOutcome::Complete { frame, consumed } => scan(buf@, *cfg) is Accepted && frame@
                == scanned_frame(buf@) && consumed == frame_len(buf@),
            ParseOutcome::NeedMore { min_needed } => scan(buf@, *cfg) == Scan::NeedMore(
                min_needed as nat,
            ),
            ParseOutcome::Invalid(e) => scan(buf@, *cfg) matches Scan::Rejected(rej) && reports(
                e,
                rej,
            ),
        },
{
    let have = buf.len();
    if have < 2 {
        return ParseOutcome::NeedMore { min_needed: (2 - have) as u64 };
    }
    let b0 = buf[0];
    let b1 = buf[1];
    let short = b1 % 128;
    let masked = b1 >= 128;
    let mut start: usize = 2;
    let len: u64;
    if short == 126 {
        if have < 4 {
            return ParseOutcome::NeedMore { min_needed: (4 - have) as u64 };
        }
        len = buf[2] as u64 * 256 + buf[3] as u64;
        start = 4;
    } else if short == 127 {
        if have < 10 {
            return ParseOutcome::NeedMore { min_needed: (10 - have) as u64 };
        }
        if buf[2] >= 128 {
            return ParseOutcome::Invalid(
                FrameError::InvalidHeader("payload length exceeds 63 bits".to_string()),
            );
        }
        len = read_be64(buf, 2);
        start = 10;
    } else {
        len = short as u64;
    }
    if masked {
        start = start + 4;
    }
    let total: u64 = start as u64 + len;
    if (have as u64) < total {
        return ParseOutcome::NeedMore { min_needed: total - have as u64 };
    }
    let opcode = match check_header(buf, cfg, len) {
        Ok(opcode) => opcode,
        Err(e) => {
            return ParseOutcome::Invalid(e);
        },
    };
    let end: usize = total as usize;
    let raw = slice_subrange(buf, start, end);
    let mask = if masked {
        Some([buf[start - 4], buf[start - 3], buf[start - 2], buf[start - 1]])
    } else {
        None
    };
    let payload = match mask {
        Some(key) => {
            assert(key == key_at(buf@, start - 4));
            mask_bytes(raw, &key)
        },
        None => slice_to_vec(raw),
    };
    let frame = Frame {
        fin: b0 >= 128,
        rsv: [b0 / 64 % 2 == 1, b0 / 32 % 2 == 1, b0 / 16 % 2 == 1],
        opcode,
        masked,
        mask,
        payload: bytes_from_vec(payload),
    };
    ParseOutcome::Complete { frame, consumed: end }
}

/// What follows a compressed payload before it is inflated: the four
/// bytes that the sender cut off, and an empty final block that ends the
/// stream.
pub open spec fn inflate_tail() -> Seq<u8> {
    seq![0x00u8, 0x00u8, 0xFFu8, 0xFFu8, 0x01u8, 0x00u8, 0x00u8, 0xFFu8, 0xFFu8]
}

/// The result of parsing, as a mathematical value.
pub enum Parsed {
    /// A frame and the number of bytes it took.
    Frame { frame: FrameView, consumed: nat },
    /// At least this many more bytes are needed.
    NeedMore(nat),
    /// The bytes are no acceptable frame.
    Rejected(Rejection),
    /// The payload of a compressed frame does not inflate.
    Undecodable,
}

/// What becomes of a scanned frame once its payload has been inflated, if
/// it is compressed: `inflated` is the result of inflating.
pub open spec fn finished(f: FrameView, consumed: nat, inflated: Option<Seq<u8>>) -> Parsed {
    if f.rsv1 {
        match inflated {
            Some(p) => Parsed::Frame { frame: FrameView { payload: p, ..f }, consumed },
            None => Parsed::Undecodable,
        }
    } else {
        Parsed::Frame { frame: f, consumed }
    }
}

/// Parsing one frame from the start of `buf`: the frame is scanned, and a
/// frame with the first reserved bit set has its payload inflated.
pub open spec fn parsed(buf: Seq<u8>, cfg: ParseConfig) -> Parsed {
    match scan(buf, cfg) {
        Scan::NeedMore(n) => Parsed::NeedMore(n),
        Scan::Rejected(r) => Parsed::Rejected(r),
        Scan::Accepted => {
            let f = scanned_frame(buf);
            finished(f, frame_len(buf), inflate_result(f.payload + inflate_tail()))
        },
    }
}

/// The outcome `r` is the mathematical result `p`.
pub open spec fn outcome_is(r: ParseOutcome, p: Parsed) -> bool {
    match p {
        Parsed::Frame { frame, consumed } => r matches ParseOutcome::Complete {
            frame: f,
            consumed: c,
        } && f@ == frame && c == consumed,
        Parsed::NeedMore(n) => r matches ParseOutcome::NeedMore { min_needed } && min_needed == n,
        Parsed::Rejected(rej) => r matches ParseOutcome::Invalid(e) && reports(e, rej),
        Parsed::Undecodable => r matches ParseOutcome::Invalid(e) && e
            == FrameError::DecompressionFailed,
    }
}

/// Completes a scanned frame: `inflated` is what inflating its payload
/// gave, and is only looked at when the frame is compressed.
pub fn finish_frame(frame: Frame, consumed: usize, inflated: Option<Vec<u8>>) -> (r: ParseOutcome)
    ensures
        outcome_is(r, finished(frame@, consumed as nat, byte_view(inflated))),
{
    if frame.rsv[0] {
        match inflated {
            Some(payload) => {
                let f = Frame {
                    fin: frame.fin,
                    rsv: frame.rsv,
                    opcode: frame.opcode,
                    masked: frame.masked,
                    mask: frame.mask,
                    payload: bytes_from_vec(payload),
                };
                ParseOutcome::Complete { frame: f, consumed }
            },
            None => ParseOutcome::Invalid(FrameError::DecompressionFailed),
        }
    } else {
        ParseOutcome::Complete { frame, consumed }
    }
}

/// Attempts to parse one frame from the start of `buf`.
///
/// On success the frame comes with the number of bytes that it took, so
/// that the caller can advance. When the buffer ends too early the least
/// number of missing bytes is reported. A structural error is reported as
/// the specific error; in that case, as in the previous one, nothing is
/// consumed.
pub fn parse_incremental(buf: &[u8], cfg: &ParseConfig) -> (r: ParseOutcome)
    ensures
        outcome_is(r, parsed(buf@, *cfg)),
{
    match scan_frame(buf, cfg) {
        ParseOutcome::Complete { frame, consumed } => {
            if frame.rsv[0] {
                let mut stream = slice_to_vec(bytes_as_slice(&frame.payload));
                let tail: [u8; 9] = [0x00, 0x00, 0xFF, 0xFF, 0x01, 0x00, 0x00, 0xFF, 0xFF];
                stream.extend_from_slice(tail.as_slice());
                assert(stream@ =~= frame@.payload + inflate_tail());
                let inflated = inflate(stream.as_slice());
                finish_frame(frame, consumed, inflated)
            } else {
                finish_frame(frame, consumed, None)
            }
        },
        ParseOutcome::NeedMore { min_needed } => ParseOutcome::NeedMore { min_needed },
        ParseOutcome::Invalid(e) => ParseOutcome::Invalid(e),
    }
}

/// The configuration of [`Frame::parse`]: frames of up to 16 MiB, masked
/// or not.
pub open spec fn default_parse_config(compression_enabled: bool) -> ParseConfig {
    ParseConfig {
        compression_enabled,
        max_frame_size: DEFAULT_MAX_FRAME_SIZE,
        masking: MaskPolicy::Any,
    }
}

/// How [`Frame::parse`] answers the mathematical result `p` on a buffer
/// that held `before`: a frame is taken from the buffer, everything else
/// leaves the buffer as it was.
pub open spec fn parse_reply(
    r: Result<Frame, Error>,
    p: Parsed,
    before: Seq<u8>,
    after: Seq<u8>,
) -> bool {
    match p {
        Parsed::Frame { frame, consumed } => r matches Ok(f) && f@ == frame && after
            == before.skip(consumed as int),
        Parsed::NeedMore(n) => r matches Err(
            Error::Frame(FrameError::InsufficientData { needed, have }),
        ) && have == before.len() && needed == (if before.len() + n > usize::MAX {
            usize::MAX as nat
        } else {
            before.len() + n
        }) && after == before,
        Parsed::Rejected(rej) => r matches Err(Error::Frame(e)) && reports(e, rej) && after
            == before,
        Parsed::Undecodable => r matches Err(Error::Frame(e)) && e
            == FrameError::DecompressionFailed && after == before,
    }
}

impl Frame {
    /// Parse a frame from the start of a buffer and remove it from the
    /// buffer. Frames of up to 16 MiB are accepted, masked or not. When no
    /// whole frame is there, or the bytes are no acceptable frame, the
    /// buffer is left as it is.
    pub fn parse(buf: &mut BytesMut, compression_enabled: bool) -> (r: Result<Frame, Error>)
        ensures
            parse_reply(
                r,
                parsed(bytes_mut_seq(*old(buf)), default_parse_config(compression_enabled)),
                bytes_mut_seq(*old(buf)),
                bytes_mut_seq(*final(buf)),
            ),
    {
        let cfg = ParseConfig {
            compression_enabled,
            max_frame_size: DEFAULT_MAX_FRAME_SIZE,
            masking: MaskPolicy::Any,
        };
        let outcome = parse_incremental(bytes_mut_as_slice(buf), &cfg);
        match outcome {
            ParseOutcome::Complete { frame, consumed } => {
                bytes_mut_advance(buf, consumed);
                Ok(frame)
            },
            ParseOutcome::NeedMore { min_needed } => {
                let have = bytes_mut_len(buf);
                let needed = if min_needed > (usize::MAX - have) as u64 {
                    usize::MAX
                } else {
                    have + min_needed as usize
                };
                Err(Error::Frame(FrameError::InsufficientData { needed, have }))
            },
            ParseOutcome::Invalid(e) => Err(Error::Frame(e)),
        }
    }
}

} // verus!
