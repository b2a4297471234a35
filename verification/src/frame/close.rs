//! Close frames: a close code and a reason as the payload of a frame.

use crate::frame::{Frame, plain_frame};
use crate::frame::wire::be16_bytes;
use crate::protocol::Opcode;
use vstd::prelude::*;
use vstd::string::StringSliceAdditionalSpecFns;

verus! {

/// The payload of a close frame: the code, if any, most significant byte
/// first, then the reason, if any.
pub open spec fn close_payload(code: Option<u16>, reason: Option<Seq<u8>>) -> Seq<u8> {
    (match code {
        Some(c) => be16_bytes(c as nat),
        None => Seq::<u8>::empty(),
    }) + (match reason {
        Some(r) => r,
        None => Seq::<u8>::empty(),
    })
}

/// The bytes of an optional text.
pub open spec fn reason_bytes(reason: Option<&str>) -> Option<Seq<u8>> {
    match reason {
        Some(r) => Some(r.spec_bytes()),
        None => None,
    }
}

/// Why a close frame cannot be built from a code and a reason, if it
/// cannot: a reason needs a code, the code must be one that may be sent,
/// and the reason is at most 123 bytes long.
pub open spec fn close_fault(code: Option<u16>, reason: Option<Seq<u8>>) -> Option<
    crate::error::CloseError,
> {
    match code {
        None => {
            if reason is Some && reason->0.len() > 0 {
                Some(crate::error::CloseError::InvalidCode { code: 1005 })
            } else {
                None
            }
        },
        Some(c) => {
            if !crate::protocol::utils::close_code_is_sendable(c) {
                Some(crate::error::CloseError::InvalidCode { code: c })
            } else if reason is Some && reason->0.len() > 123 {
                Some(
                    crate::error::CloseError::ReasonTooLong {
                        len: reason->0.len() as usize,
                        max: 123,
                    },
                )
            } else {
                None
            }
        },
    }
}

/// Says why a code and a reason make no close frame, if they make none.
pub fn check_close(code: Option<u16>, reason: Option<&str>) -> (r: Option<crate::error::CloseError>)
    ensures
        r == close_fault(code, reason_bytes(reason)),
{
    let reason_len = match reason {
        Some(r) => r.as_bytes().len(),
        None => 0,
    };
    match code {
        None => {
            if reason_len > 0 {
                Some(crate::error::CloseError::InvalidCode { code: 1005 })
            } else {
                None
            }
        },
        Some(c) => {
            if !crate::protocol::utils::is_valid_close_code(c) {
                Some(crate::error::CloseError::InvalidCode { code: c })
            } else if reason_len > 123 {
                Some(crate::error::CloseError::ReasonTooLong { len: reason_len, max: 123 })
            } else {
                None
            }
        },
    }
}

impl Frame {
    /// Create a close frame with optional code and reason. Nothing is
    /// checked: see [`Frame::try_close`].
    pub fn close(code: Option<u16>, reason: Option<&str>) -> (f: Frame)
        ensures
            f@ == plain_frame(Opcode::Close, close_payload(code, reason_bytes(reason))),
    {
        let mut payload: Vec<u8> = Vec::new();
        if let Some(code) = code {
            payload.push((code / 256 % 256) as u8);
            payload.push((code % 256) as u8);
        }
        if let Some(reason) = reason {
            payload.extend_from_slice(reason.as_bytes());
        }
        assert(payload@ =~= close_payload(code, reason_bytes(reason)));
        Frame::new(Opcode::Close, payload)
    }

    /// Create a close frame, or say why the code and the reason make none.
    pub fn try_close(code: Option<u16>, reason: Option<&str>) -> (r: Result<
        Frame,
        crate::error::CloseError,
    >)
        ensures
            match r {
                Ok(f) => close_fault(code, reason_bytes(reason)) is None && f@ == plain_frame(
                    Opcode::Close,
                    close_payload(code, reason_bytes(reason)),
                ),
                Err(e) => close_fault(code, reason_bytes(reason)) == Some(e),
            },
    {
        match check_close(code, reason) {
            Some(e) => Err(e),
            None => Ok(Frame::close(code, reason)),
        }
    }
}

} // verus!
