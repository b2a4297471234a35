//! Compressing the payload of a data frame, as `permessage-deflate` asks
//! for it.

use crate::buffer::{byte_view, bytes_as_slice, bytes_from_vec};
use crate::compression::{deflate, deflate_result};
use crate::frame::{Frame, FrameView};
use vstd::prelude::*;

verus! {

/// The compressed form of a payload as it is sent: what deflating gives,
/// without the four bytes `00 00 FF FF` that a sync flush ends with.
pub open spec fn strip_marker(d: Seq<u8>) -> Seq<u8> {
    if d.len() >= 4 && d[d.len() - 4] == 0x00 && d[d.len() - 3] == 0x00 && d[d.len() - 2] == 0xFF
        && d[d.len() - 1] == 0xFF {
        d.take(d.len() - 4)
    } else {
        d
    }
}

/// Whether `compress` changes a frame: it must be asked to, and the frame
/// must be an uncompressed data frame with a payload.
pub open spec fn compressible(f: FrameView, enabled: bool) -> bool {
    enabled && f.opcode.spec_is_data() && !f.rsv1 && f.payload.len() > 0
}

/// A frame after compression: `deflated` is what deflating its payload
/// gave. A frame that is not to be compressed, or whose payload did not
/// deflate, stays as it is.
pub open spec fn compressed(f: FrameView, enabled: bool, deflated: Option<Seq<u8>>) -> FrameView {
    if compressible(f, enabled) && deflated is Some {
        FrameView { rsv1: true, payload: strip_marker(deflated->0), ..f }
    } else {
        f
    }
}

impl Frame {
    /// The frame with its payload replaced by the compressed form
    /// `deflated`, where the frame is to be compressed at all.
    pub fn with_deflated(self, enabled: bool, deflated: Option<Vec<u8>>) -> (f: Frame)
        ensures
            f@ == compressed(self@, enabled, byte_view(deflated)),
    {
        let eligible = enabled && self.opcode.is_data() && !self.rsv[0] && bytes_as_slice(
            &self.payload,
        ).len() > 0;
        if !eligible {
            return self;
        }
        match deflated {
            Some(mut d) => {
                let n = d.len();
                if n >= 4 && d[n - 4] == 0x00 && d[n - 3] == 0x00 && d[n - 2] == 0xFF && d[n - 1]
                    == 0xFF {
                    d.truncate(n - 4);
                }
                let mut f = self;
                f.rsv = [true, f.rsv[1], f.rsv[2]];
                f.payload = bytes_from_vec(d);
                f
            },
            None => self,
        }
    }

    /// Apply compression to the frame (for data frames): the payload of an
    /// uncompressed, non-empty data frame is deflated at level 6, and the
    /// first reserved bit is set.
    pub fn compress(self, enabled: bool) -> (f: Frame)
        ensures
            f@ == compressed(self@, enabled, deflate_result(self@.payload, 6)),
    {
        let deflated = deflate(bytes_as_slice(&self.payload), 6);
        self.with_deflated(enabled, deflated)
    }

    /// Apply compression at the given level, from 0 for none to 9 for the
    /// most; a level above 9 counts as 9.
    pub fn compress_at(self, enabled: bool, level: u8) -> (f: Frame)
        ensures
            f@ == compressed(
                self@,
                enabled,
                deflate_result(
                    self@.payload,
                    if level > 9 {
                        9u32
                    } else {
                        level as u32
                    },
                ),
            ),
    {
        let level: u32 = if level > 9 {
            9
        } else {
            level as u32
        };
        let deflated = deflate(bytes_as_slice(&self.payload), level);
        self.with_deflated(enabled, deflated)
    }
}

} // verus!
