//! A parser that is fed bytes as they arrive and gives whole frames.

use bytes::BytesMut;
use crate::buffer::{
    bytes_mut_advance, bytes_mut_as_slice, bytes_mut_clear, bytes_mut_extend, bytes_mut_len,
    bytes_mut_new, bytes_mut_seq,
};
use crate::error::{Error, FrameError};
use crate::frame::Frame;
use crate::frame::parse::{
    default_parse_config, MaskPolicy, parse_incremental, ParseConfig, Parsed, parsed, ParseOutcome,
    scan,
};
use crate::frame::wire::reports;
use crate::protocol::constants::DEFAULT_MAX_FRAME_SIZE;
use vstd::prelude::*;

verus! {

/// What a parser makes of a buffer: the results in order, and the bytes
/// that stay behind.
pub struct Drained {
    pub results: Seq<Parsed>,
    pub rest: Seq<u8>,
}

/// Takes frames from the start of `buf` for as long as there are whole
/// frames. Bytes that are no acceptable frame end the sequence with that
/// result and are discarded with all that follows them.
pub open spec fn drained(buf: Seq<u8>, cfg: ParseConfig) -> Drained
    decreases buf.len(),
{
    match parsed(buf, cfg) {
        Parsed::Frame { frame, consumed } => {
            if 0 < consumed <= buf.len() {
                let d = drained(buf.skip(consumed as int), cfg);
                Drained { results: seq![parsed(buf, cfg)] + d.results, rest: d.rest }
            } else {
                Drained { results: Seq::empty(), rest: buf }
            }
        },
        Parsed::NeedMore(_) => Drained { results: Seq::empty(), rest: buf },
        p => Drained { results: seq![p], rest: Seq::empty() },
    }
}

/// The entry `r` of a parser's output is the mathematical result `p`.
pub open spec fn entry_is(r: Result<Frame, Error>, p: Parsed) -> bool {
    match p {
        Parsed::Frame { frame, consumed } => r matches Ok(f) && f@ == frame,
        Parsed::NeedMore(_) => false,
        Parsed::Rejected(rej) => r matches Err(Error::Frame(e)) && reports(e, rej),
        Parsed::Undecodable => r matches Err(Error::Frame(e)) && e
            == FrameError::DecompressionFailed,
    }
}

/// Frame parser for incremental parsing: bytes are fed as they arrive, and
/// whole frames come out.
#[derive(Debug)]
pub struct FrameParser {
    /// Buffer for partial frame data
    buffer: BytesMut,
    /// What the parser accepts
    config: ParseConfig,
}

impl Default for FrameParser {
    fn default() -> (p: Self)
        ensures
            p.buffered() == Seq::<u8>::empty(),
            p.config() == default_parse_config(false),
    {
        FrameParser {
            buffer: bytes_mut_new(),
            config: ParseConfig {
                compression_enabled: false,
                max_frame_size: DEFAULT_MAX_FRAME_SIZE,
                masking: MaskPolicy::Any,
            },
        }
    }
}

impl FrameParser {
    /// The bytes that the parser holds back.
    pub closed spec fn buffered(&self) -> Seq<u8> {
        bytes_mut_seq(self.buffer)
    }

    /// What the parser accepts.
    pub closed spec fn config(&self) -> ParseConfig {
        self.config
    }

    /// Create a new frame parser
    pub fn new() -> (p: Self)
        ensures
            p.buffered() == Seq::<u8>::empty(),
            p.config() == default_parse_config(false),
    {
        FrameParser {
            buffer: bytes_mut_new(),
            config: ParseConfig {
                compression_enabled: false,
                max_frame_size: DEFAULT_MAX_FRAME_SIZE,
                masking: MaskPolicy::Any,
            },
        }
    }

    /// Create a new frame parser with compression enabled
    pub fn with_compression(compression_enabled: bool) -> (p: Self)
        ensures
            p.buffered() == Seq::<u8>::empty(),
            p.config() == default_parse_config(compression_enabled),
    {
        FrameParser {
            buffer: bytes_mut_new(),
            config: ParseConfig {
                compression_enabled,
                max_frame_size: DEFAULT_MAX_FRAME_SIZE,
                masking: MaskPolicy::Any,
            },
        }
    }

    /// Create a new frame parser that accepts what `config` allows
    pub fn with_config(config: ParseConfig) -> (p: Self)
        ensures
            p.buffered() == Seq::<u8>::empty(),
            p.config() == config,
    {
        FrameParser { buffer: bytes_mut_new(), config }
    }

    /// Feed data to the parser and try to extract frames
    pub fn feed(&mut self, data: &[u8]) -> (frames: Vec<Result<Frame, Error>>)
        requires
            old(self).buffered().len() + data@.len() <= usize::MAX,
        ensures
            final(self).config() == old(self).config(),
            ({
                let d = drained(old(self).buffered() + data@, old(self).config());
                &&& final(self).buffered() == d.rest
                &&& frames@.len() == d.results.len()
                &&& forall|i: int|
                    0 <= i < frames@.len() ==> entry_is(#[trigger] frames@[i], d.results[i])
            }),
    {
        bytes_mut_extend(&mut self.buffer, data);
        self.extract_frames()
    }

    /// Extract complete frames from the buffer
    fn extract_frames(&mut self) -> (frames: Vec<Result<Frame, Error>>)
        ensures
            final(self).config() == old(self).config(),
            ({
                let d = drained(old(self).buffered(), old(self).config());
                &&& final(self).buffered() == d.rest
                &&& frames@.len() == d.results.len()
                &&& forall|i: int|
                    0 <= i < frames@.len() ==> entry_is(#[trigger] frames@[i], d.results[i])
            }),
    {
        let mut frames: Vec<Result<Frame, Error>> = Vec::new();
        let ghost cfg = self.config;
        let ghost goal = drained(self.buffered(), cfg);
        let ghost done: Seq<Parsed> = Seq::empty();
        loop
            invariant
                self.config == cfg,
                goal.results == done + drained(self.buffered(), cfg).results,
                goal.rest == drained(self.buffered(), cfg).rest,
                frames@.len() == done.len(),
                forall|i: int| 0 <= i < frames@.len() ==> entry_is(#[trigger] frames@[i], done[i]),
            ensures
                self.config == cfg,
                self.buffered() == goal.rest,
                frames@.len() == goal.results.len(),
                forall|i: int|
                    0 <= i < frames@.len() ==> entry_is(#[trigger] frames@[i], goal.results[i]),
            decreases self.buffered().len(),
        {
            let ghost before = self.buffered();
            let ghost p = parsed(before, cfg);
            match self.try_parse_frame() {
                Some(Ok(frame)) => {
                    proof {
                        let consumed = p->consumed;
                        done = done.push(p);
                    }
                    frames.push(Ok(frame));
                },
                Some(Err(e)) => {
                    proof {
                        done = done.push(p);
                    }
                    frames.push(Err(e));
                    break;
                },
                None => {
                    break;
                },
            }
        }
        frames
    }

    /// Try to parse a single frame from the buffer
    fn try_parse_frame(&mut self) -> (r: Option<Result<Frame, Error>>)
        ensures
            final(self).config() == old(self).config(),
            match parsed(old(self).buffered(), old(self).config()) {
                Parsed::Frame { frame, consumed } => r matches Some(Ok(f)) && f@ == frame
                    && final(self).buffered() == old(self).buffered().skip(consumed as int),
                Parsed::NeedMore(_) => r is None && final(self).buffered() == old(self).buffered(),
                p => r matches Some(Err(e)) && entry_is(Err(e), p) && final(self).buffered()
                    == Seq::<u8>::empty(),
            },
    {
        match parse_incremental(bytes_mut_as_slice(&self.buffer), &self.config) {
            ParseOutcome::Complete { frame, consumed } => {
                bytes_mut_advance(&mut self.buffer, consumed);
                Some(Ok(frame))
            },
            ParseOutcome::NeedMore { min_needed } => None,
            ParseOutcome::Invalid(e) => {
                bytes_mut_clear(&mut self.buffer);
                Some(Err(Error::Frame(e)))
            },
        }
    }

    /// Get the number of bytes currently buffered
    pub fn buffered_bytes(&self) -> (n: usize)
        ensures
            n == self.buffered().len(),
    {
        bytes_mut_len(&self.buffer)
    }

    /// Clear the parser buffer
    pub fn clear(&mut self)
        ensures
            final(self).buffered() == Seq::<u8>::empty(),
            final(self).config() == old(self).config(),
    {
        bytes_mut_clear(&mut self.buffer);
    }
}

} // verus!
