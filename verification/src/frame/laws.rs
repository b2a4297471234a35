//! What holds of writing and reading frames: reading undoes writing,
//! masking undoes itself, and a length is written in its shortest form.

use crate::frame::{Frame, FrameView, MAX_PAYLOAD_LEN};
use crate::frame::parse::{
    declared_len, ext_len, frame_len, key_at, len7, mask_bit, MaskPolicy, ParseConfig, Parsed,
    parsed, payload_start, raw_payload, scan, scanned_frame,
};
use crate::frame::wire::{
    be64_bytes, be64_value, bit, first_byte, key_bytes, length_bytes, wire_bytes, wire_header,
    wire_payload, xor_mask,
};
use vstd::prelude::*;

verus! {

/// Masking is an involution: masking twice with one key changes nothing.
pub proof fn lemma_mask_involution(data: Seq<u8>, key: [u8; 4])
    ensures
        xor_mask(xor_mask(data, key), key) == data,
{
    assert forall|a: u8, k: u8| (a ^ k) ^ k == a by {
        assert((a ^ k) ^ k == a) by (bit_vector);
    }
    assert(xor_mask(xor_mask(data, key), key) =~= data);
}

/// The frames that a receiver configured by `cfg` accepts: a defined
/// opcode, no reserved bit but the first, and that only on a data frame
/// when compression was negotiated; control frames final and short; the
/// payload within the limits; the key present exactly when the frame is
/// masked, and masking as the receiver requires it.
pub open spec fn legal(f: FrameView, cfg: ParseConfig) -> bool {
    &&& !f.opcode.spec_is_reserved()
    &&& !f.rsv2 && !f.rsv3
    &&& f.rsv1 ==> cfg.compression_enabled && f.opcode.spec_is_data()
    &&& f.opcode.spec_is_control() ==> f.fin && f.payload.len() <= 125
    &&& f.payload.len() <= cfg.max_frame_size
    &&& f.payload.len() <= MAX_PAYLOAD_LEN
    &&& f.masked == (f.mask is Some)
    &&& cfg.masking == MaskPolicy::Masked ==> f.masked
    &&& cfg.masking == MaskPolicy::Unmasked ==> !f.masked
}

/// Eight bytes written most significant first spell out the number they
/// were made from.
pub proof fn lemma_be64_roundtrip(n: nat)
    requires
        n <= u64::MAX,
    ensures
        be64_value(be64_bytes(n), 0) == n,
        be64_bytes(n).len() == 8,
        n <= MAX_PAYLOAD_LEN ==> be64_bytes(n)[0] < 128,
{
    let b = be64_bytes(n);
    let q1 = n / 0x100;
    let q2 = n / 0x1_0000;
    let q3 = n / 0x100_0000;
    let q4 = n / 0x1_0000_0000;
    let q5 = n / 0x100_0000_0000;
    let q6 = n / 0x1_0000_0000_0000;
    let q7 = n / 0x100_0000_0000_0000;
    assert(q2 == q1 / 256);
    assert(q3 == q2 / 256);
    assert(q4 == q3 / 256);
    assert(q5 == q4 / 256);
    assert(q6 == q5 / 256);
    assert(q7 == q6 / 256);
    assert(q7 < 256);
    assert(b[7] == n % 256);
    assert(b[6] == q1 % 256);
    assert(b[5] == q2 % 256);
    assert(b[4] == q3 % 256);
    assert(b[3] == q4 % 256);
    assert(b[2] == q5 % 256);
    assert(b[1] == q6 % 256);
    assert(b[0] == q7);
    assert(q6 == q7 * 256 + b[1]);
    assert(q5 == q6 * 256 + b[2]);
    assert(q4 == q5 * 256 + b[3]);
    assert(q3 == q4 * 256 + b[4]);
    assert(q2 == q3 * 256 + b[5]);
    assert(q1 == q2 * 256 + b[6]);
    assert(n == q1 * 256 + b[7]);
}

/// The first header byte reads back as the flags and the opcode that it
/// was made from.
pub proof fn lemma_first_byte_reads_back(f: FrameView)
    ensures
        (first_byte(f) >= 128) == f.fin,
        (first_byte(f) / 64 % 2 == 1) == f.rsv1,
        (first_byte(f) / 32 % 2 == 1) == f.rsv2,
        (first_byte(f) / 16 % 2 == 1) == f.rsv3,
        first_byte(f) % 16 == f.opcode.spec_value(),
{
    let v = f.opcode.spec_value();
    assert(v < 16);
    let x: int = 128 * bit(f.fin) + 64 * bit(f.rsv1) + 32 * bit(f.rsv2) + 16 * bit(f.rsv3) + v;
    assert(0 <= x < 256);
    assert(first_byte(f) == x);
    assert(x / 64 == 2 * bit(f.fin) + bit(f.rsv1));
    assert(x / 32 == 4 * bit(f.fin) + 2 * bit(f.rsv1) + bit(f.rsv2));
    assert(x / 16 == 8 * bit(f.fin) + 4 * bit(f.rsv1) + 2 * bit(f.rsv2) + bit(f.rsv3));
}

/// The length field reads back as the length that it was made from, and
/// is in the shortest form that holds it.
pub proof fn lemma_length_reads_back(first: u8, n: nat, masked: bool, tail: Seq<u8>)
    requires
        n <= MAX_PAYLOAD_LEN,
    ensures
        ({
            let w = seq![first] + length_bytes(n, masked) + tail;
            &&& w.len() >= 2 + ext_len(w)
            &&& mask_bit(w) == masked
            &&& declared_len(w) == n
            &&& length_bytes(n, masked).len() == 1 + ext_len(w)
            &&& len7(w) == 127 ==> w[2] < 128
            &&& len7(w) < 126 <==> n < 126
            &&& len7(w) == 126 <==> 126 <= n <= 0xFFFF
            &&& len7(w) == 127 <==> n > 0xFFFF
        }),
{
    let lb = length_bytes(n, masked);
    let w = seq![first] + lb + tail;
    assert(lb.len() >= 1);
    assert(w[1] == lb[0]);
    if n < 126 {
        assert(lb.len() == 1);
    } else if n <= 0xFFFF {
        assert(lb.len() == 3);
        assert(w[2] == lb[1] && w[3] == lb[2]);
        assert(lb[1] == (n / 256 % 256) as u8 && lb[2] == (n % 256) as u8);
    } else {
        lemma_be64_roundtrip(n);
        let e = be64_bytes(n);
        assert(lb.len() == 9);
        assert(lb[0] == (128 * bit(masked) + 127) as u8);
        assert forall|i: int| 0 <= i < 8 implies w[2 + i] == e[i] by {
            assert(w[2 + i] == lb[1 + i]);
        }
        assert(be64_value(w, 2) == be64_value(e, 0));
    }
}

/// The header of a written frame reads back as the frame's own fields.
pub proof fn lemma_header_reads_back(f: FrameView, rest: Seq<u8>)
    requires
        f.masked == (f.mask is Some),
        f.payload.len() <= MAX_PAYLOAD_LEN,
    ensures
        ({
            let w = wire_bytes(f) + rest;
            &&& w.len() >= 2 + ext_len(w)
            &&& w[0] == first_byte(f)
            &&& mask_bit(w) == f.masked
            &&& declared_len(w) == f.payload.len()
            &&& payload_start(w) == wire_header(f).len()
            &&& frame_len(w) == wire_bytes(f).len()
            &&& len7(w) == 127 ==> w[2] < 128
        }),
{
    let n = f.payload.len();
    let w = wire_bytes(f) + rest;
    let lb = length_bytes(n, f.masked);
    let kb = key_bytes(f.mask);
    let tail = kb + wire_payload(f) + rest;
    lemma_length_reads_back(first_byte(f), n, f.masked, tail);
    assert(w =~= seq![first_byte(f)] + lb + tail);
    assert(wire_header(f).len() == 1 + lb.len() + kb.len());
    assert(wire_payload(f).len() == n);
}

/// A legal frame that is written and read again comes back unchanged, and
/// reading takes exactly the bytes that writing produced, whatever follows
/// them in the buffer.
pub proof fn lemma_frame_roundtrip(f: FrameView, cfg: ParseConfig, rest: Seq<u8>)
    requires
        legal(f, cfg),
    ensures
        scan(wire_bytes(f) + rest, cfg) is Accepted,
        scanned_frame(wire_bytes(f) + rest) == f,
        frame_len(wire_bytes(f) + rest) == wire_bytes(f).len(),
{
    let w = wire_bytes(f) + rest;
    let h = wire_header(f);
    let p = wire_payload(f);
    lemma_header_reads_back(f, rest);
    lemma_first_byte_reads_back(f);
    crate::protocol::lemma_opcode_value_roundtrip(f.opcode, 0);
    assert(p.len() == f.payload.len());
    assert(raw_payload(w) =~= p);
    match f.mask {
        Some(k) => {
            let at = payload_start(w) - 4;
            assert(h =~= seq![first_byte(f)] + length_bytes(f.payload.len(), f.masked) + k@);
            assert(key_at(w, at)@ =~= k@) by {
                assert forall|i: int| 0 <= i < 4 implies w[at + i] == k@[i] by {
                    assert(w[at + i] == h[at + i]);
                }
            }
            assert(key_at(w, at) =~= k);
            lemma_mask_involution(f.payload, k);
        },
        None => {},
    }
    assert(scanned_frame(w).payload =~= f.payload);
}

/// Parsing undoes encoding: a legal frame without the compression bit,
/// written to the wire and followed by anything, parses as itself and takes
/// exactly the bytes that were written.
pub proof fn lemma_parse_inverts_encode(f: FrameView, cfg: ParseConfig, rest: Seq<u8>)
    requires
        legal(f, cfg),
        !f.rsv1,
    ensures
        parsed(wire_bytes(f) + rest, cfg) == (Parsed::Frame {
            frame: f,
            consumed: wire_bytes(f).len(),
        }),
{
    lemma_frame_roundtrip(f, cfg, rest);
}

/// Encoded frames always use the shortest length form that can hold the
/// payload length: seven bits below 126, sixteen bits up to 65535, and
/// sixty-four bits only above that.
pub proof fn lemma_length_form_is_minimal(f: FrameView)
    ensures
        ({
            let w = wire_bytes(f);
            let n = f.payload.len();
            &&& w.len() >= 2
            &&& n < 126 ==> len7(w) == n
            &&& 126 <= n <= 0xFFFF ==> len7(w) == 126
            &&& n > 0xFFFF ==> len7(w) == 127
            &&& wire_header(f).len() == 2 + ext_len(w) + key_bytes(f.mask).len()
        }),
{
    let n = f.payload.len();
    let w = wire_bytes(f);
    let lb = length_bytes(n, f.masked);
    assert(wire_header(f) =~= seq![first_byte(f)] + lb + key_bytes(f.mask));
    assert(lb.len() >= 1);
    assert(w[1] == lb[0]);
}

} // verus!
