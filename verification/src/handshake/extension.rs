//! Settling the `permessage-deflate` extension, the only extension that
//! the engine knows.

use crate::handshake::{ConfigView, HandshakeConfig, HandshakeRequest, opt_text, RequestView};
use crate::handshake::parse::{parse_status, status_code};
use crate::handshake::validate::list_holds;
use crate::headers::lookup;
use crate::protocol::constants::HEADER_SEC_WEBSOCKET_EXTENSIONS;
use crate::text::{
    chars_eq, chars_eq_lower, find_char, first_index, lower, skip_spaces, skip_spaces_from,
    str_chars, trim_bounds, trim_end, trimmed,
};
use vstd::prelude::*;

verus! {

/// What a server answers to an offer of `permessage-deflate` that it
/// accepts: neither side keeps its compression context between messages.
pub const DEFLATE_RESPONSE: &'static str =
    "permessage-deflate; server_no_context_takeover; client_no_context_takeover";

/// Whether the parameter in `s[from..to]` of an offer of
/// `permessage-deflate` can be honoured. The two `no_context_takeover`
/// parameters can, and so can a client window of 8 to 15 bits, with or
/// without a value. A server window can only be honoured at 15 bits, since
/// this end always compresses with the full window.
pub open spec fn param_ok(s: Seq<char>, from: int, to: int) -> bool {
    let a = skip_spaces(s, from, to);
    let b = trim_end(s, a, to);
    let eq = first_index(s, '=', a, b);
    let name = trimmed(s, a, eq);
    if eq >= b {
        name == "client_no_context_takeover"@ || name == "server_no_context_takeover"@ || name
            == "client_max_window_bits"@
    } else {
        let v0 = skip_spaces(s, eq + 1, b);
        let v1 = trim_end(s, v0, b);
        let bits = status_code(s.subrange(v0, v1));
        (name == "client_max_window_bits"@ && bits is Some && 8 <= bits->0 <= 15) || (name
            == "server_max_window_bits"@ && bits == Some(15u16))
    }
}

/// Whether each of the parameters in `s[from..to]`, which semicolons
/// separate, can be honoured.
pub open spec fn params_ok(s: Seq<char>, from: int, to: int) -> bool
    decreases to - from,
{
    if from > to {
        true
    } else {
        let c = first_index(s, ';', from, to);
        proof {
            crate::text::lemma_first_index_bounds(s, ';', from, to);
        }
        param_ok(s, from, c) && (c >= to || params_ok(s, c + 1, to))
    }
}

/// Whether the element `s[from..to]` of an offer is `permessage-deflate`
/// with parameters that can all be honoured.
pub open spec fn element_is_deflate(s: Seq<char>, from: int, to: int) -> bool {
    let semi = first_index(s, ';', from, to);
    lower(trimmed(s, from, semi)) == crate::protocol::extensions::PERMESSAGE_DEFLATE@ && (semi
        >= to || params_ok(s, semi + 1, to))
}

/// Whether one of the elements of the offer `s` from index `from`, which
/// commas separate, is an acceptable offer of `permessage-deflate`.
pub open spec fn offers_deflate(s: Seq<char>, from: int) -> bool
    decreases s.len() - from,
{
    if from < 0 || from > s.len() {
        false
    } else {
        let c = first_index(s, ',', from, s.len() as int);
        proof {
            crate::text::lemma_first_index_bounds(s, ',', from, s.len() as int);
        }
        element_is_deflate(s, from, c) || (c < s.len() && offers_deflate(s, c + 1))
    }
}

/// The extension that a server settles on: `permessage-deflate` if the
/// server supports it and the client offers it in a form that can be
/// honoured, and nothing otherwise. An offer that cannot be honoured is
/// passed over; it never fails the handshake.
pub open spec fn negotiated_extension(req: RequestView, cfg: ConfigView) -> Option<Seq<char>> {
    match lookup(req.headers, HEADER_SEC_WEBSOCKET_EXTENSIONS@) {
        Some(offer) => if cfg.extensions.contains(crate::protocol::extensions::PERMESSAGE_DEFLATE@)
            && offers_deflate(offer, 0) {
            Some(DEFLATE_RESPONSE@)
        } else {
            None
        },
        None => None,
    }
}

fn param_is_ok(chars: &[char], from: usize, to: usize) -> (r: bool)
    requires
        from <= to <= chars@.len(),
    ensures
        r == param_ok(chars@, from as int, to as int),
{
    let a = skip_spaces_from(chars, from, to);
    let b = crate::text::trim_end_from(chars, a, to);
    let eq = find_char(chars, '=', a, b);
    let (n0, n1) = trim_bounds(chars, a, eq);
    let client_bits = str_chars("client_max_window_bits");
    if eq >= b {
        let client_takeover = str_chars("client_no_context_takeover");
        let server_takeover = str_chars("server_no_context_takeover");
        chars_eq(chars, n0, n1, client_takeover.as_slice()) || chars_eq(
            chars,
            n0,
            n1,
            server_takeover.as_slice(),
        ) || chars_eq(chars, n0, n1, client_bits.as_slice())
    } else {
        let v0 = skip_spaces_from(chars, eq + 1, b);
        let v1 = crate::text::trim_end_from(chars, v0, b);
        let bits = parse_status(chars, v0, v1);
        let server_bits = str_chars("server_max_window_bits");
        match bits {
            Some(n) => (chars_eq(chars, n0, n1, client_bits.as_slice()) && 8 <= n && n <= 15) || (
            chars_eq(chars, n0, n1, server_bits.as_slice()) && n == 15),
            None => false,
        }
    }
}

fn params_are_ok(chars: &[char], from: usize, to: usize) -> (r: bool)
    requires
        from <= to <= chars@.len(),
    ensures
        r == params_ok(chars@, from as int, to as int),
{
    let mut at = from;
    loop
        invariant
            from <= at <= to <= chars@.len(),
            params_ok(chars@, from as int, to as int) == params_ok(chars@, at as int, to as int),
        decreases to - at,
    {
        let c = find_char(chars, ';', at, to);
        if !param_is_ok(chars, at, c) {
            return false;
        }
        if c >= to {
            return true;
        }
        at = c + 1;
    }
}

fn element_offers_deflate(chars: &[char], from: usize, to: usize) -> (r: bool)
    requires
        from <= to <= chars@.len(),
    ensures
        r == element_is_deflate(chars@, from as int, to as int),
{
    let semi = find_char(chars, ';', from, to);
    let (a, b) = trim_bounds(chars, from, semi);
    let name = str_chars(crate::protocol::extensions::PERMESSAGE_DEFLATE);
    if !chars_eq_lower(chars, a, b, name.as_slice()) {
        return false;
    }
    semi >= to || params_are_ok(chars, semi + 1, to)
}

/// Whether an offer of extensions holds an acceptable offer of
/// `permessage-deflate`.
pub fn offer_has_deflate(offer: &str) -> (r: bool)
    ensures
        r == offers_deflate(offer@, 0),
{
    let chars = str_chars(offer);
    let chars = chars.as_slice();
    let mut at: usize = 0;
    loop
        invariant
            at <= chars@.len(),
            chars@ == offer@,
            offers_deflate(offer@, 0) == offers_deflate(offer@, at as int),
        decreases chars@.len() - at,
    {
        let c = find_char(chars, ',', at, chars.len());
        if element_offers_deflate(chars, at, c) {
            return true;
        }
        if c >= chars.len() {
            return false;
        }
        at = c + 1;
    }
}

/// Settles the extension of a connection, as a server does.
pub fn negotiate_extension(request: &HandshakeRequest, config: &HandshakeConfig) -> (r: Option<
    String,
>)
    ensures
        opt_text(r) == negotiated_extension(request@, config@),
{
    match request.headers.get(HEADER_SEC_WEBSOCKET_EXTENSIONS) {
        Some(offer) => {
            if list_holds(&config.extensions, crate::protocol::extensions::PERMESSAGE_DEFLATE)
                && offer_has_deflate(offer.as_str()) {
                Some(DEFLATE_RESPONSE.to_string())
            } else {
                None
            }
        },
        None => None,
    }
}

} // verus!
