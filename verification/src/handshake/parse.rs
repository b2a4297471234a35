//! Parsing the text of a request and of a response.

use crate::error::{Error, ProtocolError};
use crate::handshake::{HandshakeRequest, HandshakeResponse, RequestView, ResponseView};
use crate::headers::{Fields, Headers, inserted};
use crate::protocol::http_method::GET;
use crate::text::{
    chars_eq, chars_to_lower_string, chars_to_string, find_char, first_index, lower, skip_spaces,
    skip_spaces_from, skip_word, skip_word_from, str_chars, trim_bounds, trimmed,
};
use vstd::prelude::*;

verus! {

/// The index of the line feed that ends the line starting at `from`, or
/// the length of the text if no line feed follows.
pub open spec fn line_end(s: Seq<char>, from: int) -> int {
    first_index(s, '\n', from, s.len() as int)
}

/// The index at which the content of the line starting at `from` stops: a
/// carriage return before the line feed is no content.
pub open spec fn line_stop(s: Seq<char>, from: int) -> int {
    let e = line_end(s, from);
    if e > from && s[e - 1] == '\r' {
        e - 1
    } else {
        e
    }
}

/// The index at which the line after the one starting at `from` starts.
pub open spec fn next_line(s: Seq<char>, from: int) -> int {
    let e = line_end(s, from);
    if e < s.len() {
        e + 1
    } else {
        e
    }
}

/// The header fields that the lines of `s` from index `from` spell out,
/// added to `acc`; the lines end at the first empty line or at the end of
/// the text. A field is a name, put in lower case, a colon and a value,
/// both without the white space around them. A line without a colon is
/// a fault, and is given back.
pub open spec fn header_fields(s: Seq<char>, from: int, acc: Fields) -> Result<Fields, Seq<char>>
    decreases s.len() - from,
{
    if from < 0 || from >= s.len() {
        Ok(acc)
    } else {
        let stop = line_stop(s, from);
        if stop == from {
            Ok(acc)
        } else {
            let colon = first_index(s, ':', from, stop);
            if colon == stop {
                Err(s.subrange(from, stop))
            } else {
                proof {
                    crate::text::lemma_first_index_bounds(s, '\n', from, s.len() as int);
                }
                header_fields(
                    s,
                    next_line(s, from),
                    inserted(acc, lower(trimmed(s, from, colon)), trimmed(s, colon + 1, stop)),
                )
            }
        }
    }
}

/// The reasons for which the text of a request is refused.
pub enum RequestFault {
    /// The text is empty.
    MissingRequestLine,
    /// The request line holds no method.
    MissingMethod,
    /// The request line holds no request target.
    MissingUri,
    /// The request line holds no HTTP version.
    MissingVersion,
    /// The method is not GET.
    InvalidMethod(Seq<char>),
    /// A header line holds no colon.
    BadHeaderLine(Seq<char>),
}

/// The bounds of the first three words of `s[0..stop]`.
pub open spec fn three_words(s: Seq<char>, stop: int) -> (int, int, int, int, int, int) {
    let a0 = skip_spaces(s, 0, stop);
    let a1 = skip_word(s, a0, stop);
    let b0 = skip_spaces(s, a1, stop);
    let b1 = skip_word(s, b0, stop);
    let c0 = skip_spaces(s, b1, stop);
    let c1 = skip_word(s, c0, stop);
    (a0, a1, b0, b1, c0, c1)
}

/// The request that the text `s` spells out: a request line of a method,
/// which must be GET, a request target and a version, followed by header
/// lines.
pub open spec fn parsed_request(s: Seq<char>) -> Result<RequestView, RequestFault> {
    if s.len() == 0 {
        Err(RequestFault::MissingRequestLine)
    } else {
        let stop = line_stop(s, 0);
        let (m0, m1, u0, u1, v0, v1) = three_words(s, stop);
        if m0 == m1 {
            Err(RequestFault::MissingMethod)
        } else if u0 == u1 {
            Err(RequestFault::MissingUri)
        } else if v0 == v1 {
            Err(RequestFault::MissingVersion)
        } else if s.subrange(m0, m1) != GET@ {
            Err(RequestFault::InvalidMethod(s.subrange(m0, m1)))
        } else {
            match header_fields(s, next_line(s, 0), Seq::empty()) {
                Err(line) => Err(RequestFault::BadHeaderLine(line)),
                Ok(headers) => Ok(
                    RequestView {
                        method: s.subrange(m0, m1),
                        uri: s.subrange(u0, u1),
                        version: s.subrange(v0, v1),
                        headers,
                        body: Seq::empty(),
                    },
                ),
            }
        }
    }
}

/// The error value `e` reports the fault `fault`.
pub open spec fn reports_request_fault(e: Error, fault: RequestFault) -> bool {
    match fault {
        RequestFault::InvalidMethod(m) => e matches Error::Protocol(
            ProtocolError::InvalidMethod(method),
        ) && method@ == m,
        RequestFault::BadHeaderLine(line) => e matches Error::Protocol(
            ProtocolError::InvalidHeader { header, value },
        ) && header@ == "unknown"@ && value@ == line,
        _ => e matches Error::Protocol(ProtocolError::InvalidFormat(_)),
    }
}

/// The bounds of the line that starts at `from`: where its content stops
/// and where the next line starts.
fn line_bounds(chars: &[char], from: usize) -> (r: (usize, usize))
    requires
        from <= chars@.len(),
    ensures
        r.0 == line_stop(chars@, from as int),
        r.1 == next_line(chars@, from as int),
        from <= r.0 <= r.1 <= chars@.len(),
        from < chars@.len() ==> from < r.1,
{
    let end = find_char(chars, '\n', from, chars.len());
    let stop = if end > from && chars[end - 1] == '\r' {
        end - 1
    } else {
        end
    };
    let next = if end < chars.len() {
        end + 1
    } else {
        end
    };
    (stop, next)
}

/// Parses header lines from index `from` on.
fn parse_header_lines(chars: &[char], from: usize) -> (r: Result<Headers, Error>)
    requires
        from <= chars@.len(),
    ensures
        match header_fields(chars@, from as int, Seq::empty()) {
            Ok(fields) => r matches Ok(h) && h@ == fields,
            Err(line) => r matches Err(e) && reports_request_fault(
                e,
                RequestFault::BadHeaderLine(line),
            ),
        },
{
    let mut headers = Headers::new();
    let mut at = from;
    while at < chars.len()
        invariant
            at <= chars@.len(),
            header_fields(chars@, from as int, Seq::empty()) == header_fields(
                chars@,
                at as int,
                headers@,
            ),
        decreases chars.len() - at,
    {
        let (stop, next) = line_bounds(chars, at);
        if stop == at {
            return Ok(headers);
        }
        let colon = find_char(chars, ':', at, stop);
        if colon == stop {
            return Err(
                Error::Protocol(
                    ProtocolError::InvalidHeader {
                        header: "unknown".to_string(),
                        value: chars_to_string(chars, at, stop),
                    },
                ),
            );
        }
        let (n0, n1) = trim_bounds(chars, at, colon);
        let (v0, v1) = trim_bounds(chars, colon + 1, stop);
        headers.insert(chars_to_lower_string(chars, n0, n1), chars_to_string(chars, v0, v1));
        at = next;
    }
    Ok(headers)
}

/// Parse a client handshake request
pub fn parse_client_handshake(request: &str) -> (r: Result<HandshakeRequest, Error>)
    ensures
        match parsed_request(request@) {
            Ok(view) => r matches Ok(req) && req@ == view,
            Err(fault) => r matches Err(e) && reports_request_fault(e, fault),
        },
{
    let chars = str_chars(request);
    let chars = chars.as_slice();
    if chars.len() == 0 {
        return Err(
            Error::Protocol(ProtocolError::InvalidFormat("Missing request line".to_string())),
        );
    }
    let (stop, next) = line_bounds(chars, 0);
    let m0 = skip_spaces_from(chars, 0, stop);
    let m1 = skip_word_from(chars, m0, stop);
    let u0 = skip_spaces_from(chars, m1, stop);
    let u1 = skip_word_from(chars, u0, stop);
    let v0 = skip_spaces_from(chars, u1, stop);
    let v1 = skip_word_from(chars, v0, stop);
    if m0 == m1 {
        return Err(Error::Protocol(ProtocolError::InvalidFormat("Missing method".to_string())));
    }
    if u0 == u1 {
        return Err(Error::Protocol(ProtocolError::InvalidFormat("Missing URI".to_string())));
    }
    if v0 == v1 {
        return Err(
            Error::Protocol(ProtocolError::InvalidFormat("Missing HTTP version".to_string())),
        );
    }
    let get = str_chars(GET);
    if !chars_eq(chars, m0, m1, get.as_slice()) {
        return Err(Error::Protocol(ProtocolError::InvalidMethod(chars_to_string(chars, m0, m1))));
    }
    let headers = match parse_header_lines(chars, next) {
        Ok(headers) => headers,
        Err(e) => {
            return Err(e);
        },
    };
    Ok(
        HandshakeRequest {
            method: chars_to_string(chars, m0, m1),
            uri: chars_to_string(chars, u0, u1),
            version: chars_to_string(chars, v0, v1),
            headers,
            body: Vec::new(),
        },
    )
}

/// The value of a decimal digit; zero for any other character.
pub open spec fn digit_of(c: char) -> nat {
    if '0' <= c && c <= '9' {
        (c as nat - 48) as nat
    } else {
        0
    }
}

/// The number that the digits of `s` spell out.
pub open spec fn digits_value(s: Seq<char>) -> nat
    decreases s.len(),
{
    if s.len() == 0 {
        0
    } else {
        digits_value(s.drop_last()) * 10 + digit_of(s.last())
    }
}

/// Whether `s` holds decimal digits only.
pub open spec fn all_digits(s: Seq<char>) -> bool {
    forall|i: int| 0 <= i < s.len() ==> '0' <= #[trigger] s[i] && s[i] <= '9'
}

/// The status code that `s` spells out: digits only, at least one, and a
/// number of at most 65535.
pub open spec fn status_code(s: Seq<char>) -> Option<u16> {
    if s.len() > 0 && all_digits(s) && digits_value(s) <= 65535 {
        Some(digits_value(s) as u16)
    } else {
        None
    }
}

/// The digits of a longer numeral spell out no smaller number.
pub proof fn lemma_digits_prefix(s: Seq<char>, n: int)
    requires
        0 <= n <= s.len(),
    ensures
        digits_value(s.take(n)) <= digits_value(s),
    decreases s.len(),
{
    if n < s.len() {
        lemma_digits_prefix(s.drop_last(), n);
        assert(s.drop_last().take(n) =~= s.take(n));
    } else {
        assert(s.take(n) =~= s);
    }
}

/// The reasons for which the text of a response is refused.
pub enum ResponseFault {
    /// The text is empty.
    MissingStatusLine,
    /// The status line holds no HTTP version.
    MissingVersion,
    /// The status line holds no status code.
    MissingStatus,
    /// The status code is no number up to 65535.
    InvalidStatus,
    /// A header line holds no colon.
    BadHeaderLine(Seq<char>),
}

/// The response that the text `s` spells out: a status line of a
/// version, a status code and a message, followed by header lines.
pub open spec fn parsed_response(s: Seq<char>) -> Result<ResponseView, ResponseFault> {
    if s.len() == 0 {
        Err(ResponseFault::MissingStatusLine)
    } else {
        let stop = line_stop(s, 0);
        let (v0, v1, c0, c1, _w0, _w1) = three_words(s, stop);
        if v0 == v1 {
            Err(ResponseFault::MissingVersion)
        } else if c0 == c1 {
            Err(ResponseFault::MissingStatus)
        } else {
            match status_code(s.subrange(c0, c1)) {
                None => Err(ResponseFault::InvalidStatus),
                Some(status) => match header_fields(s, next_line(s, 0), Seq::empty()) {
                    Err(line) => Err(ResponseFault::BadHeaderLine(line)),
                    Ok(headers) => Ok(
                        ResponseView {
                            status,
                            status_message: trimmed(s, c1, stop),
                            headers,
                            body: Seq::empty(),
                        },
                    ),
                },
            }
        }
    }
}

/// The error value `e` reports the fault `fault`.
pub open spec fn reports_response_fault(e: Error, fault: ResponseFault) -> bool {
    match fault {
        ResponseFault::BadHeaderLine(line) => reports_request_fault(
            e,
            RequestFault::BadHeaderLine(line),
        ),
        _ => e matches Error::Protocol(ProtocolError::InvalidFormat(_)),
    }
}

/// Reads `chars[from..to]` as a status code.
pub(crate) fn parse_status(chars: &[char], from: usize, to: usize) -> (r: Option<u16>)
    requires
        from <= to <= chars@.len(),
    ensures
        r == status_code(chars@.subrange(from as int, to as int)),
{
    let ghost s = chars@.subrange(from as int, to as int);
    if from == to {
        return None;
    }
    let mut acc: u32 = 0;
    let mut i: usize = from;
    while i < to
        invariant
            from <= i <= to <= chars@.len(),
            s == chars@.subrange(from as int, to as int),
            acc == digits_value(s.take(i - from)),
            acc <= 65535,
            all_digits(s.take(i - from)),
        decreases to - i,
    {
        let c = chars[i];
        if !('0' <= c && c <= '9') {
            assert(s[i - from] == c);
            return None;
        }
        let d = (c as u32) - 48;
        proof {
            assert(s.take(i - from + 1).drop_last() =~= s.take(i - from));
            assert(s.take(i - from + 1).last() == c);
            assert(digits_value(s.take(i - from + 1)) == acc * 10 + d);
            lemma_digits_prefix(s, i - from + 1);
        }
        if acc * 10 + d > 65535 {
            return None;
        }
        acc = acc * 10 + d;
        assert(all_digits(s.take(i - from + 1))) by {
            assert forall|j: int| 0 <= j < i - from + 1 implies '0' <= #[trigger] s.take(
                i - from + 1,
            )[j] && s.take(i - from + 1)[j] <= '9' by {
                if j < i - from {
                    assert(s.take(i - from)[j] == s[j]);
                }
            }
        }
        i += 1;
    }
    assert(s.take(to - from) =~= s);
    Some(acc as u16)
}

/// Parse a server handshake response
pub fn parse_server_handshake(response: &str) -> (r: Result<HandshakeResponse, Error>)
    ensures
        match parsed_response(response@) {
            Ok(view) => r matches Ok(resp) && resp@ == view,
            Err(fault) => r matches Err(e) && reports_response_fault(e, fault),
        },
{
    let chars = str_chars(response);
    let chars = chars.as_slice();
    if chars.len() == 0 {
        return Err(
            Error::Protocol(ProtocolError::InvalidFormat("Missing status line".to_string())),
        );
    }
    let (stop, next) = line_bounds(chars, 0);
    let v0 = skip_spaces_from(chars, 0, stop);
    let v1 = skip_word_from(chars, v0, stop);
    let c0 = skip_spaces_from(chars, v1, stop);
    let c1 = skip_word_from(chars, c0, stop);
    if v0 == v1 {
        return Err(
            Error::Protocol(ProtocolError::InvalidFormat("Missing HTTP version".to_string())),
        );
    }
    if c0 == c1 {
        return Err(
            Error::Protocol(ProtocolError::InvalidFormat("Missing status code".to_string())),
        );
    }
    let status = match parse_status(chars, c0, c1) {
        Some(status) => status,
        None => {
            return Err(
                Error::Protocol(ProtocolError::InvalidFormat("Invalid status code".to_string())),
            );
        },
    };
    let headers = match parse_header_lines(chars, next) {
        Ok(headers) => headers,
        Err(e) => {
            return Err(e);
        },
    };
    let (w0, w1) = trim_bounds(chars, c1, stop);
    Ok(
        HandshakeResponse {
            status,
            status_message: chars_to_string(chars, w0, w1),
            headers,
            body: Vec::new(),
        },
    )
}

} // verus!
