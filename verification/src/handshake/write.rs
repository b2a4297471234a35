//! Writing a request and a response as text.

use crate::handshake::{HandshakeRequest, HandshakeResponse, RequestView, ResponseView};
use crate::headers::{Fields, Headers};
use crate::text::{decimal, decimal_string, str_eq};
use vstd::prelude::*;
use vstd::string::StringExecFns;

verus! {

/// The usual spelling of a header name that the handshake uses; any other
/// name is written as it is.
pub open spec fn canonical_name(name: Seq<char>) -> Seq<char> {
    if name == "host"@ {
        "Host"@
    } else if name == "upgrade"@ {
        "Upgrade"@
    } else if name == "connection"@ {
        "Connection"@
    } else if name == "origin"@ {
        "Origin"@
    } else if name == "sec-websocket-key"@ {
        "Sec-WebSocket-Key"@
    } else if name == "sec-websocket-version"@ {
        "Sec-WebSocket-Version"@
    } else if name == "sec-websocket-protocol"@ {
        "Sec-WebSocket-Protocol"@
    } else if name == "sec-websocket-extensions"@ {
        "Sec-WebSocket-Extensions"@
    } else if name == "sec-websocket-accept"@ {
        "Sec-WebSocket-Accept"@
    } else {
        name
    }
}

/// The first `n` fields of `h` as header lines, each ended by a carriage
/// return and a line feed.
pub open spec fn header_lines(h: Fields, n: int) -> Seq<char>
    decreases n,
{
    if n <= 0 {
        Seq::empty()
    } else {
        header_lines(h, n - 1) + canonical_name(h[n - 1].0) + ": "@ + h[n - 1].1 + "\r\n"@
    }
}

/// A request as it is sent: the request line, the header lines and an
/// empty line.
pub open spec fn request_text(r: RequestView) -> Seq<char> {
    r.method + " "@ + r.uri + " "@ + r.version + "\r\n"@ + header_lines(
        r.headers,
        r.headers.len() as int,
    ) + "\r\n"@
}

/// A response as it is sent: the status line, the header lines and an
/// empty line.
pub open spec fn response_text(r: ResponseView) -> Seq<char> {
    "HTTP/1.1 "@ + decimal(r.status as nat) + " "@ + r.status_message + "\r\n"@ + header_lines(
        r.headers,
        r.headers.len() as int,
    ) + "\r\n"@
}

fn canonical(name: &str) -> (r: &str)
    ensures
        r@ == canonical_name(name@),
{
    if str_eq(name, "host") {
        "Host"
    } else if str_eq(name, "upgrade") {
        "Upgrade"
    } else if str_eq(name, "connection") {
        "Connection"
    } else if str_eq(name, "origin") {
        "Origin"
    } else if str_eq(name, "sec-websocket-key") {
        "Sec-WebSocket-Key"
    } else if str_eq(name, "sec-websocket-version") {
        "Sec-WebSocket-Version"
    } else if str_eq(name, "sec-websocket-protocol") {
        "Sec-WebSocket-Protocol"
    } else if str_eq(name, "sec-websocket-extensions") {
        "Sec-WebSocket-Extensions"
    } else if str_eq(name, "sec-websocket-accept") {
        "Sec-WebSocket-Accept"
    } else {
        name
    }
}

fn append_header_lines(out: &mut String, headers: &Headers)
    ensures
        final(out)@ == old(out)@ + header_lines(headers@, headers@.len() as int) + "\r\n"@,
{
    let mut i: usize = 0;
    while i < headers.len()
        invariant
            i <= headers@.len(),
            out@ == old(out)@ + header_lines(headers@, i as int),
        decreases headers@.len() - i,
    {
        let (name, value) = headers.entry(i);
        out.append(canonical(name.as_str()));
        out.append(": ");
        out.append(value.as_str());
        out.append("\r\n");
        assert(out@ =~= old(out)@ + header_lines(headers@, i + 1));
        i += 1;
    }
    out.append("\r\n");
}

/// Convert handshake request to HTTP string
pub fn request_to_string(request: &HandshakeRequest) -> (s: String)
    ensures
        s@ == request_text(request@),
{
    let mut s = String::new();
    s.append(request.method.as_str());
    s.append(" ");
    s.append(request.uri.as_str());
    s.append(" ");
    s.append(request.version.as_str());
    s.append("\r\n");
    append_header_lines(&mut s, &request.headers);
    s
}

/// Convert handshake response to HTTP string
pub fn response_to_string(response: &HandshakeResponse) -> (s: String)
    ensures
        s@ == response_text(response@),
{
    let mut s = "HTTP/1.1 ".to_string();
    let code = decimal_string(response.status as u64);
    s.append(code.as_str());
    s.append(" ");
    s.append(response.status_message.as_str());
    s.append("\r\n");
    append_header_lines(&mut s, &response.headers);
    s
}

} // verus!
