//! Reading the header of a request, and answering a request that asks
//! for no upgrade.

use crate::error::{Error, ProtocolError, TimeoutError};
use crate::handshake::opt_text;
use crate::handshake::parse::{parse_client_handshake, parsed_request, RequestFault};
use crate::headers::{Headers, lookup};
use crate::protocol::constants::{HEADER_UPGRADE, MAX_HEADER_SIZE};
use crate::text::{decimal, decimal_string, lower, str_chars, str_eq};
use vstd::prelude::*;
use vstd::string::StringExecFns;

verus! {

/// Whether the four bytes of `buf` from index `at` are the two line ends
/// that end the header.
pub open spec fn terminator_at(buf: Seq<u8>, at: int) -> bool {
    0 <= at && at + 4 <= buf.len() && buf[at] == 13 && buf[at + 1] == 10 && buf[at + 2] == 13
        && buf[at + 3] == 10
}

/// The index of the first terminator of `buf` at or after `from`, or the
/// length of `buf` if there is none.
pub open spec fn terminator_index(buf: Seq<u8>, from: int) -> int
    decreases buf.len() - from,
{
    if from < 0 || from + 4 > buf.len() {
        buf.len() as int
    } else if terminator_at(buf, from) {
        from
    } else {
        terminator_index(buf, from + 1)
    }
}

/// The length of the header of `buf`, its terminator included, if the
/// header is complete.
pub open spec fn header_len(buf: Seq<u8>) -> Option<nat> {
    if terminator_index(buf, 0) < buf.len() {
        Some((terminator_index(buf, 0) + 4) as nat)
    } else {
        None
    }
}

/// Finds the end of the header: the index after the first empty line.
pub fn find_header_end(buf: &[u8]) -> (r: Option<usize>)
    ensures
        match header_len(buf@) {
            Some(n) => r matches Some(end) && end == n && n <= buf@.len(),
            None => r is None,
        },
{
    if buf.len() < 4 {
        return None;
    }
    let last = buf.len() - 4;
    let mut i: usize = 0;
    while i <= last
        invariant
            last + 4 == buf@.len(),
            i <= last + 1,
            terminator_index(buf@, 0) == terminator_index(buf@, i as int),
        decreases last + 1 - i,
    {
        if buf[i] == 13 && buf[i + 1] == 10 && buf[i + 2] == 13 && buf[i + 3] == 10 {
            return Some(i + 4);
        }
        i += 1;
    }
    None
}

/// What the reader of a handshake is to do next.
#[derive(Debug)]
pub enum ReadStep {
    /// The header is complete; it is this many bytes long.
    Done {
        /// Length of the header with its terminator
        header_len: usize,
    },
    /// The handshake failed: the stream is to be closed without an answer.
    Fail(Error),
    /// More bytes are to be read.
    More,
}

/// What the reader of a handshake is to do, as a mathematical value.
pub enum ReadVerdict {
    Done(nat),
    TimedOut,
    TooLarge,
    More,
}

/// What the reader of a handshake is to do once `buf` was read and
/// `elapsed` milliseconds have passed: give up after `timeout`; else give
/// up once more than 8 KiB were read, whether the header is complete or
/// not; else go on with a complete header; else read on.
pub open spec fn read_verdict(buf: Seq<u8>, elapsed: u64, timeout: u64) -> ReadVerdict {
    if elapsed >= timeout {
        ReadVerdict::TimedOut
    } else if buf.len() > MAX_HEADER_SIZE {
        ReadVerdict::TooLarge
    } else if header_len(buf) is Some {
        ReadVerdict::Done(header_len(buf)->0)
    } else {
        ReadVerdict::More
    }
}

/// Decides what the reader of a handshake is to do next.
pub fn read_step(buf: &[u8], elapsed: u64, timeout: u64) -> (r: ReadStep)
    ensures
        match read_verdict(buf@, elapsed, timeout) {
            ReadVerdict::Done(n) => r matches ReadStep::Done { header_len } && header_len == n,
            ReadVerdict::TimedOut => r matches ReadStep::Fail(
                Error::Timeout(TimeoutError::Handshake { timeout_ms }),
            ) && timeout_ms == timeout,
            ReadVerdict::TooLarge => r matches ReadStep::Fail(Error::CapacityExceeded { size })
                && size == buf@.len(),
            ReadVerdict::More => r is More,
        },
{
    if elapsed >= timeout {
        return ReadStep::Fail(Error::Timeout(TimeoutError::Handshake { timeout_ms: timeout }));
    }
    if buf.len() > MAX_HEADER_SIZE {
        return ReadStep::Fail(Error::CapacityExceeded { size: buf.len() });
    }
    match find_header_end(buf) {
        Some(end) => ReadStep::Done { header_len: end },
        None => ReadStep::More,
    }
}

/// The answer to a request that asks for no upgrade.
#[derive(Debug, Clone)]
pub struct HttpResponse {
    /// Status code
    pub status: u16,
    /// Reason phrase
    pub reason: String,
    /// Content type of the body, if there is a body
    pub content_type: Option<String>,
    /// Body
    pub body: String,
}

/// The mathematical value of an answer.
pub struct HttpResponseView {
    pub status: u16,
    pub reason: Seq<char>,
    pub content_type: Option<Seq<char>>,
    pub body: Seq<char>,
}

impl View for HttpResponse {
    type V = HttpResponseView;

    open spec fn view(&self) -> HttpResponseView {
        HttpResponseView {
            status: self.status,
            reason: self.reason@,
            content_type: opt_text(self.content_type),
            body: self.body@,
        }
    }
}

/// The answer to a request for `path` with the method `method`: the
/// health of the server, its metrics, or nothing found.
pub open spec fn routed(method: Seq<char>, path: Seq<char>, metrics: Seq<char>)
    -> HttpResponseView {
    if method == "GET"@ && path == "/health"@ {
        HttpResponseView {
            status: 200,
            reason: "OK"@,
            content_type: Some("application/json"@),
            body: "{\"status\":\"ok\"}"@,
        }
    } else if method == "GET"@ && path == "/metrics"@ {
        HttpResponseView {
            status: 200,
            reason: "OK"@,
            content_type: Some("text/plain; version=0.0.4; charset=utf-8"@),
            body: metrics,
        }
    } else {
        not_found()
    }
}

/// The answer that says that nothing was found.
pub open spec fn not_found() -> HttpResponseView {
    HttpResponseView {
        status: 404,
        reason: "Not Found"@,
        content_type: None,
        body: Seq::empty(),
    }
}

/// Whether a request asks for the upgrade to WebSocket.
pub open spec fn asks_upgrade(headers: crate::headers::Fields) -> bool {
    lookup(headers, HEADER_UPGRADE@) matches Some(v) && lower(v) == "websocket"@
}

/// Whether a request asks for the upgrade to WebSocket
pub fn is_upgrade_request(headers: &Headers) -> (r: bool)
    ensures
        r == asks_upgrade(headers@),
{
    match headers.get(HEADER_UPGRADE) {
        Some(v) => {
            let chars = str_chars(v.as_str());
            let word = str_chars("websocket");
            assert(chars@.subrange(0, chars@.len() as int) =~= chars@);
            crate::text::chars_eq_lower(chars.as_slice(), 0, chars.len(), word.as_slice())
        },
        None => false,
    }
}

/// Answers a request that asks for no upgrade; `metrics` is the text of
/// the metrics, as their keeper gives it.
pub fn route_http(method: &str, path: &str, metrics: &str) -> (r: HttpResponse)
    ensures
        r@ == routed(method@, path@, metrics@),
{
    let get = str_eq(method, "GET");
    if get && str_eq(path, "/health") {
        HttpResponse {
            status: 200,
            reason: "OK".to_string(),
            content_type: Some("application/json".to_string()),
            body: "{\"status\":\"ok\"}".to_string(),
        }
    } else if get && str_eq(path, "/metrics") {
        HttpResponse {
            status: 200,
            reason: "OK".to_string(),
            content_type: Some("text/plain; version=0.0.4; charset=utf-8".to_string()),
            body: metrics.to_string(),
        }
    } else {
        HttpResponse::not_found()
    }
}

/// What a server makes of the text of a request before any handshake: the
/// answer to a request that asks for no upgrade, or nothing, which leaves
/// the request to the handshake. A request with another method than GET
/// finds nothing; a text that is no request at all is left to the
/// handshake, which refuses it.
pub open spec fn classified(text: Seq<char>, metrics: Seq<char>) -> Option<HttpResponseView> {
    match parsed_request(text) {
        Ok(request) => if asks_upgrade(request.headers) {
            None
        } else {
            Some(routed(request.method, request.uri, metrics))
        },
        Err(RequestFault::InvalidMethod(_)) => Some(not_found()),
        Err(_) => None,
    }
}

/// Decides whether the text of a request is answered as plain HTTP, and
/// how, or goes on to the handshake; `metrics` is the text of the
/// metrics, as their keeper gives it.
pub fn classify_request(text: &str, metrics: &str) -> (r: Option<HttpResponse>)
    ensures
        match classified(text@, metrics@) {
            Some(answer) => r matches Some(response) && response@ == answer,
            None => r is None,
        },
{
    match parse_client_handshake(text) {
        Ok(request) => {
            if is_upgrade_request(&request.headers) {
                None
            } else {
                Some(route_http(request.method.as_str(), request.uri.as_str(), metrics))
            }
        },
        Err(Error::Protocol(ProtocolError::InvalidMethod(_))) => Some(HttpResponse::not_found()),
        Err(_) => None,
    }
}

impl HttpResponse {
    /// The answer that says that nothing was found
    pub fn not_found() -> (r: HttpResponse)
        ensures
            r@ == not_found(),
    {
        HttpResponse {
            status: 404,
            reason: "Not Found".to_string(),
            content_type: None,
            body: String::new(),
        }
    }
}

/// An answer as it is sent: the status line, the content type if there is
/// one, the length of the body in bytes, an empty line and the body.
pub open spec fn http_text(r: HttpResponseView) -> Seq<char> {
    "HTTP/1.1 "@ + decimal(r.status as nat) + " "@ + r.reason + "\r\n"@ + (match r.content_type {
        Some(t) => "Content-Type: "@ + t + "\r\n"@,
        None => Seq::empty(),
    }) + "Content-Length: "@ + decimal(vstd::utf8::encode_utf8(r.body).len()) + "\r\n\r\n"@
        + r.body
}

impl HttpResponse {
    /// The answer as it is sent
    pub fn to_string(&self) -> (s: String)
        ensures
            s@ == http_text(self@),
    {
        let mut s = "HTTP/1.1 ".to_string();
        let code = decimal_string(self.status as u64);
        s.append(code.as_str());
        s.append(" ");
        s.append(self.reason.as_str());
        s.append("\r\n");
        match &self.content_type {
            Some(t) => {
                s.append("Content-Type: ");
                s.append(t.as_str());
                s.append("\r\n");
            },
            None => {},
        }
        s.append("Content-Length: ");
        let n = decimal_string(self.body.as_str().as_bytes().len() as u64);
        s.append(n.as_str());
        s.append("\r\n\r\n");
        s.append(self.body.as_str());
        s
    }
}

} // verus!
