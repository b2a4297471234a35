//! What holds of writing and reading the text of a handshake: reading
//! undoes writing.

use crate::handshake::parse::{
    all_digits, digits_value, header_fields, line_end, line_stop, next_line, parsed_request,
    parsed_response, three_words, RequestFault, ResponseFault,
};
use crate::handshake::write::{canonical_name, header_lines, request_text, response_text};
use crate::handshake::{RequestView, ResponseView};
use crate::headers::{distinct_names, inserted, lemma_position, position, Fields};
use crate::protocol::http_method::GET;
use crate::text::{
    decimal, digit_char, first_index, is_space, lemma_first_index_is, lemma_skip_spaces_is,
    lemma_skip_word_is, lemma_trim_end_is, lower, lower_char, trimmed,
};
use vstd::prelude::*;

verus! {

/// A word: a text that is not empty and holds no white space.
pub open spec fn is_word(w: Seq<char>) -> bool {
    w.len() > 0 && forall|i: int| 0 <= i < w.len() ==> !is_space(#[trigger] w[i])
}

/// A text that a header line can hold as a name or as a value: it holds
/// no line feed, and neither begins nor ends with white space.
pub open spec fn is_field_text(t: Seq<char>) -> bool {
    &&& forall|i: int| 0 <= i < t.len() ==> #[trigger] t[i] != '\n'
    &&& t.len() > 0 ==> !is_space(t[0]) && !is_space(t[t.len() - 1])
}

/// A header name as parsing gives it: a field text in lower case that
/// holds no colon.
pub open spec fn is_field_name(t: Seq<char>) -> bool {
    &&& is_field_text(t)
    &&& forall|i: int| 0 <= i < t.len() ==> #[trigger] t[i] != ':'
    &&& forall|i: int| 0 <= i < t.len() ==> lower_char(#[trigger] t[i]) == t[i]
}

/// Header fields that can be written and read again: no name occurs
/// twice, and every name and value fits a header line.
pub open spec fn writable_fields(h: Fields) -> bool {
    &&& distinct_names(h)
    &&& forall|i: int|
        0 <= i < h.len() ==> is_field_name((#[trigger] h[i]).0) && is_field_text(h[i].1)
}

/// A request that can be written and read again: the method is GET, the
/// request target and the version are words, there is no body, and the
/// header fields can be written.
pub open spec fn writable_request(r: RequestView) -> bool {
    &&& r.method == GET@
    &&& is_word(r.uri)
    &&& is_word(r.version)
    &&& r.body.len() == 0
    &&& writable_fields(r.headers)
}

/// The usual spelling of a header name differs from the name in the case
/// of its letters only.
pub proof fn lemma_canonical_name(name: Seq<char>)
    ensures
        lower(canonical_name(name)) == lower(name),
{
    reveal_strlit("host");
    reveal_strlit("Host");
    reveal_strlit("upgrade");
    reveal_strlit("Upgrade");
    reveal_strlit("connection");
    reveal_strlit("Connection");
    reveal_strlit("origin");
    reveal_strlit("Origin");
    reveal_strlit("sec-websocket-key");
    reveal_strlit("Sec-WebSocket-Key");
    reveal_strlit("sec-websocket-version");
    reveal_strlit("Sec-WebSocket-Version");
    reveal_strlit("sec-websocket-protocol");
    reveal_strlit("Sec-WebSocket-Protocol");
    reveal_strlit("sec-websocket-extensions");
    reveal_strlit("Sec-WebSocket-Extensions");
    reveal_strlit("sec-websocket-accept");
    reveal_strlit("Sec-WebSocket-Accept");
    assert(lower(canonical_name(name)) =~= lower(name));
}

/// The header lines of the first fields are the start of the header lines
/// of more fields.
pub proof fn lemma_lines_prefix(h: Fields, n: int, m: int)
    requires
        0 <= n <= m <= h.len(),
    ensures
        header_lines(h, n).len() <= header_lines(h, m).len(),
        forall|i: int|
            0 <= i < header_lines(h, n).len() ==> #[trigger] header_lines(h, m)[i]
                == header_lines(h, n)[i],
    decreases m - n,
{
    if n < m {
        lemma_lines_prefix(h, n, m - 1);
    }
}

/// The usual spelling of a header name fits a header line as the name
/// does, and reads back as the name.
pub proof fn lemma_shown_name(name: Seq<char>)
    requires
        is_field_name(name),
    ensures
        is_field_text(canonical_name(name)),
        forall|i: int|
            0 <= i < canonical_name(name).len() ==> #[trigger] canonical_name(name)[i] != ':',
        lower(canonical_name(name)) == name,
{
    let shown = canonical_name(name);
    lemma_canonical_name(name);
    assert(lower(name) =~= name);
    assert forall|i: int| 0 <= i < shown.len() implies #[trigger] shown[i] != '\n' && shown[i]
        != ':' && (is_space(shown[i]) == is_space(name[i])) by {
        assert(lower(shown)[i] == name[i]);
    }
    if shown.len() > 0 {
        assert(is_space(shown[0]) == is_space(name[0]));
        assert(is_space(shown[shown.len() - 1]) == is_space(name[shown.len() - 1]));
    }
}

/// A header line that was written reads back as the name and the value
/// that it was written from: where the text `s` holds, from the index
/// `from` on, the name, a colon, a space, the value and a line end, the
/// line stops before the line end, its first colon is the one behind the
/// name, and the texts around that colon are the name and the value.
pub proof fn lemma_line_reads_back(s: Seq<char>, from: int, shown: Seq<char>, value: Seq<char>)
    requires
        is_field_text(shown),
        forall|i: int| 0 <= i < shown.len() ==> #[trigger] shown[i] != ':',
        is_field_text(value),
        0 <= from,
        from + shown.len() + value.len() + 4 <= s.len(),
        forall|k: int|
            from <= k < from + shown.len() + value.len() + 4 ==> #[trigger] s[k] == (shown + ": "@
                + value + "\r\n"@)[k - from],
    ensures
        ({
            let colon = from + shown.len();
            let stop = colon + 2 + value.len();
            &&& line_stop(s, from) == stop
            &&& next_line(s, from) == stop + 2
            &&& first_index(s, ':', from, stop) == colon
            &&& trimmed(s, from, colon) == shown
            &&& trimmed(s, colon + 1, stop) == value
        }),
{
    reveal_strlit(": ");
    reveal_strlit("\r\n");
    let colon = from + shown.len();
    let first = colon + 2;
    let stop = first + value.len();
    assert(s[colon] == ':' && s[colon + 1] == ' ');
    assert(s[stop] == '\r' && s[stop + 1] == '\n');
    assert forall|k: int| from <= k < stop + 1 implies #[trigger] s[k] != '\n' by {
        if k < colon {
            assert(s[k] == shown[k - from]);
        } else if first <= k < stop {
            assert(s[k] == value[k - first]);
        }
    }
    lemma_first_index_is(s, '\n', from, s.len() as int, stop + 1);
    assert(line_end(s, from) == stop + 1);
    assert forall|k: int| from <= k < colon implies #[trigger] s[k] != ':' by {
        assert(s[k] == shown[k - from]);
    }
    lemma_first_index_is(s, ':', from, stop, colon);
    if shown.len() > 0 {
        assert(s[from] == shown[0]);
        assert(s[colon - 1] == shown[shown.len() - 1]);
    }
    lemma_skip_spaces_is(s, from, colon, from);
    lemma_trim_end_is(s, from, colon, colon);
    assert(s.subrange(from, colon) =~= shown);
    if value.len() > 0 {
        assert(s[first] == value[0]);
        assert(s[stop - 1] == value[value.len() - 1]);
        lemma_skip_spaces_is(s, colon + 1, stop, first);
        lemma_trim_end_is(s, first, stop, stop);
        assert(s.subrange(first, stop) =~= value);
    } else {
        lemma_skip_spaces_is(s, colon + 1, stop, stop);
        lemma_trim_end_is(s, stop, stop, stop);
        assert(s.subrange(stop, stop) =~= value);
    }
}

/// Header lines that were written read back as the fields that they were
/// written from: where the text `s` holds, from the index `start` on, the
/// header lines of `h` and an empty line, reading on behind the first `n`
/// lines with the first `n` fields gives `h`.
pub proof fn lemma_fields_read_back(s: Seq<char>, start: int, h: Fields, n: int)
    requires
        writable_fields(h),
        0 <= n <= h.len(),
        0 <= start,
        s.len() == start + header_lines(h, h.len() as int).len() + 2,
        forall|k: int|
            start <= k < s.len() - 2 ==> #[trigger] s[k] == header_lines(h, h.len() as int)[k
                - start],
        s[s.len() - 2] == '\r',
        s[s.len() - 1] == '\n',
    ensures
        header_fields(s, start + header_lines(h, n).len(), h.subrange(0, n)) == Ok::<
            Fields,
            Seq<char>,
        >(h),
    decreases h.len() - n,
{
    let all = header_lines(h, h.len() as int);
    let from = start + header_lines(h, n).len();
    let acc = h.subrange(0, n);
    lemma_lines_prefix(h, n, h.len() as int);
    if n == h.len() {
        lemma_first_index_is(s, '\n', from, s.len() as int, from + 1);
        assert(line_stop(s, from) == from);
        assert(acc =~= h);
    } else {
        let name = h[n].0;
        let value = h[n].1;
        let shown = canonical_name(name);
        let line = shown + ": "@ + value + "\r\n"@;
        let colon = from + shown.len();
        let stop = colon + 2 + value.len();
        reveal_strlit(": ");
        reveal_strlit("\r\n");
        lemma_shown_name(name);
        lemma_lines_prefix(h, n + 1, h.len() as int);
        assert(header_lines(h, n + 1) =~= header_lines(h, n) + line);
        assert(line.len() == shown.len() + value.len() + 4);
        assert forall|k: int| from <= k < from + line.len() implies #[trigger] s[k] == line[k
            - from] by {
            assert(all[k - start] == header_lines(h, n + 1)[k - start]);
        }
        lemma_line_reads_back(s, from, shown, value);
        lemma_position(acc, name, 0);
        let at = position(acc, name, 0);
        if at < acc.len() {
            assert(acc[at] == h[at]);
            assert(h[at].0 != h[n].0);
        }
        assert(inserted(acc, name, value) =~= h.subrange(0, n + 1));
        lemma_fields_read_back(s, start, h, n + 1);
        assert(stop != from);
        assert(colon != stop);
    }
}

/// Reading undoes writing: a request that can be written and read again,
/// written as text, parses as itself.
pub proof fn lemma_request_reads_back(r: RequestView)
    requires
        writable_request(r),
    ensures
        parsed_request(request_text(r)) == Ok::<RequestView, RequestFault>(r),
{
    reveal_strlit("GET");
    reveal_strlit(" ");
    reveal_strlit("\r\n");
    let s = request_text(r);
    let h = r.headers;
    let all = header_lines(h, h.len() as int);
    let a = r.method.len() as int;
    let b = a + 1 + r.uri.len();
    let c = b + 1 + r.version.len();
    let start = c + 2;
    let head = r.method + " "@ + r.uri + " "@ + r.version + "\r\n"@;
    assert(s =~= head + all + "\r\n"@);
    assert(head.len() == start);
    assert forall|k: int| 0 <= k < a implies !is_space(#[trigger] s[k]) by {
        assert(s[k] == r.method[k]);
    }
    assert forall|k: int| a + 1 <= k < b implies !is_space(#[trigger] s[k]) by {
        assert(s[k] == r.uri[k - a - 1]);
    }
    assert forall|k: int| b + 1 <= k < c implies !is_space(#[trigger] s[k]) by {
        assert(s[k] == r.version[k - b - 1]);
    }
    assert(s[a] == ' ' && s[b] == ' ' && s[c] == '\r' && s[c + 1] == '\n');
    assert forall|k: int| 0 <= k < c + 1 implies #[trigger] s[k] != '\n' by {
        if k != a && k != b && k != c {
            assert(!is_space(s[k]));
        }
    }
    lemma_first_index_is(s, '\n', 0, s.len() as int, c + 1);
    assert(line_stop(s, 0) == c);
    assert(next_line(s, 0) == start);
    lemma_skip_spaces_is(s, 0, c, 0);
    lemma_skip_word_is(s, 0, c, a);
    lemma_skip_spaces_is(s, a, c, a + 1);
    lemma_skip_word_is(s, a + 1, c, b);
    lemma_skip_spaces_is(s, b, c, b + 1);
    lemma_skip_word_is(s, b + 1, c, c);
    assert(three_words(s, c) == (0int, a, a + 1, b, b + 1, c));
    assert(s.subrange(0, a) =~= r.method);
    assert(s.subrange(a + 1, b) =~= r.uri);
    assert(s.subrange(b + 1, c) =~= r.version);
    assert(h.subrange(0, 0) =~= Seq::<(Seq<char>, Seq<char>)>::empty());
    lemma_fields_read_back(s, start, h, 0);
    assert(r.body =~= Seq::<u8>::empty());
}

/// A response that can be written and read again: the status message
/// fits a line, there is no body, and the header fields can be written.
pub open spec fn writable_response(r: ResponseView) -> bool {
    &&& is_field_text(r.status_message)
    &&& r.body.len() == 0
    &&& writable_fields(r.headers)
}

/// The decimal numeral of a number holds digits only, at least one, and
/// spells out the number.
pub proof fn lemma_decimal_reads_back(n: nat)
    ensures
        decimal(n).len() > 0,
        all_digits(decimal(n)),
        digits_value(decimal(n)) == n,
    decreases n,
{
    let d = decimal(n);
    if n < 10 {
        assert(d.drop_last() =~= Seq::<char>::empty());
        assert(digits_value(d.drop_last()) == 0);
        assert(d.last() == digit_char(n));
    } else {
        lemma_decimal_reads_back(n / 10);
        assert(d.drop_last() =~= decimal(n / 10));
        assert(d.last() == digit_char(n % 10));
    }
}

/// Reading undoes writing: a response that can be written and read again,
/// written as text, parses as itself.
pub proof fn lemma_response_reads_back(r: ResponseView)
    requires
        writable_response(r),
    ensures
        parsed_response(response_text(r)) == Ok::<ResponseView, ResponseFault>(r),
{
    reveal_strlit("HTTP/1.1 ");
    reveal_strlit(" ");
    reveal_strlit("\r\n");
    let s = response_text(r);
    let h = r.headers;
    let all = header_lines(h, h.len() as int);
    let d = decimal(r.status as nat);
    let msg = r.status_message;
    let c1: int = 9int + d.len();
    let stop: int = c1 + 1 + msg.len();
    let start: int = stop + 2;
    let head = "HTTP/1.1 "@ + d + " "@ + msg + "\r\n"@;
    lemma_decimal_reads_back(r.status as nat);
    assert(s =~= head + all + "\r\n"@);
    assert(head.len() == start);
    assert forall|k: int| 0 <= k < 8 implies !is_space(#[trigger] s[k]) by {
        assert(s[k] == "HTTP/1.1 "@[k]);
    }
    assert forall|k: int| 9 <= k < c1 implies !is_space(#[trigger] s[k]) by {
        assert(s[k] == d[k - 9]);
    }
    assert forall|k: int| c1 + 1 <= k < stop implies #[trigger] s[k] != '\n' by {
        assert(s[k] == msg[k - c1 - 1]);
    }
    assert(s[8] == ' ' && s[c1] == ' ' && s[stop] == '\r' && s[stop + 1] == '\n');
    assert forall|k: int| 0 <= k < stop + 1 implies #[trigger] s[k] != '\n' by {
        if k < 8 || 9 <= k < c1 {
            assert(!is_space(s[k]));
        }
    }
    lemma_first_index_is(s, '\n', 0, s.len() as int, stop + 1);
    assert(line_stop(s, 0) == stop);
    assert(next_line(s, 0) == start);
    lemma_skip_spaces_is(s, 0, stop, 0);
    lemma_skip_word_is(s, 0, stop, 8);
    lemma_skip_spaces_is(s, 8, stop, 9);
    lemma_skip_word_is(s, 9, stop, c1);
    assert(s.subrange(9, c1) =~= d);
    if msg.len() > 0 {
        assert(s[c1 + 1] == msg[0]);
        assert(s[stop - 1] == msg[msg.len() - 1]);
    }
    lemma_skip_spaces_is(s, c1, stop, c1 + 1);
    lemma_trim_end_is(s, c1 + 1, stop, stop);
    assert(s.subrange(c1 + 1, stop) =~= msg);
    assert(trimmed(s, c1, stop) == msg);
    assert(h.subrange(0, 0) =~= Seq::<(Seq<char>, Seq<char>)>::empty());
    lemma_fields_read_back(s, start, h, 0);
    assert(r.body =~= Seq::<u8>::empty());
}

} // verus!
