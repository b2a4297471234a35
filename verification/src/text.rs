//! Text helpers: strings as sequences of characters.
//!
//! Two functions of `std` that the verifier has no specification for are
//! wrapped here, `String::push` and `String::from_utf8`. Everything else
//! in this module is proved.

use vstd::prelude::*;
use vstd::string::StringExecFns;
use vstd::utf8::{decode_utf8, encode_utf8_decode_utf8, valid_utf8};

verus! {

/// `String::push` appends one character to the string.
#[verifier::external_body]
pub(crate) fn string_push(s: &mut String, c: char)
    ensures
        final(s)@ == old(s)@.push(c),
{
    s.push(c)
}

/// `String::from_utf8` turns bytes into a string when, and only when, they
/// are valid UTF-8; the string then holds the characters that the bytes
/// encode.
#[verifier::external_body]
pub(crate) fn string_from_utf8(bytes: Vec<u8>) -> (r: Option<String>)
    ensures
        r is Some <==> valid_utf8(bytes@),
        r matches Some(s) ==> s@ == decode_utf8(bytes@),
{
    match String::from_utf8(bytes) {
        Ok(s) => Some(s),
        Err(_) => None,
    }
}

/// The characters of a string, one by one.
pub fn str_chars(s: &str) -> (v: Vec<char>)
    ensures
        v@ == s@,
{
    let mut v: Vec<char> = Vec::new();
    for c in it: s.chars()
        invariant
            v@ == it.seq().take(it.index() as int),
    {
        v.push(c);
    }
    v
}

/// A string made of the characters `chars[from..to]`.
pub fn chars_to_string(chars: &[char], from: usize, to: usize) -> (s: String)
    requires
        from <= to <= chars@.len(),
    ensures
        s@ == chars@.subrange(from as int, to as int),
{
    let mut s = String::new();
    let mut i: usize = from;
    while i < to
        invariant
            from <= i <= to <= chars@.len(),
            s@ == chars@.subrange(from as int, i as int),
        decreases to - i,
    {
        string_push(&mut s, chars[i]);
        i += 1;
    }
    s
}

/// Whether two strings hold the same characters.
pub fn str_eq(a: &str, b: &str) -> (r: bool)
    ensures
        r == (a@ == b@),
{
    let x = a.as_bytes();
    let y = b.as_bytes();
    proof {
        encode_utf8_decode_utf8(a@);
        encode_utf8_decode_utf8(b@);
    }
    if x.len() != y.len() {
        return false;
    }
    let mut i: usize = 0;
    while i < x.len()
        invariant
            x@.len() == y@.len(),
            i <= x@.len(),
            forall|j: int| 0 <= j < i ==> x@[j] == y@[j],
            a@ == b@ ==> x@ == y@,
        decreases x.len() - i,
    {
        if x[i] != y[i] {
            return false;
        }
        i += 1;
    }
    assert(x@ =~= y@);
    true
}

/// The character of a decimal digit.
pub open spec fn digit_char(d: nat) -> char {
    (48 + d) as u8 as char
}

/// The decimal numeral of a number, without leading zeros.
pub open spec fn decimal(n: nat) -> Seq<char>
    decreases n,
{
    if n < 10 {
        seq![digit_char(n)]
    } else {
        decimal(n / 10).push(digit_char(n % 10))
    }
}

/// The decimal numeral of a number.
pub fn decimal_string(n: u64) -> (s: String)
    ensures
        s@ == decimal(n as nat),
    decreases n,
{
    if n < 10 {
        let mut s = String::new();
        string_push(&mut s, (48 + n as u8) as char);
        s
    } else {
        let mut s = decimal_string(n / 10);
        string_push(&mut s, (48 + (n % 10) as u8) as char);
        s
    }
}

/// The string `a` followed by `b`.
pub fn concat(a: &str, b: &str) -> (s: String)
    ensures
        s@ == a@ + b@,
{
    let mut s = a.to_string();
    s.append(b);
    s
}

// ---------------------------------------------------------------------
// Scanning
// ---------------------------------------------------------------------

/// The white space of a header line: blank, tab, carriage return, line
/// feed, vertical tab and form feed.
pub open spec fn is_space(c: char) -> bool {
    c == ' ' || c == '\t' || c == '\r' || c == '\n' || c == '\u{0B}' || c == '\u{0C}'
}

/// The lower-case form of an ASCII letter; any other character is itself.
pub open spec fn lower_char(c: char) -> char {
    if 'A' <= c && c <= 'Z' {
        ((c as u8) + 32) as char
    } else {
        c
    }
}

/// A text with its ASCII letters in lower case.
pub open spec fn lower(s: Seq<char>) -> Seq<char> {
    Seq::new(s.len(), |i: int| lower_char(s[i]))
}

/// The index of the first `c` in `s[from..to]`, or `to` if there is none.
pub open spec fn first_index(s: Seq<char>, c: char, from: int, to: int) -> int
    decreases to - from,
{
    if from >= to {
        to
    } else if s[from] == c {
        from
    } else {
        first_index(s, c, from + 1, to)
    }
}

/// The index of the first character of `s[from..to]` that is no white
/// space, or `to` if there is none.
pub open spec fn skip_spaces(s: Seq<char>, from: int, to: int) -> int
    decreases to - from,
{
    if from >= to {
        to
    } else if !is_space(s[from]) {
        from
    } else {
        skip_spaces(s, from + 1, to)
    }
}

/// The index of the first white space in `s[from..to]`, or `to` if there
/// is none.
pub open spec fn skip_word(s: Seq<char>, from: int, to: int) -> int
    decreases to - from,
{
    if from >= to {
        to
    } else if is_space(s[from]) {
        from
    } else {
        skip_word(s, from + 1, to)
    }
}

/// The end of `s[from..to]` once the white space at its end is cut off.
pub open spec fn trim_end(s: Seq<char>, from: int, to: int) -> int
    decreases to - from,
{
    if to <= from {
        from
    } else if !is_space(s[to - 1]) {
        to
    } else {
        trim_end(s, from, to - 1)
    }
}

/// The part of `s[from..to]` that is left when the white space at both
/// ends is cut off.
pub open spec fn trimmed(s: Seq<char>, from: int, to: int) -> Seq<char> {
    let a = skip_spaces(s, from, to);
    s.subrange(a, trim_end(s, a, to))
}

/// Whether a character is white space.
pub fn char_is_space(c: char) -> (r: bool)
    ensures
        r == is_space(c),
{
    c == ' ' || c == '\t' || c == '\r' || c == '\n' || c == '\u{0B}' || c == '\u{0C}'
}

/// The lower-case form of a character.
pub fn char_to_lower(c: char) -> (r: char)
    ensures
        r == lower_char(c),
{
    if 'A' <= c && c <= 'Z' {
        ((c as u8) + 32) as char
    } else {
        c
    }
}

/// Finds the first `c` in `chars[from..to]`.
pub fn find_char(chars: &[char], c: char, from: usize, to: usize) -> (i: usize)
    requires
        from <= to <= chars@.len(),
    ensures
        i == first_index(chars@, c, from as int, to as int),
        from <= i <= to,
        i < to ==> chars@[i as int] == c,
{
    let mut i = from;
    while i < to && chars[i] != c
        invariant
            from <= i <= to <= chars@.len(),
            first_index(chars@, c, from as int, to as int) == first_index(
                chars@,
                c,
                i as int,
                to as int,
            ),
        decreases to - i,
    {
        i += 1;
    }
    i
}

/// Finds the first character of `chars[from..to]` that is no white space.
pub fn skip_spaces_from(chars: &[char], from: usize, to: usize) -> (i: usize)
    requires
        from <= to <= chars@.len(),
    ensures
        i == skip_spaces(chars@, from as int, to as int),
        from <= i <= to,
{
    let mut i = from;
    while i < to && char_is_space(chars[i])
        invariant
            from <= i <= to <= chars@.len(),
            skip_spaces(chars@, from as int, to as int) == skip_spaces(chars@, i as int, to as int),
        decreases to - i,
    {
        i += 1;
    }
    i
}

/// Finds the first white space in `chars[from..to]`.
pub fn skip_word_from(chars: &[char], from: usize, to: usize) -> (i: usize)
    requires
        from <= to <= chars@.len(),
    ensures
        i == skip_word(chars@, from as int, to as int),
        from <= i <= to,
{
    let mut i = from;
    while i < to && !char_is_space(chars[i])
        invariant
            from <= i <= to <= chars@.len(),
            skip_word(chars@, from as int, to as int) == skip_word(chars@, i as int, to as int),
        decreases to - i,
    {
        i += 1;
    }
    i
}

/// Cuts the white space off the end of `chars[from..to]`.
pub fn trim_end_from(chars: &[char], from: usize, to: usize) -> (j: usize)
    requires
        from <= to <= chars@.len(),
    ensures
        j == trim_end(chars@, from as int, to as int),
        from <= j <= to,
{
    let mut j = to;
    while j > from && char_is_space(chars[j - 1])
        invariant
            from <= j <= to <= chars@.len(),
            trim_end(chars@, from as int, to as int) == trim_end(chars@, from as int, j as int),
        decreases j - from,
    {
        j -= 1;
    }
    j
}

/// The bounds of `chars[from..to]` without the white space at its ends.
pub fn trim_bounds(chars: &[char], from: usize, to: usize) -> (r: (usize, usize))
    requires
        from <= to <= chars@.len(),
    ensures
        from <= r.0 <= r.1 <= to,
        chars@.subrange(r.0 as int, r.1 as int) == trimmed(chars@, from as int, to as int),
{
    let a = skip_spaces_from(chars, from, to);
    let b = trim_end_from(chars, a, to);
    (a, b)
}

/// A string made of the characters `chars[from..to]` in lower case.
pub fn chars_to_lower_string(chars: &[char], from: usize, to: usize) -> (s: String)
    requires
        from <= to <= chars@.len(),
    ensures
        s@ == lower(chars@.subrange(from as int, to as int)),
{
    let mut s = String::new();
    let mut i: usize = from;
    while i < to
        invariant
            from <= i <= to <= chars@.len(),
            s@ == lower(chars@.subrange(from as int, i as int)),
        decreases to - i,
    {
        string_push(&mut s, char_to_lower(chars[i]));
        i += 1;
    }
    s
}

/// Whether `chars[from..to]` is `word`.
pub fn chars_eq(chars: &[char], from: usize, to: usize, word: &[char]) -> (r: bool)
    requires
        from <= to <= chars@.len(),
    ensures
        r == (chars@.subrange(from as int, to as int) == word@),
{
    if to - from != word.len() {
        return false;
    }
    let mut i: usize = 0;
    while i < word.len()
        invariant
            from <= to <= chars@.len(),
            to - from == word@.len(),
            i <= word@.len(),
            forall|j: int| 0 <= j < i ==> chars@[from + j] == word@[j],
        decreases word.len() - i,
    {
        if chars[from + i] != word[i] {
            return false;
        }
        i += 1;
    }
    assert(chars@.subrange(from as int, to as int) =~= word@);
    true
}

/// Whether `chars[from..to]`, put in lower case, is `word`.
pub fn chars_eq_lower(chars: &[char], from: usize, to: usize, word: &[char]) -> (r: bool)
    requires
        from <= to <= chars@.len(),
    ensures
        r == (lower(chars@.subrange(from as int, to as int)) == word@),
{
    if to - from != word.len() {
        return false;
    }
    let mut i: usize = 0;
    while i < word.len()
        invariant
            from <= to <= chars@.len(),
            to - from == word@.len(),
            i <= word@.len(),
            forall|j: int| 0 <= j < i ==> lower_char(chars@[from + j]) == word@[j],
        decreases word.len() - i,
    {
        if char_to_lower(chars[from + i]) != word[i] {
            return false;
        }
        i += 1;
    }
    assert(lower(chars@.subrange(from as int, to as int)) =~= word@);
    true
}

/// The index that `first_index` gives lies within the range searched.
pub proof fn lemma_first_index_bounds(s: Seq<char>, c: char, from: int, to: int)
    requires
        from <= to,
    ensures
        from <= first_index(s, c, from, to) <= to,
    decreases to - from,
{
    if from < to && s[from] != c {
        lemma_first_index_bounds(s, c, from + 1, to);
    }
}

/// The index that `skip_spaces` gives lies within the range searched.
pub proof fn lemma_skip_spaces_bounds(s: Seq<char>, from: int, to: int)
    requires
        from <= to,
    ensures
        from <= skip_spaces(s, from, to) <= to,
    decreases to - from,
{
    if from < to && is_space(s[from]) {
        lemma_skip_spaces_bounds(s, from + 1, to);
    }
}

/// The index that `skip_word` gives lies within the range searched.
pub proof fn lemma_skip_word_bounds(s: Seq<char>, from: int, to: int)
    requires
        from <= to,
    ensures
        from <= skip_word(s, from, to) <= to,
    decreases to - from,
{
    if from < to && !is_space(s[from]) {
        lemma_skip_word_bounds(s, from + 1, to);
    }
}

/// Where `first_index` stops: at the first index that holds `c`, or at
/// the end of the range if none does.
pub proof fn lemma_first_index_is(s: Seq<char>, c: char, from: int, to: int, at: int)
    requires
        from <= at <= to,
        forall|i: int| from <= i < at ==> #[trigger] s[i] != c,
        at == to || s[at] == c,
    ensures
        first_index(s, c, from, to) == at,
    decreases at - from,
{
    if from < at {
        lemma_first_index_is(s, c, from + 1, to, at);
    }
}

/// Where `skip_spaces` stops: at the first index that holds no white
/// space, or at the end of the range.
pub proof fn lemma_skip_spaces_is(s: Seq<char>, from: int, to: int, at: int)
    requires
        from <= at <= to,
        forall|i: int| from <= i < at ==> is_space(#[trigger] s[i]),
        at == to || !is_space(s[at]),
    ensures
        skip_spaces(s, from, to) == at,
    decreases at - from,
{
    if from < at {
        lemma_skip_spaces_is(s, from + 1, to, at);
    }
}

/// Where `skip_word` stops: at the first index that holds white space, or
/// at the end of the range.
pub proof fn lemma_skip_word_is(s: Seq<char>, from: int, to: int, at: int)
    requires
        from <= at <= to,
        forall|i: int| from <= i < at ==> !is_space(#[trigger] s[i]),
        at == to || is_space(s[at]),
    ensures
        skip_word(s, from, to) == at,
    decreases at - from,
{
    if from < at {
        lemma_skip_word_is(s, from + 1, to, at);
    }
}

/// Where `trim_end` stops: behind the last index that holds no white
/// space, or at the start of the range.
pub proof fn lemma_trim_end_is(s: Seq<char>, from: int, to: int, at: int)
    requires
        from <= at <= to,
        forall|i: int| at <= i < to ==> is_space(#[trigger] s[i]),
        at == from || !is_space(s[at - 1]),
    ensures
        trim_end(s, from, to) == at,
    decreases to - at,
{
    if at < to {
        lemma_trim_end_is(s, from, to - 1, at);
    }
}

/// The index that `trim_end` gives lies within the range searched.
pub proof fn lemma_trim_end_bounds(s: Seq<char>, from: int, to: int)
    requires
        from <= to,
    ensures
        from <= trim_end(s, from, to) <= to,
    decreases to - from,
{
    if from < to && is_space(s[to - 1]) {
        lemma_trim_end_bounds(s, from, to - 1);
    }
}

/// The character of a hexadecimal digit, in lower case.
pub open spec fn hex_char(d: nat) -> char {
    if d < 10 {
        (48 + d) as u8 as char
    } else {
        (87 + d) as u8 as char
    }
}

/// The hexadecimal numeral of a number, in lower case and without leading
/// zeros.
pub open spec fn hex(n: nat) -> Seq<char>
    decreases n,
{
    if n < 16 {
        seq![hex_char(n)]
    } else {
        hex(n / 16).push(hex_char(n % 16))
    }
}

/// The hexadecimal numeral of a number.
pub fn hex_string(n: u64) -> (s: String)
    ensures
        s@ == hex(n as nat),
    decreases n,
{
    let d = (n % 16) as u8;
    let c = if d < 10 {
        (48 + d) as char
    } else {
        (87 + d) as char
    };
    if n < 16 {
        let mut s = String::new();
        string_push(&mut s, c);
        s
    } else {
        let mut s = hex_string(n / 16);
        string_push(&mut s, c);
        s
    }
}

} // verus!
