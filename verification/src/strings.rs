//! Text helpers: what the standard library does to strings, with the
//! contracts that the rest of the crate builds on.

use vstd::prelude::*;
use vstd::string::*;
use vstd::utf8::*;

verus! {

/// The lower-case form of a text, as `str::to_lowercase` computes it.
pub uninterp spec fn lowercase_of(text: Seq<char>) -> Seq<char>;

/// Whether a character is white space by the Unicode property White_Space:
/// the tab, line feed, vertical tab, form feed and carriage return, the
/// space, the next-line control, the no-break space, the Ogham space mark,
/// the spaces from the en quad to the hair space, the line and paragraph
/// separators, the narrow no-break space, the medium mathematical space and
/// the ideographic space.
pub open spec fn is_white_space(c: char) -> bool {
    c == '\u{0009}' || c == '\u{000A}' || c == '\u{000B}' || c == '\u{000C}'
    || c == '\u{000D}' || c == '\u{0020}' || c == '\u{0085}' || c == '\u{00A0}'
    || c == '\u{1680}' || c == '\u{2000}' || c == '\u{2001}' || c == '\u{2002}'
    || c == '\u{2003}' || c == '\u{2004}' || c == '\u{2005}' || c == '\u{2006}'
    || c == '\u{2007}' || c == '\u{2008}' || c == '\u{2009}' || c == '\u{200A}'
    || c == '\u{2028}' || c == '\u{2029}' || c == '\u{202F}' || c == '\u{205F}'
    || c == '\u{3000}'
}

/// Whether a character is white space.
pub fn is_white_space_char(c: char) -> (r: bool)
    ensures
        r == is_white_space(c),
{
    c == '\u{0009}' || c == '\u{000A}' || c == '\u{000B}' || c == '\u{000C}'
    || c == '\u{000D}' || c == '\u{0020}' || c == '\u{0085}' || c == '\u{00A0}'
    || c == '\u{1680}' || c == '\u{2000}' || c == '\u{2001}' || c == '\u{2002}'
    || c == '\u{2003}' || c == '\u{2004}' || c == '\u{2005}' || c == '\u{2006}'
    || c == '\u{2007}' || c == '\u{2008}' || c == '\u{2009}' || c == '\u{200A}'
    || c == '\u{2028}' || c == '\u{2029}' || c == '\u{202F}' || c == '\u{205F}'
    || c == '\u{3000}'
}

/// The place of the first white space of a text at or after `from`; the
/// length of the text where there is none.
pub open spec fn word_end(text: Seq<char>, from: int) -> int
    decreases text.len() - from,
{
    if from < 0 || from >= text.len() {
        text.len() as int
    } else if is_white_space(text[from]) {
        from
    } else {
        word_end(text, from + 1)
    }
}

/// The words of a text from place `from` on: the longest runs of characters
/// that are not white space, in order.
pub open spec fn words_from(text: Seq<char>, from: int) -> Seq<Seq<char>>
    decreases text.len() - from,
{
    let end = word_end(text, from);
    if from < 0 || from >= text.len() {
        Seq::empty()
    } else if is_white_space(text[from]) {
        words_from(text, from + 1)
    } else if from < end <= text.len() {
        seq![text.subrange(from, end)] + words_from(text, end)
    } else {
        Seq::empty()
    }
}

/// The words of a text in order: what white space parts, and never an empty
/// word.
pub open spec fn words_of(text: Seq<char>) -> Seq<Seq<char>> {
    words_from(text, 0)
}

/// The place of the first line feed of a text at or after `from`; the length
/// of the text where there is none.
pub open spec fn line_end(text: Seq<char>, from: int) -> int
    decreases text.len() - from,
{
    if from < 0 || from >= text.len() {
        text.len() as int
    } else if text[from] == '\n' {
        from
    } else {
        line_end(text, from + 1)
    }
}

/// A line without the carriage return at its end, where it has one.
pub open spec fn without_return(line: Seq<char>) -> Seq<char> {
    if line.len() > 0 && line.last() == '\r' {
        line.drop_last()
    } else {
        line
    }
}

/// The lines of a text from place `from` on. A line ends at a line feed, or
/// at a carriage return and a line feed, which are not part of it. What
/// follows the last line feed is a line as it stands, if it is not empty.
pub open spec fn lines_from(text: Seq<char>, from: int) -> Seq<Seq<char>>
    decreases text.len() - from,
{
    let end = line_end(text, from);
    if from < 0 || from >= text.len() {
        Seq::empty()
    } else if end >= text.len() {
        seq![text.subrange(from, text.len() as int)]
    } else if from <= end {
        seq![without_return(text.subrange(from, end))] + lines_from(text, end + 1)
    } else {
        Seq::empty()
    }
}

/// The lines of a text in order, without their line endings.
pub open spec fn lines_of(text: Seq<char>) -> Seq<Seq<char>> {
    lines_from(text, 0)
}

/// A text without the white space at its end.
pub open spec fn trimmed_end(text: Seq<char>) -> Seq<char>
    decreases text.len(),
{
    if text.len() > 0 && is_white_space(text.last()) {
        trimmed_end(text.drop_last())
    } else {
        text
    }
}

/// Trimming takes characters away at the end and nowhere else, and what is
/// left does not end in white space.
pub proof fn trimmed_end_is_prefix(text: Seq<char>)
    ensures
        trimmed_end(text).len() <= text.len(),
        trimmed_end(text) == text.take(trimmed_end(text).len() as int),
        trimmed_end(text).len() > 0 ==> !is_white_space(trimmed_end(text).last()),
    decreases text.len(),
{
    if text.len() > 0 && is_white_space(text.last()) {
        trimmed_end_is_prefix(text.drop_last());
        let kept = trimmed_end(text.drop_last());
        assert(text.drop_last().take(kept.len() as int) =~= text.take(kept.len() as int));
    } else {
        assert(text.take(text.len() as int) =~= text);
    }
}

/// `str::to_lowercase`: the result is the lower-case form of the text, which
/// depends on the text alone. Nothing else is claimed of it.
pub assume_specification[ str::to_lowercase ](s: &str) -> (r: String)
    ensures
        r@ == lowercase_of(s@),
;

/// `str::trim_end`: the result is the text without the white space at its
/// end, where white space is what the Unicode property White_Space says.
/// `is_white_space` lists the characters of that property.
pub assume_specification[ str::trim_end ](s: &str) -> (r: &str)
    ensures
        r@ == trimmed_end(s@),
;

/// `String::push`: the character is added at the end.
pub assume_specification[ String::push ](s: &mut String, c: char)
    ensures
        final(s)@ == old(s)@.push(c),
;

/// The texts of a sequence of strings.
pub open spec fn texts(v: Seq<String>) -> Seq<Seq<char>> {
    Seq::new(v.len(), |i: int| v[i]@)
}

/// `str::split_whitespace`, collected: the words of the text in order, each
/// as an owned string. Words are what white space parts, where white space
/// is what the Unicode property White_Space says. `is_white_space` lists the
/// characters of that property.
#[verifier::external_body]
pub(crate) fn split_words(s: &str) -> (r: Vec<String>)
    ensures
        texts(r@) == words_of(s@),
{
    s.split_whitespace().map(|w| w.to_string()).collect()
}

/// `str::lines`, collected: the lines of the text in order, each as an
/// owned string, without the line feed, or carriage return and line feed,
/// that ends it.
#[verifier::external_body]
pub(crate) fn split_lines(s: &str) -> (r: Vec<String>)
    ensures
        texts(r@) == lines_of(s@),
{
    s.lines().map(|line| line.to_string()).collect()
}

/// Whether two texts hold the same characters.
pub fn text_is(s: &str, other: &str) -> (r: bool)
    ensures
        r == (s@ == other@),
{
    let a: String = s.to_owned();
    let b: String = other.to_owned();
    a == b
}

/// The UTF-8 encoding of a text.
pub open spec fn utf8(text: Seq<char>) -> Seq<u8> {
    encode_utf8(text)
}

/// The number of bytes of a text in UTF-8.
pub fn byte_len(s: &str) -> (n: usize)
    ensures
        n == utf8(s@).len(),
{
    s.as_bytes().len()
}

/// The bytes of a text in UTF-8.
pub fn utf8_bytes(s: &str) -> (r: Vec<u8>)
    ensures
        r@ == utf8(s@),
{
    s.as_bytes_vec()
}

/// A text begins with another.
pub open spec fn begins_with(text: Seq<char>, prefix: Seq<char>) -> bool {
    prefix.len() <= text.len() && text.take(prefix.len() as int) == prefix
}

/// Whether a text begins with `prefix`.
pub fn has_prefix(text: &str, prefix: &str) -> (r: bool)
    ensures
        r == begins_with(text@, prefix@),
{
    let n: usize = prefix.unicode_len();
    if text.unicode_len() < n {
        false
    } else {
        let head: &str = text.substring_char(0, n);
        assert(text@.subrange(0, n as int) =~= text@.take(n as int));
        text_is(head, prefix)
    }
}

/// Whether a text holds the character `c`.
pub fn has_char(text: &str, c: char) -> (r: bool)
    ensures
        r == text@.contains(c),
{
    let mut found: bool = false;
    for d in it: text.chars()
        invariant
            it.seq() == text@,
            found == text@.take(it.index()).contains(c),
    {
        proof {
            let i = it.index();
            let longer = text@.take(i + 1);
            assert(longer =~= text@.take(i).push(d));
            if text@.take(i).contains(c) {
                let k = choose|k: int| 0 <= k < i && text@.take(i)[k] == c;
                assert(longer[k] == c);
            }
            if d == c {
                assert(longer[i] == c);
            }
        }
        if d == c {
            found = true;
        }
    }
    assert(text@.take(text@.len() as int) =~= text@);
    found
}

/// The character of a digit below ten.
pub open spec fn digit_char(d: int) -> char {
    if d == 0 {
        '0'
    } else if d == 1 {
        '1'
    } else if d == 2 {
        '2'
    } else if d == 3 {
        '3'
    } else if d == 4 {
        '4'
    } else if d == 5 {
        '5'
    } else if d == 6 {
        '6'
    } else if d == 7 {
        '7'
    } else if d == 8 {
        '8'
    } else {
        '9'
    }
}

/// The character of a hexadecimal digit, in lower case.
pub open spec fn hex_char(d: int) -> char {
    if d < 10 {
        digit_char(d)
    } else if d == 10 {
        'a'
    } else if d == 11 {
        'b'
    } else if d == 12 {
        'c'
    } else if d == 13 {
        'd'
    } else if d == 14 {
        'e'
    } else {
        'f'
    }
}

/// A number in decimal digits, without leading zeros.
pub open spec fn decimal(n: nat) -> Seq<char>
    decreases n,
{
    if n < 10 {
        seq![digit_char(n as int)]
    } else {
        decimal(n / 10).push(digit_char((n % 10) as int))
    }
}

/// A 16-bit number in four hexadecimal digits of lower case.
pub open spec fn hex4(n: u16) -> Seq<char> {
    seq![
        hex_char(n as int / 4096),
        hex_char((n as int / 256) % 16),
        hex_char((n as int / 16) % 16),
        hex_char(n as int % 16),
    ]
}

fn hex_digit(d: u16) -> (r: char)
    requires
        d < 16,
    ensures
        r == hex_char(d as int),
{
    if d == 0 {
        '0'
    } else if d == 1 {
        '1'
    } else if d == 2 {
        '2'
    } else if d == 3 {
        '3'
    } else if d == 4 {
        '4'
    } else if d == 5 {
        '5'
    } else if d == 6 {
        '6'
    } else if d == 7 {
        '7'
    } else if d == 8 {
        '8'
    } else if d == 9 {
        '9'
    } else if d == 10 {
        'a'
    } else if d == 11 {
        'b'
    } else if d == 12 {
        'c'
    } else if d == 13 {
        'd'
    } else if d == 14 {
        'e'
    } else {
        'f'
    }
}

/// Writes a number in decimal digits.
pub fn to_decimal(n: u64) -> (r: String)
    ensures
        r@ == decimal(n as nat),
    decreases n,
{
    if n < 10 {
        let mut out: String = String::new();
        out.push(hex_digit(n as u16));
        assert(out@ =~= decimal(n as nat));
        out
    } else {
        let mut out: String = to_decimal(n / 10);
        out.push(hex_digit((n % 10) as u16));
        out
    }
}

/// Writes a 16-bit number in four hexadecimal digits.
pub fn to_hex4(n: u16) -> (r: String)
    ensures
        r@ == hex4(n),
{
    let mut out: String = String::new();
    out.push(hex_digit(n / 4096));
    out.push(hex_digit((n / 256) % 16));
    out.push(hex_digit((n / 16) % 16));
    out.push(hex_digit(n % 16));
    assert(out@ =~= hex4(n));
    out
}

/// The characters of a text, one by one.
pub fn to_chars(text: &str) -> (r: Vec<char>)
    ensures
        r@ == text@,
{
    let mut out: Vec<char> = Vec::new();
    for c in it: text.chars()
        invariant
            it.seq() == text@,
            out@ =~= text@.take(it.index()),
    {
        out.push(c);
    }
    assert(text@.take(text@.len() as int) =~= text@);
    out
}

/// The characters from place `from` up to place `to` as a string.
pub fn from_chars(chars: &Vec<char>, from: usize, to: usize) -> (r: String)
    requires
        from <= to <= chars@.len(),
    ensures
        r@ == chars@.subrange(from as int, to as int),
{
    let mut out: String = String::new();
    let mut i: usize = from;
    while i < to
        invariant
            from <= i <= to <= chars@.len(),
            out@ =~= chars@.subrange(from as int, i as int),
        decreases to - i,
    {
        out.push(chars[i]);
        i += 1;
    }
    out
}

/// `pattern` stands in `text` at place `i`.
pub open spec fn occurs_at(text: Seq<char>, pattern: Seq<char>, i: int) -> bool {
    0 <= i && i + pattern.len() <= text.len() && text.subrange(i, i + pattern.len()) == pattern
}

/// The first place at or after `from` where `pattern` stands in `text`; the
/// length of the text where there is none.
pub open spec fn find_from(text: Seq<char>, pattern: Seq<char>, from: int) -> int
    decreases text.len() - from,
{
    if from < 0 || from >= text.len() || from + pattern.len() > text.len() {
        text.len() as int
    } else if occurs_at(text, pattern, from) {
        from
    } else {
        find_from(text, pattern, from + 1)
    }
}

/// `pattern` stands in `text` somewhere at or after `from`.
pub open spec fn found_from(text: Seq<char>, pattern: Seq<char>, from: int) -> bool {
    find_from(text, pattern, from) + pattern.len() <= text.len()
}

/// The two parts of a text around the one place where `pattern` stands in
/// it; nothing where the pattern stands nowhere, or again after its first
/// place.
pub open spec fn two_parts(text: Seq<char>, pattern: Seq<char>) -> Option<(Seq<char>, Seq<char>)> {
    let first = find_from(text, pattern, 0);
    if found_from(text, pattern, 0) && !found_from(text, pattern, first + pattern.len()) {
        Some((text.take(first), text.skip(first + pattern.len())))
    } else {
        None
    }
}

/// Whether `pattern` stands in `text` at place `i`.
pub fn matches_at(text: &Vec<char>, pattern: &Vec<char>, i: usize) -> (r: bool)
    ensures
        r == occurs_at(text@, pattern@, i as int),
{
    let n: usize = pattern.len();
    let m: usize = text.len();
    if i > m || n > m - i {
        return false;
    }
    let mut k: usize = 0;
    while k < n
        invariant
            k <= n,
            n == pattern@.len(),
            m == text@.len(),
            i + n <= m,
            text@.subrange(i as int, i + k) =~= pattern@.take(k as int),
        decreases n - k,
    {
        if text[i + k] != pattern[k] {
            proof {
                let part = text@.subrange(i as int, i + n);
                assert(part[k as int] != pattern@[k as int]);
            }
            return false;
        }
        proof {
            assert(text@.subrange(i as int, i + k + 1) =~= text@.subrange(i as int, i + k).push(
                text@[i + k],
            ));
            assert(pattern@.take(k as int + 1) =~= pattern@.take(k as int).push(pattern@[k as int]));
        }
        k += 1;
    }
    assert(pattern@.take(n as int) =~= pattern@);
    true
}

/// The first place at or after `from` where `pattern` stands in `text`.
pub fn find(text: &Vec<char>, pattern: &Vec<char>, from: usize) -> (r: usize)
    ensures
        r == find_from(text@, pattern@, from as int),
        from <= r || r == text@.len(),
        r <= text@.len(),
{
    let m: usize = text.len();
    if from >= m {
        return m;
    }
    let mut i: usize = from;
    while i < m && pattern.len() <= m - i
        invariant
            from <= i <= m,
            m == text@.len(),
            find_from(text@, pattern@, from as int) == find_from(text@, pattern@, i as int),
        decreases m - i,
    {
        if matches_at(text, pattern, i) {
            return i;
        }
        i += 1;
    }
    m
}

/// The place where `pattern` stands in `text`, where it stands there once
/// and not again after its first place.
pub fn split_in_two(text: &Vec<char>, pattern: &Vec<char>) -> (r: Option<usize>)
    ensures
        match r {
            Some(first) => two_parts(text@, pattern@) == Some(
                (text@.take(first as int), text@.skip(first + pattern@.len())),
            ) && first + pattern@.len() <= text@.len(),
            None => two_parts(text@, pattern@) is None,
        },
{
    let first: usize = find(text, pattern, 0);
    if pattern.len() > text.len() || first > text.len() - pattern.len() {
        return None;
    }
    let second: usize = find(text, pattern, first + pattern.len());
    if second <= text.len() - pattern.len() {
        None
    } else {
        Some(first)
    }
}

} // verus!
