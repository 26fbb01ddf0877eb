//! Text primitives shared by the rest of the crate.
//!
//! Every string is modelled by its sequence of characters (`Seq<char>`), the
//! view that `str` and `String` already carry. The executable functions work
//! on a `Vec<char>` copy of the text so that indexing is cheap, and each one is
//! tied to a specification function over sequences.

use vstd::prelude::*;

verus! {

/// Appends one character to a `String`.
///
/// Trusted: calls `String::push`, which the standard library documents as
/// appending the given `char` to the end of the string.
#[verifier::external_body]
pub(crate) fn push_char(s: &mut String, c: char)
    ensures
        final(s)@ == old(s)@.push(c),
{
    s.push(c)
}

/// Reads bytes as UTF-8 text.
///
/// Trusted: calls `String::from_utf8`, which the standard library documents
/// as checking that the bytes are valid UTF-8 and, if so, handing back the
/// string that they encode.
#[verifier::external_body]
pub(crate) fn decode_utf8_bytes(bytes: &Vec<u8>) -> (r: Option<String>)
    ensures
        r is Some <==> vstd::utf8::valid_utf8(bytes@),
        r matches Some(s) ==> s@ == vstd::utf8::decode_utf8(bytes@),
{
    String::from_utf8(bytes.clone()).ok()
}

/// The text that bytes encode in UTF-8, if they encode one.
pub open spec fn utf8_text(bytes: Seq<u8>) -> Option<Seq<char>> {
    if vstd::utf8::valid_utf8(bytes) {
        Some(vstd::utf8::decode_utf8(bytes))
    } else {
        None
    }
}

/// Reads bytes as UTF-8 text.
pub fn text_of_bytes(bytes: &Vec<u8>) -> (r: Option<String>)
    ensures
        match r {
            Some(s) => utf8_text(bytes@) == Some(s@),
            None => utf8_text(bytes@) is None,
        },
{
    decode_utf8_bytes(bytes)
}

/// The characters of a string slice, in order.
pub fn to_chars(s: &str) -> (r: Vec<char>)
    ensures
        r@ == s@,
{
    let mut v: Vec<char> = Vec::new();
    for c in it: s.chars()
        invariant
            v@ == it.seq().take(it.index() as int),
            it.seq() == s@,
    {
        v.push(c);
    }
    v
}

/// The string made of `chars[from..to]`.
pub fn string_of(chars: &Vec<char>, from: usize, to: usize) -> (r: String)
    requires
        from <= to <= chars@.len(),
    ensures
        r@ == chars@.subrange(from as int, to as int),
{
    let mut out = String::new();
    let mut i: usize = from;
    while i < to
        invariant
            from <= i <= to <= chars@.len(),
            out@ == chars@.subrange(from as int, i as int),
        decreases to - i,
    {
        push_char(&mut out, chars[i]);
        i += 1;
    }
    out
}

/// An owned copy of a string slice.
pub fn owned(s: &str) -> (r: String)
    ensures
        r@ == s@,
{
    s.to_owned()
}

/// `a` followed by `b`.
pub fn concat(a: &str, b: &str) -> (r: String)
    ensures
        r@ == a@ + b@,
{
    let mut out = a.to_owned();
    out.append(b);
    out
}

/// Whether two string slices hold the same characters.
pub fn same_text(a: &str, b: &str) -> (r: bool)
    ensures
        r == (a@ == b@),
{
    let x = to_chars(a);
    let y = to_chars(b);
    same_chars(&x, &y)
}

/// Whether two character vectors are equal.
pub fn same_chars(a: &Vec<char>, b: &Vec<char>) -> (r: bool)
    ensures
        r == (a@ == b@),
{
    if a.len() != b.len() {
        return false;
    }
    let mut i: usize = 0;
    while i < a.len()
        invariant
            a@.len() == b@.len(),
            i <= a@.len(),
            a@.take(i as int) == b@.take(i as int),
        decreases a@.len() - i,
    {
        if a[i] != b[i] {
            assert(a@[i as int] != b@[i as int]);
            return false;
        }
        assert(a@.take(i + 1) == a@.take(i as int).push(a@[i as int]));
        assert(b@.take(i + 1) == b@.take(i as int).push(b@[i as int]));
        i += 1;
    }
    assert(a@.take(a@.len() as int) == a@);
    assert(b@.take(b@.len() as int) == b@);
    true
}

// ---------------------------------------------------------------------
// Whitespace and trimming
// ---------------------------------------------------------------------

/// The code points with the Unicode `White_Space` property.
pub open spec fn is_whitespace_char(c: char) -> bool {
    let n = c as u32;
    ||| 0x09 <= n <= 0x0D
    ||| n == 0x20
    ||| n == 0x85
    ||| n == 0xA0
    ||| n == 0x1680
    ||| 0x2000 <= n <= 0x200A
    ||| n == 0x2028
    ||| n == 0x2029
    ||| n == 0x202F
    ||| n == 0x205F
    ||| n == 0x3000
}

/// Whether `c` is white space.
pub fn is_whitespace(c: char) -> (r: bool)
    ensures
        r == is_whitespace_char(c),
{
    let n: u32 = c as u32;
    (0x09 <= n && n <= 0x0D) || n == 0x20 || n == 0x85 || n == 0xA0 || n == 0x1680 || (0x2000 <= n
        && n <= 0x200A) || n == 0x2028 || n == 0x2029 || n == 0x202F || n == 0x205F || n == 0x3000
}

/// How many characters remain once trailing white space is dropped.
pub open spec fn trimmed_end(s: Seq<char>) -> int
    decreases s.len(),
{
    if s.len() > 0 && is_whitespace_char(s.last()) {
        trimmed_end(s.drop_last())
    } else {
        s.len() as int
    }
}

/// How many leading characters of `s[..end]` are white space.
pub open spec fn trimmed_start(s: Seq<char>, end: int) -> int
    decreases end,
{
    if 0 < end <= s.len() && is_whitespace_char(s[0]) {
        1 + trimmed_start(s.skip(1), end - 1)
    } else {
        0
    }
}

/// `s` without trailing white space.
pub open spec fn trim_end_of(s: Seq<char>) -> Seq<char> {
    s.take(trimmed_end(s))
}

/// `s` without leading and trailing white space.
pub open spec fn trim_of(s: Seq<char>) -> Seq<char> {
    s.subrange(trimmed_start(s, trimmed_end(s)), trimmed_end(s))
}

/// Where trailing white space is dropped, only white space follows and no
/// white space stands just before.
pub proof fn lemma_trimmed_end_bounds(s: Seq<char>)
    ensures
        0 <= trimmed_end(s) <= s.len(),
        trimmed_end(s) > 0 ==> !is_whitespace_char(s[trimmed_end(s) - 1]),
        forall|i: int| trimmed_end(s) <= i < s.len() ==> is_whitespace_char(#[trigger] s[i]),
    decreases s.len(),
{
    if s.len() > 0 && is_whitespace_char(s.last()) {
        lemma_trimmed_end_bounds(s.drop_last());
        assert forall|i: int| trimmed_end(s) <= i < s.len() implies is_whitespace_char(
            #[trigger] s[i],
        ) by {
            if i < s.len() - 1 {
                assert(s.drop_last()[i] == s[i]);
            }
        }
    }
}

/// Where leading white space ends, only white space stands before and no
/// white space stands there.
pub proof fn lemma_trimmed_start_bounds(s: Seq<char>, end: int)
    requires
        0 <= end <= s.len(),
    ensures
        0 <= trimmed_start(s, end) <= end,
        trimmed_start(s, end) < end ==> !is_whitespace_char(s[trimmed_start(s, end)]),
        forall|i: int| 0 <= i < trimmed_start(s, end) ==> is_whitespace_char(#[trigger] s[i]),
    decreases end,
{
    if 0 < end && is_whitespace_char(s[0]) {
        lemma_trimmed_start_bounds(s.skip(1), end - 1);
        let k = trimmed_start(s.skip(1), end - 1);
        assert forall|i: int| 0 <= i < trimmed_start(s, end) implies is_whitespace_char(
            #[trigger] s[i],
        ) by {
            if i > 0 {
                assert(s.skip(1)[i - 1] == s[i]);
            }
        }
        if k < end - 1 {
            assert(s.skip(1)[k] == s[k + 1]);
        }
    }
}

/// The end index is the only one with white space after it and none just before it.
proof fn lemma_trimmed_end_is(s: Seq<char>, e: int)
    requires
        0 <= e <= s.len(),
        e > 0 ==> !is_whitespace_char(s[e - 1]),
        forall|i: int| e <= i < s.len() ==> is_whitespace_char(#[trigger] s[i]),
    ensures
        trimmed_end(s) == e,
    decreases s.len(),
{
    if s.len() > 0 && is_whitespace_char(s.last()) {
        assert(e < s.len());
        let t = s.drop_last();
        assert forall|i: int| e <= i < t.len() implies is_whitespace_char(#[trigger] t[i]) by {
            assert(t[i] == s[i]);
        }
        if e > 0 {
            assert(t[e - 1] == s[e - 1]);
        }
        lemma_trimmed_end_is(t, e);
    } else if s.len() > 0 {
        if e < s.len() {
            assert(is_whitespace_char(s[s.len() - 1]));
        }
    }
}

/// The start index is the only one with white space before it and none at it.
proof fn lemma_trimmed_start_is(s: Seq<char>, end: int, b: int)
    requires
        0 <= b <= end <= s.len(),
        b < end ==> !is_whitespace_char(s[b]),
        forall|i: int| 0 <= i < b ==> is_whitespace_char(#[trigger] s[i]),
    ensures
        trimmed_start(s, end) == b,
    decreases end,
{
    if 0 < end && is_whitespace_char(s[0]) {
        assert(b > 0);
        let t = s.skip(1);
        assert forall|i: int| 0 <= i < b - 1 implies is_whitespace_char(#[trigger] t[i]) by {
            assert(t[i] == s[i + 1]);
        }
        if b < end {
            assert(t[b - 1] == s[b]);
        }
        lemma_trimmed_start_is(t, end - 1, b - 1);
    } else if 0 < end {
        if b > 0 {
            assert(is_whitespace_char(s[0]));
        }
    }
}

/// Index just past the last character of `chars` that is not white space.
pub fn trim_end_index(chars: &Vec<char>) -> (e: usize)
    ensures
        e == trimmed_end(chars@),
        e <= chars@.len(),
{
    let mut e: usize = chars.len();
    while e > 0 && is_whitespace(chars[e - 1])
        invariant
            e <= chars@.len(),
            forall|i: int| e <= i < chars@.len() ==> is_whitespace_char(#[trigger] chars@[i]),
        decreases e,
    {
        e -= 1;
    }
    proof {
        lemma_trimmed_end_is(chars@, e as int);
    }
    e
}

/// Index of the first character of `chars[..end]` that is not white space, or `end`.
pub fn trim_start_index(chars: &Vec<char>, end: usize) -> (b: usize)
    requires
        end <= chars@.len(),
    ensures
        b == trimmed_start(chars@, end as int),
        b <= end,
{
    let mut b: usize = 0;
    while b < end && is_whitespace(chars[b])
        invariant
            b <= end <= chars@.len(),
            forall|i: int| 0 <= i < b ==> is_whitespace_char(#[trigger] chars@[i]),
        decreases end - b,
    {
        b += 1;
    }
    proof {
        lemma_trimmed_start_is(chars@, end as int, b as int);
    }
    b
}

/// `s` without leading and trailing white space.
pub fn trim(s: &str) -> (r: String)
    ensures
        r@ == trim_of(s@),
{
    let chars = to_chars(s);
    let e = trim_end_index(&chars);
    let b = trim_start_index(&chars, e);
    string_of(&chars, b, e)
}

/// `s` without trailing white space.
pub fn trim_end(s: &str) -> (r: String)
    ensures
        r@ == trim_end_of(s@),
{
    let chars = to_chars(s);
    let e = trim_end_index(&chars);
    string_of(&chars, 0, e)
}

// ---------------------------------------------------------------------
// Prefixes and substrings
// ---------------------------------------------------------------------

/// Whether `needle` occurs in `haystack` starting at index `i`.
pub open spec fn occurs_at(haystack: Seq<char>, needle: Seq<char>, i: int) -> bool {
    &&& 0 <= i
    &&& i + needle.len() <= haystack.len()
    &&& haystack.subrange(i, i + needle.len()) == needle
}

/// Whether `needle` occurs somewhere in `haystack`. The empty needle occurs in every text.
pub open spec fn is_substring(haystack: Seq<char>, needle: Seq<char>) -> bool {
    exists|i: int| occurs_at(haystack, needle, i)
}

/// Whether `s` begins with `prefix`.
pub open spec fn has_prefix(s: Seq<char>, prefix: Seq<char>) -> bool {
    occurs_at(s, prefix, 0)
}

/// Whether `needle` occurs in `haystack` at index `at`.
pub fn chars_occur_at(haystack: &Vec<char>, needle: &Vec<char>, at: usize) -> (r: bool)
    ensures
        r == occurs_at(haystack@, needle@, at as int),
{
    if needle.len() > haystack.len() || at > haystack.len() - needle.len() {
        return false;
    }
    let mut j: usize = 0;
    while j < needle.len()
        invariant
            j <= needle@.len(),
            at + needle@.len() <= haystack@.len() <= usize::MAX,
            forall|k: int| 0 <= k < j ==> haystack@[at + k] == needle@[k],
        decreases needle@.len() - j,
    {
        if haystack[at + j] != needle[j] {
            proof {
                let sub = haystack@.subrange(at as int, at + needle@.len());
                assert(sub[j as int] == haystack@[at + j]);
            }
            return false;
        }
        j += 1;
    }
    assert(haystack@.subrange(at as int, at + needle@.len()) =~= needle@);
    true
}

/// Whether `needle` occurs somewhere in `haystack`.
pub fn chars_contain(haystack: &Vec<char>, needle: &Vec<char>) -> (r: bool)
    ensures
        r == is_substring(haystack@, needle@),
{
    if needle.len() > haystack.len() {
        assert(forall|i: int| !occurs_at(haystack@, needle@, i));
        return false;
    }
    let last: usize = haystack.len() - needle.len();
    let mut i: usize = 0;
    while i < last
        invariant
            last == haystack@.len() - needle@.len(),
            i <= last,
            forall|k: int| 0 <= k < i ==> !occurs_at(haystack@, needle@, k),
        decreases last - i,
    {
        if chars_occur_at(haystack, needle, i) {
            return true;
        }
        i += 1;
    }
    if chars_occur_at(haystack, needle, last) {
        return true;
    }
    assert(forall|k: int| !occurs_at(haystack@, needle@, k));
    false
}

/// Whether `needle` occurs somewhere in `haystack`.
pub fn contains(haystack: &str, needle: &str) -> (r: bool)
    ensures
        r == is_substring(haystack@, needle@),
{
    let h = to_chars(haystack);
    let n = to_chars(needle);
    chars_contain(&h, &n)
}

/// Whether `s` begins with `prefix`.
pub fn starts_with(s: &str, prefix: &str) -> (r: bool)
    ensures
        r == has_prefix(s@, prefix@),
{
    let h = to_chars(s);
    let n = to_chars(prefix);
    chars_occur_at(&h, &n, 0)
}

// ---------------------------------------------------------------------
// Lines
// ---------------------------------------------------------------------

/// Index of the first line feed at or after `from`, or the length of `s`.
pub open spec fn next_line_feed(s: Seq<char>, from: int) -> int
    decreases s.len() - from,
{
    if from < 0 || from >= s.len() {
        s.len() as int
    } else if s[from] == '\n' {
        from
    } else {
        next_line_feed(s, from + 1)
    }
}

/// A line that was closed by a line feed, without one carriage return before it.
pub open spec fn without_carriage_return(line: Seq<char>) -> Seq<char> {
    if line.len() > 0 && line.last() == '\r' {
        line.drop_last()
    } else {
        line
    }
}

/// The lines of `s` that begin at or after index `from`.
///
/// A line ends at a line feed, which is not part of the line, nor is a
/// carriage return directly before it. Text after the last line feed is a
/// line of its own, kept as it is; nothing after the last line feed is no line.
pub open spec fn lines_from(s: Seq<char>, from: int) -> Seq<Seq<char>>
    decreases s.len() - from,
{
    if from < 0 || from >= s.len() {
        Seq::<Seq<char>>::empty()
    } else {
        let e = next_line_feed(s, from);
        if e >= s.len() {
            seq![s.subrange(from, s.len() as int)]
        } else if e < from {
            Seq::<Seq<char>>::empty()
        } else {
            seq![without_carriage_return(s.subrange(from, e))] + lines_from(s, e + 1)
        }
    }
}

/// The lines of `s`.
pub open spec fn lines_of(s: Seq<char>) -> Seq<Seq<char>> {
    lines_from(s, 0)
}

/// The view of a vector of strings: the character sequence of each.
pub open spec fn texts(v: Seq<String>) -> Seq<Seq<char>> {
    Seq::new(v.len(), |i: int| v[i]@)
}

/// A copy of a vector of strings.
pub fn clone_strings(v: &Vec<String>) -> (r: Vec<String>)
    ensures
        texts(r@) == texts(v@),
{
    let mut out: Vec<String> = Vec::new();
    let mut i: usize = 0;
    while i < v.len()
        invariant
            i <= v@.len(),
            texts(out@) == texts(v@).take(i as int),
        decreases v@.len() - i,
    {
        let copy = v[i].clone();
        let ghost before = texts(out@);
        out.push(copy);
        assert(texts(out@) =~= before.push(copy@));
        assert(texts(out@) =~= texts(v@).take(i + 1));
        i += 1;
    }
    assert(texts(out@) =~= texts(v@));
    out
}

/// Index of the first line feed at or after `from`, or the length of `chars`.
pub fn find_line_feed(chars: &Vec<char>, from: usize) -> (r: usize)
    requires
        from <= chars@.len(),
    ensures
        r == next_line_feed(chars@, from as int),
        from <= r <= chars@.len(),
{
    let mut i: usize = from;
    while i < chars.len() && chars[i] != '\n'
        invariant
            from <= i <= chars@.len(),
            next_line_feed(chars@, from as int) == next_line_feed(chars@, i as int),
        decreases chars@.len() - i,
    {
        i += 1;
    }
    i
}

/// Splits the text into its lines.
pub fn split_lines(chars: &Vec<char>) -> (r: Vec<String>)
    ensures
        texts(r@) == lines_of(chars@),
{
    let mut out: Vec<String> = Vec::new();
    let mut pos: usize = 0;
    let n = chars.len();
    while pos < n
        invariant
            n == chars@.len(),
            pos <= n,
            texts(out@) + lines_from(chars@, pos as int) == lines_of(chars@),
        decreases n - pos,
    {
        let e = find_line_feed(chars, pos);
        let ghost before = texts(out@);
        if e >= n {
            let line = string_of(chars, pos, n);
            out.push(line);
            assert(texts(out@) =~= before + seq![chars@.subrange(pos as int, n as int)]);
            assert(lines_from(chars@, n as int) =~= Seq::<Seq<char>>::empty());
            assert(texts(out@) + lines_from(chars@, n as int) =~= before + lines_from(
                chars@,
                pos as int,
            ));
            pos = n;
        } else {
            let stop: usize = if e > pos && chars[e - 1] == '\r' {
                e - 1
            } else {
                e
            };
            let line = string_of(chars, pos, stop);
            proof {
                let raw = chars@.subrange(pos as int, e as int);
                if e > pos {
                    assert(raw.last() == chars@[e - 1]);
                }
                assert(line@ =~= without_carriage_return(raw));
            }
            out.push(line);
            assert(texts(out@) =~= before + seq![
                without_carriage_return(chars@.subrange(pos as int, e as int)),
            ]);
            assert(texts(out@) + lines_from(chars@, e + 1) =~= before + lines_from(
                chars@,
                pos as int,
            ));
            pos = e + 1;
        }
    }
    assert(lines_from(chars@, pos as int) =~= Seq::<Seq<char>>::empty());
    assert(texts(out@) + Seq::<Seq<char>>::empty() =~= texts(out@));
    out
}

/// The lines of a string slice.
pub fn lines(s: &str) -> (r: Vec<String>)
    ensures
        texts(r@) == lines_of(s@),
{
    let chars = to_chars(s);
    split_lines(&chars)
}

// ---------------------------------------------------------------------
// Decimal numbers
// ---------------------------------------------------------------------

/// Whether `c` is one of `0` to `9`.
pub open spec fn is_digit_char(c: char) -> bool {
    '0' <= c <= '9'
}

/// The value of a decimal digit.
pub open spec fn digit_value(c: char) -> nat {
    (c as u32 - '0' as u32) as nat
}

/// Whether every character of `s` is a decimal digit.
pub open spec fn all_digits(s: Seq<char>) -> bool {
    forall|i: int| 0 <= i < s.len() ==> is_digit_char(#[trigger] s[i])
}

/// The number that a sequence of decimal digits writes; the empty sequence writes 0.
pub open spec fn decimal_value(s: Seq<char>) -> nat
    decreases s.len(),
{
    if s.len() == 0 {
        0
    } else {
        decimal_value(s.drop_last()) * 10 + digit_value(s.last())
    }
}

/// The digits after an optional leading `+`.
pub open spec fn unsigned_digits(s: Seq<char>) -> Seq<char> {
    if s.len() > 0 && s[0] == '+' {
        s.skip(1)
    } else {
        s
    }
}

/// The unsigned 64-bit number that `s` writes in decimal, if it writes one:
/// an optional `+`, then at least one digit and only digits, with a value
/// that fits.
pub open spec fn parsed_u64(s: Seq<char>) -> Option<u64> {
    let d = unsigned_digits(s);
    if d.len() > 0 && all_digits(d) && decimal_value(d) <= u64::MAX {
        Some(decimal_value(d) as u64)
    } else {
        None
    }
}

/// A prefix of a digit sequence writes no larger a number than the whole.
pub proof fn lemma_decimal_prefix(s: Seq<char>, k: int)
    requires
        0 <= k <= s.len(),
    ensures
        decimal_value(s.take(k)) <= decimal_value(s),
    decreases s.len() - k,
{
    if k == s.len() {
        assert(s.take(k) == s);
    } else {
        lemma_decimal_prefix(s, k + 1);
        let t = s.take(k + 1);
        assert(t.drop_last() == s.take(k));
    }
}

/// Whether `c` is one of `0` to `9`.
pub fn is_digit(c: char) -> (r: bool)
    ensures
        r == is_digit_char(c),
{
    let n: u32 = c as u32;
    48 <= n && n <= 57
}

/// Reads an unsigned 64-bit number written in decimal.
pub fn parse_u64(chars: &Vec<char>) -> (r: Option<u64>)
    ensures
        r == parsed_u64(chars@),
{
    let n = chars.len();
    let start: usize = if n > 0 && chars[0] == '+' {
        1
    } else {
        0
    };
    if start >= n {
        return None;
    }
    let ghost d = unsigned_digits(chars@);
    assert(d == chars@.skip(start as int));
    let mut value: u64 = 0;
    let mut i: usize = start;
    while i < n
        invariant
            n == chars@.len(),
            start <= i <= n,
            d == chars@.skip(start as int),
            d == unsigned_digits(chars@),
            all_digits(d.take(i - start)),
            value == decimal_value(d.take(i - start)),
        decreases n - i,
    {
        let c = chars[i];
        assert(d[i - start] == c);
        if !is_digit(c) {
            assert(!is_digit_char(d[i - start]));
            return None;
        }
        let digit: u64 = (c as u32 - 48) as u64;
        let ghost next = d.take(i - start + 1);
        proof {
            assert(next.drop_last() == d.take(i - start));
            assert(next.last() == c);
            assert(digit == digit_value(c));
            assert(decimal_value(next) == value * 10 + digit);
            lemma_decimal_prefix(d, i - start + 1);
            assert forall|k: int| 0 <= k < next.len() implies is_digit_char(#[trigger] next[k]) by {
                if k < i - start {
                    assert(d.take(i - start)[k] == next[k]);
                }
            }
        }
        let shifted = match value.checked_mul(10) {
            Some(v) => v,
            None => {
                return None;
            },
        };
        value = match shifted.checked_add(digit) {
            Some(v) => v,
            None => {
                return None;
            },
        };
        i += 1;
    }
    assert(d.take(n - start) == d);
    Some(value)
}

/// The decimal digits of `n`, most significant first, without leading zeros.
pub open spec fn decimal_of(n: nat) -> Seq<char>
    decreases n,
{
    if n < 10 {
        seq![digit_char(n)]
    } else {
        decimal_of(n / 10).push(digit_char(n % 10))
    }
}

/// The character of a digit below ten.
pub open spec fn digit_char(d: nat) -> char {
    if d == 0 {
        '0'
    } else if d == 1 {
        '1'
    } else if d == 2 {
        '2'
    } else if d == 3 {
        '3'
    } else if d == 4 {
        '4'
    } else if d == 5 {
        '5'
    } else if d == 6 {
        '6'
    } else if d == 7 {
        '7'
    } else if d == 8 {
        '8'
    } else {
        '9'
    }
}

fn digit_to_char(d: u64) -> (c: char)
    requires
        d < 10,
    ensures
        c == digit_char(d as nat),
{
    if d == 0 {
        '0'
    } else if d == 1 {
        '1'
    } else if d == 2 {
        '2'
    } else if d == 3 {
        '3'
    } else if d == 4 {
        '4'
    } else if d == 5 {
        '5'
    } else if d == 6 {
        '6'
    } else if d == 7 {
        '7'
    } else if d == 8 {
        '8'
    } else {
        '9'
    }
}

/// Appends the decimal digits of `n` to `out`.
pub fn push_decimal(out: &mut String, n: u64)
    ensures
        final(out)@ == old(out)@ + decimal_of(n as nat),
    decreases n,
{
    if n >= 10 {
        push_decimal(out, n / 10);
    }
    push_char(out, digit_to_char(n % 10));
    proof {
        if n >= 10 {
            assert(final(out)@ =~= old(out)@ + decimal_of(n as nat));
        } else {
            assert(final(out)@ =~= old(out)@ + decimal_of(n as nat));
        }
    }
}

/// `n` written in decimal.
pub fn u64_to_string(n: u64) -> (r: String)
    ensures
        r@ == decimal_of(n as nat),
{
    let mut out = String::new();
    push_decimal(&mut out, n);
    assert(out@ =~= decimal_of(n as nat));
    out
}

/// The parts joined by `sep`: each part but the last is followed by `sep`.
pub open spec fn joined(parts: Seq<Seq<char>>, sep: Seq<char>) -> Seq<char>
    decreases parts.len(),
{
    if parts.len() == 0 {
        Seq::<char>::empty()
    } else if parts.len() == 1 {
        parts[0]
    } else {
        joined(parts.drop_last(), sep) + sep + parts.last()
    }
}

/// Joins `parts[from..to]` with `sep`.
pub fn join_range(parts: &Vec<String>, from: usize, to: usize, sep: &str) -> (r: String)
    requires
        from <= to <= parts@.len(),
    ensures
        r@ == joined(texts(parts@).subrange(from as int, to as int), sep@),
{
    let mut out = String::new();
    let mut i: usize = from;
    let ghost all = texts(parts@).subrange(from as int, to as int);
    while i < to
        invariant
            from <= i <= to <= parts@.len(),
            all == texts(parts@).subrange(from as int, to as int),
            out@ == joined(all.take(i - from), sep@),
        decreases to - i,
    {
        proof {
            let cur = all.take(i - from + 1);
            assert(cur.drop_last() == all.take(i - from));
            assert(cur.last() == parts@[i as int]@);
        }
        if i > from {
            out.append(sep);
        }
        out.append(parts[i].as_str());
        proof {
            let cur = all.take(i - from + 1);
            if i == from {
                assert(out@ =~= cur[0]);
            }
        }
        i += 1;
    }
    assert(all.take(to - from) == all);
    out
}

/// Joins `parts[from..]` with `sep`.
pub fn join_from(parts: &Vec<String>, from: usize, sep: &str) -> (r: String)
    requires
        from <= parts@.len(),
    ensures
        r@ == joined(texts(parts@).skip(from as int), sep@),
{
    assert(texts(parts@).skip(from as int) =~= texts(parts@).subrange(
        from as int,
        parts@.len() as int,
    ));
    join_range(parts, from, parts.len(), sep)
}

/// What is joined is at least as long as its last part.
pub proof fn lemma_joined_ends_with_last(parts: Seq<Seq<char>>, sep: Seq<char>)
    requires
        parts.len() > 0,
    ensures
        joined(parts, sep).len() >= parts.last().len(),
        joined(parts, sep).subrange(
            joined(parts, sep).len() - parts.last().len(),
            joined(parts, sep).len() as int,
        ) == parts.last(),
{
    if parts.len() == 1 {
        assert(joined(parts, sep).subrange(0, parts[0].len() as int) =~= parts.last());
    } else {
        let j = joined(parts, sep);
        assert(j.subrange(j.len() - parts.last().len(), j.len() as int) =~= parts.last());
    }
}

/// Whether `char::is_alphanumeric` holds of a character: whether it is a
/// letter or a digit of some script.
pub uninterp spec fn is_alphanumeric_char(c: char) -> bool;

/// Whether `c` is a letter or a digit of some script.
///
/// Trusted: calls `char::is_alphanumeric`, which goes by the Unicode tables
/// for alphabetic and numeric characters. Nothing is claimed of the result
/// but that it is what that function gives for this character.
#[verifier::external_body]
pub(crate) fn is_alphanumeric(c: char) -> (r: bool)
    ensures
        r == is_alphanumeric_char(c),
{
    c.is_alphanumeric()
}

} // verus!
