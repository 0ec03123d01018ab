//! Character-level helpers shared by the parsers: whitespace classes,
//! conversions between `String` and character vectors, word splitting.

use vstd::prelude::*;

verus! {

/// ASCII whitespace as `u8::is_ascii_whitespace` defines it.
pub open spec fn is_ascii_space(c: char) -> bool {
    c == ' ' || c == '\t' || c == '\n' || c == '\x0C' || c == '\r'
}

/// Characters with the Unicode `White_Space` property, as used by
/// `char::is_whitespace`.
pub open spec fn is_unicode_space(c: char) -> bool {
    ('\t' <= c && c <= '\r') || c == ' ' || c == '\u{85}' || c == '\u{A0}' || c == '\u{1680}'
        || ('\u{2000}' <= c && c <= '\u{200A}') || c == '\u{2028}' || c == '\u{2029}'
        || c == '\u{202F}' || c == '\u{205F}' || c == '\u{3000}'
}

pub fn ascii_space(c: char) -> (r: bool)
    ensures
        r == is_ascii_space(c),
{
    c == ' ' || c == '\t' || c == '\n' || c == '\x0C' || c == '\r'
}

pub fn unicode_space(c: char) -> (r: bool)
    ensures
        r == is_unicode_space(c),
{
    ('\t' <= c && c <= '\r') || c == ' ' || c == '\u{85}' || c == '\u{A0}' || c == '\u{1680}'
        || ('\u{2000}' <= c && c <= '\u{200A}') || c == '\u{2028}' || c == '\u{2029}'
        || c == '\u{202F}' || c == '\u{205F}' || c == '\u{3000}'
}

/// Relies on `String::push`: appends one character at the end.
#[verifier::external_body]
pub(crate) fn push_char(s: &mut String, c: char)
    ensures
        final(s)@ == old(s)@.push(c),
{
    s.push(c)
}

/// The characters of `s`, in order.
pub fn chars_of(s: &str) -> (r: Vec<char>)
    ensures
        r@ == s@,
{
    let mut r: Vec<char> = Vec::new();
    for c in it: s.chars()
        invariant
            r@ == it.seq().take(it.index() as int),
    {
        r.push(c);
    }
    r
}

/// Appends the characters of `v` from `lo` up to `hi` to `dst`.
pub fn append_range(dst: &mut String, v: &Vec<char>, lo: usize, hi: usize)
    requires
        lo <= hi <= v@.len(),
    ensures
        final(dst)@ == old(dst)@ + v@.subrange(lo as int, hi as int),
{
    let ghost start = dst@;
    let mut i: usize = lo;
    while i < hi
        invariant
            lo <= i <= hi <= v@.len(),
            dst@ == start + v@.subrange(lo as int, i as int),
        decreases hi - i,
    {
        push_char(dst, v[i]);
        assert(v@.subrange(lo as int, i + 1) == v@.subrange(lo as int, i as int).push(v@[i as int]));
        i += 1;
    }
}

/// The characters of `v` from `lo` up to `hi`, as a `String`.
pub fn string_of_range(v: &Vec<char>, lo: usize, hi: usize) -> (r: String)
    requires
        lo <= hi <= v@.len(),
    ensures
        r@ == v@.subrange(lo as int, hi as int),
{
    let mut r = String::new();
    append_range(&mut r, v, lo, hi);
    r
}

/// The characters of `v` as a `String`.
pub fn string_of(v: &Vec<char>) -> (r: String)
    ensures
        r@ == v@,
{
    assert(v@.subrange(0, v@.len() as int) == v@);
    string_of_range(v, 0, v.len())
}

/// Separators of a word split: ASCII whitespace, or all Unicode whitespace.
pub open spec fn is_separator(c: char, ascii: bool) -> bool {
    if ascii {
        is_ascii_space(c)
    } else {
        is_unicode_space(c)
    }
}

/// Words finished so far, and the word being read, after scanning `s`.
pub open spec fn word_scan(s: Seq<char>, ascii: bool) -> (Seq<Seq<char>>, Seq<char>)
    decreases s.len(),
{
    if s.len() == 0 {
        (seq![], seq![])
    } else {
        let prev = word_scan(s.drop_last(), ascii);
        if is_separator(s.last(), ascii) {
            if prev.1.len() > 0 {
                (prev.0.push(prev.1), seq![])
            } else {
                (prev.0, seq![])
            }
        } else {
            (prev.0, prev.1.push(s.last()))
        }
    }
}

/// The maximal runs of non-separator characters of `s`, in order
/// (`str::split_ascii_whitespace` or `str::split_whitespace`).
pub open spec fn words(s: Seq<char>, ascii: bool) -> Seq<Seq<char>> {
    let scan = word_scan(s, ascii);
    if scan.1.len() > 0 {
        scan.0.push(scan.1)
    } else {
        scan.0
    }
}

/// The views of a sequence of character vectors.
pub open spec fn char_seqs(v: Seq<Vec<char>>) -> Seq<Seq<char>> {
    v.map_values(|w: Vec<char>| w@)
}

/// The views of a sequence of strings.
pub open spec fn string_seqs(v: Seq<String>) -> Seq<Seq<char>> {
    v.map_values(|w: String| w@)
}

/// Splits `s` into words separated by whitespace.
pub fn split_words(s: &Vec<char>, ascii: bool) -> (r: Vec<Vec<char>>)
    ensures
        char_seqs(r@) == words(s@, ascii),
{
    let mut done: Vec<Vec<char>> = Vec::new();
    let mut cur: Vec<char> = Vec::new();
    let mut i: usize = 0;
    while i < s.len()
        invariant
            i <= s@.len(),
            char_seqs(done@) == word_scan(s@.take(i as int), ascii).0,
            cur@ == word_scan(s@.take(i as int), ascii).1,
        decreases s.len() - i,
    {
        let c = s[i];
        assert(s@.take(i + 1).drop_last() == s@.take(i as int));
        let sep = if ascii {
            ascii_space(c)
        } else {
            unicode_space(c)
        };
        if sep {
            if cur.len() > 0 {
                let ghost before = done@;
                done.push(cur);
                assert(char_seqs(done@) == char_seqs(before).push(cur@));
                cur = Vec::new();
            } else {
                cur = Vec::new();
            }
        } else {
            cur.push(c);
        }
        i += 1;
    }
    assert(s@.take(s@.len() as int) == s@);
    if cur.len() > 0 {
        let ghost before = done@;
        done.push(cur);
        assert(char_seqs(done@) == char_seqs(before).push(cur@));
    }
    done
}

/// `s` without its leading Unicode whitespace.
pub open spec fn trim_start(s: Seq<char>) -> Seq<char>
    decreases s.len(),
{
    if s.len() > 0 && is_unicode_space(s[0]) {
        trim_start(s.drop_first())
    } else {
        s
    }
}

/// `s` without its trailing Unicode whitespace.
pub open spec fn trim_end(s: Seq<char>) -> Seq<char>
    decreases s.len(),
{
    if s.len() > 0 && is_unicode_space(s.last()) {
        trim_end(s.drop_last())
    } else {
        s
    }
}

/// `s` without leading and trailing Unicode whitespace (`str::trim`).
pub open spec fn trim(s: Seq<char>) -> Seq<char> {
    trim_end(trim_start(s))
}

/// The characters of `v` from `lo` on, trimmed, as a `String`.
pub fn trimmed_from(v: &Vec<char>, lo: usize) -> (r: String)
    requires
        lo <= v@.len(),
    ensures
        r@ == trim(v@.subrange(lo as int, v@.len() as int)),
{
    let n = v.len();
    let mut a: usize = lo;
    while a < n && unicode_space(v[a])
        invariant
            lo <= a <= n == v@.len(),
            trim_start(v@.subrange(lo as int, n as int)) == trim_start(v@.subrange(a as int, n as int)),
        decreases n - a,
    {
        assert(v@.subrange(a as int, n as int).drop_first() == v@.subrange(a + 1, n as int));
        a += 1;
    }
    let mut b: usize = n;
    while b > a && unicode_space(v[b - 1])
        invariant
            a <= b <= n == v@.len(),
            trim_end(v@.subrange(a as int, n as int)) == trim_end(v@.subrange(a as int, b as int)),
        decreases b - a,
    {
        assert(v@.subrange(a as int, b as int).drop_last() == v@.subrange(a as int, b - 1));
        b -= 1;
    }
    string_of_range(v, a, b)
}

/// Pieces finished so far, and the piece being read, after scanning `s`.
pub open spec fn split_scan(s: Seq<char>, sep: char) -> (Seq<Seq<char>>, Seq<char>)
    decreases s.len(),
{
    if s.len() == 0 {
        (seq![], seq![])
    } else {
        let prev = split_scan(s.drop_last(), sep);
        if s.last() == sep {
            (prev.0.push(prev.1), seq![])
        } else {
            (prev.0, prev.1.push(s.last()))
        }
    }
}

/// The pieces of `s` between occurrences of `sep` (`str::split` on a
/// character): one more piece than there are separators.
pub open spec fn split_on(s: Seq<char>, sep: char) -> Seq<Seq<char>> {
    let scan = split_scan(s, sep);
    scan.0.push(scan.1)
}

/// Splits the characters of `v` from `lo` on at each `sep`.
pub fn split_from(v: &Vec<char>, lo: usize, sep: char) -> (r: Vec<String>)
    requires
        lo <= v@.len(),
    ensures
        string_seqs(r@) == split_on(v@.subrange(lo as int, v@.len() as int), sep),
{
    let ghost s = v@.subrange(lo as int, v@.len() as int);
    let mut done: Vec<String> = Vec::new();
    let mut start: usize = lo;
    let mut i: usize = lo;
    while i < v.len()
        invariant
            lo <= start <= i <= v@.len(),
            s == v@.subrange(lo as int, v@.len() as int),
            string_seqs(done@) == split_scan(s.take(i - lo), sep).0,
            v@.subrange(start as int, i as int) == split_scan(s.take(i - lo), sep).1,
        decreases v.len() - i,
    {
        assert(s.take(i + 1 - lo).drop_last() == s.take(i - lo));
        assert(s.take(i + 1 - lo).last() == v@[i as int]);
        if v[i] == sep {
            let piece = string_of_range(v, start, i);
            let ghost before = done@;
            done.push(piece);
            assert(string_seqs(done@) == string_seqs(before).push(piece@));
            start = i + 1;
            assert(v@.subrange(start as int, i + 1) == Seq::<char>::empty());
        } else {
            assert(v@.subrange(start as int, i + 1) == v@.subrange(start as int, i as int).push(
                v@[i as int],
            ));
        }
        i += 1;
    }
    assert(s.take(v@.len() - lo) == s);
    let piece = string_of_range(v, start, v.len());
    let ghost before = done@;
    done.push(piece);
    assert(string_seqs(done@) == string_seqs(before).push(piece@));
    done
}

/// A decimal digit.
pub open spec fn is_digit(c: char) -> bool {
    '0' <= c && c <= '9'
}

/// The value of a decimal digit.
pub open spec fn digit_value(c: char) -> nat {
    (c as int - '0' as int) as nat
}

/// The value of a string of decimal digits.
pub open spec fn decimal_value(d: Seq<char>) -> nat
    decreases d.len(),
{
    if d.len() == 0 {
        0
    } else {
        decimal_value(d.drop_last()) * 10 + digit_value(d.last())
    }
}

} // verus!
