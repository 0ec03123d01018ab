//! Splitting the free text of a reply into fields, where a field in double
//! quotes may hold several words.

use crate::text::{append_range, char_seqs, chars_of, push_char, split_words, string_seqs, words};
use vstd::prelude::*;

verus! {

/// The tokenizer's state after a sequence of words: the fields so far,
/// whether a quoted field is open, and the text of that field so far.
pub open spec fn token_scan(ws: Seq<Seq<char>>) -> (Seq<Seq<char>>, bool, Seq<char>)
    decreases ws.len(),
{
    if ws.len() == 0 {
        (seq![], false, seq![])
    } else {
        let prev = token_scan(ws.drop_last());
        let w = ws.last();
        if !prev.1 {
            if w.len() > 0 && w[0] == '"' {
                let rest = w.drop_first();
                if rest.len() > 0 && rest.last() == '"' {
                    (prev.0.push(rest.drop_last()), false, seq![])
                } else {
                    (prev.0, true, rest)
                }
            } else {
                (prev.0.push(w), false, seq![])
            }
        } else {
            if w.len() > 0 && w.last() == '"' {
                (prev.0.push(prev.2 + seq![' '] + w.drop_last()), false, seq![])
            } else {
                (prev.0, true, prev.2 + seq![' '] + w)
            }
        }
    }
}

/// The fields of a line. Words are separated by ASCII whitespace. A word that
/// starts with `"` opens a quoted field, which takes the following words,
/// joined by single spaces, up to one that ends with `"`; the quotes are
/// dropped. A word that both starts and ends with `"` is a field by itself.
/// A quoted field still open at the end of the line closes there.
pub open spec fn tokenize(s: Seq<char>) -> Seq<Seq<char>> {
    let st = token_scan(words(s, true));
    if st.1 {
        st.0.push(st.2)
    } else {
        st.0
    }
}

/// Splits the free text of a reply into its fields.
pub fn parse_cmd_argument(reply_text: &String) -> (r: Vec<String>)
    ensures
        string_seqs(r@) == tokenize(reply_text@),
{
    let chars = chars_of(reply_text.as_str());
    let ws = split_words(&chars, true);
    let ghost all = char_seqs(ws@);
    let mut ret: Vec<String> = Vec::new();
    let mut tmp = String::new();
    let mut in_string = false;
    let mut i: usize = 0;
    while i < ws.len()
        invariant
            i <= ws@.len(),
            all == char_seqs(ws@),
            all == words(chars@, true),
            string_seqs(ret@) == token_scan(all.take(i as int)).0,
            in_string == token_scan(all.take(i as int)).1,
            tmp@ == token_scan(all.take(i as int)).2,
        decreases ws.len() - i,
    {
        let w = &ws[i];
        let n = w.len();
        assert(all.take(i + 1).drop_last() == all.take(i as int));
        assert(all.take(i + 1).last() == w@);
        let ghost before = ret@;
        if !in_string {
            if n > 0 && w[0] == '"' {
                if n >= 2 && w[n - 1] == '"' {
                    let mut field = String::new();
                    append_range(&mut field, w, 1, n - 1);
                    assert(field@ == w@.drop_first().drop_last());
                    ret.push(field);
                    assert(string_seqs(ret@) == string_seqs(before).push(field@));
                } else {
                    in_string = true;
                    tmp = String::new();
                    append_range(&mut tmp, w, 1, n);
                    assert(tmp@ == w@.drop_first());
                }
            } else {
                let mut field = String::new();
                append_range(&mut field, w, 0, n);
                assert(field@ == w@);
                ret.push(field);
                assert(string_seqs(ret@) == string_seqs(before).push(field@));
            }
        } else {
            let ghost open_text = tmp@;
            push_char(&mut tmp, ' ');
            if n > 0 && w[n - 1] == '"' {
                append_range(&mut tmp, w, 0, n - 1);
                assert(w@.subrange(0, n - 1) == w@.drop_last());
                assert(tmp@ == open_text + seq![' '] + w@.drop_last());
                ret.push(tmp);
                assert(string_seqs(ret@) == string_seqs(before).push(tmp@));
                in_string = false;
                tmp = String::new();
            } else {
                append_range(&mut tmp, w, 0, n);
                assert(w@.subrange(0, n as int) == w@);
                assert(tmp@ == open_text + seq![' '] + w@);
            }
        }
        i += 1;
    }
    assert(all.take(ws@.len() as int) == all);
    if in_string {
        let ghost before = ret@;
        ret.push(tmp);
        assert(string_seqs(ret@) == string_seqs(before).push(tmp@));
    }
    ret
}

} // verus!
