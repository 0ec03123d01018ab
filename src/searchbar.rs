//! The search bar: a line of text with a cursor that moves over grapheme
//! clusters, and the reading of a search into a word, a database and a
//! strategy.

use crate::entities::{Database, NamedView, Strategy};
use crate::text::{
    char_seqs, chars_of, push_char, split_words, string_of, string_of_range, string_seqs, words,
};
use vstd::prelude::*;

verus! {

/// The extended grapheme clusters of a text, in order.
pub uninterp spec fn grapheme_clusters(s: Seq<char>) -> Seq<Seq<char>>;

/// Relies on `unicode_segmentation::UnicodeSegmentation::graphemes` with
/// extended clusters: the clusters of `s`, in order, depend on `s` alone.
#[verifier::external_body]
fn graphemes_of(s: &str) -> (r: Vec<String>)
    ensures
        string_seqs(r@) == grapheme_clusters(s@),
{
    unicode_segmentation::UnicodeSegmentation::graphemes(s, true).map(String::from).collect()
}

/// Where the cursor moves.
#[derive(Debug, Clone, Copy, PartialEq, Eq, Structural)]
pub enum CursorDirection {
    Left,
    Right,
}

/// A line of text and a cursor, counted in grapheme clusters.
#[derive(Debug)]
pub struct SearchBar {
    text: String,
    cursor: usize,
}

pub struct SearchBarView {
    pub text: Seq<char>,
    pub cursor: usize,
}

impl View for SearchBar {
    type V = SearchBarView;

    closed spec fn view(&self) -> SearchBarView {
        SearchBarView { text: self.text@, cursor: self.cursor }
    }
}

/// The cursor after a move, over a text of `count` clusters.
pub open spec fn moved(count: nat, cursor: usize, dir: CursorDirection) -> usize {
    match dir {
        CursorDirection::Left => if cursor > 0 {
            (cursor - 1) as usize
        } else {
            cursor
        },
        CursorDirection::Right => if cursor < count {
            (cursor + 1) as usize
        } else {
            cursor
        },
    }
}

/// The text after typing `c` at cluster `cursor` of a text whose clusters
/// are `g`: before that cluster, or at the end when the cursor is past the
/// last cluster.
pub open spec fn typed(g: Seq<Seq<char>>, text: Seq<char>, cursor: usize, c: char) -> Seq<char> {
    if cursor < g.len() {
        g.insert(cursor as int, seq![c]).flatten()
    } else {
        text.push(c)
    }
}

/// The text after removing cluster `k` of a text whose clusters are `g`,
/// or its last character when `k` is past the last cluster.
pub open spec fn erased(g: Seq<Seq<char>>, text: Seq<char>, k: usize) -> Seq<char> {
    if k < g.len() {
        g.remove(k as int).flatten()
    } else if text.len() > 0 {
        text.drop_last()
    } else {
        text
    }
}

/// The text before the cluster under the cursor, that cluster, and the text
/// after it; past the last cluster, the whole text, a space and nothing.
pub open spec fn cursor_pieces(g: Seq<Seq<char>>, text: Seq<char>, cursor: usize) -> (
    Seq<char>,
    Seq<char>,
    Seq<char>,
) {
    if cursor < g.len() {
        (g.take(cursor as int).flatten(), g[cursor as int], g.skip(cursor + 1).flatten())
    } else {
        (text, seq![' '], seq![])
    }
}

/// The strings of `v` from `lo` up to `hi`, one after the other.
fn concat_range(v: &Vec<String>, lo: usize, hi: usize) -> (r: String)
    requires
        lo <= hi <= v@.len(),
    ensures
        r@ == string_seqs(v@).subrange(lo as int, hi as int).flatten(),
{
    let ghost g = string_seqs(v@);
    let mut r = String::new();
    let mut i: usize = lo;
    while i < hi
        invariant
            lo <= i <= hi <= v@.len(),
            g == string_seqs(v@),
            r@ == g.subrange(lo as int, i as int).flatten(),
        decreases hi - i,
    {
        assert(g.subrange(lo as int, i + 1) == g.subrange(lo as int, i as int).push(v@[i as int]@));
        proof {
            g.subrange(lo as int, i as int).lemma_flatten_push(v@[i as int]@);
        }
        r.append(v[i].as_str());
        i += 1;
    }
    r
}

/// All the strings of `v`, one after the other.
fn concat_all(v: &Vec<String>) -> (r: String)
    ensures
        r@ == string_seqs(v@).flatten(),
{
    assert(string_seqs(v@).subrange(0, v@.len() as int) == string_seqs(v@));
    concat_range(v, 0, v.len())
}

/// Types `c` at cluster `cursor` of `text`, whose clusters are `clusters`.
pub fn insert_at_cluster(clusters: Vec<String>, text: &String, cursor: usize, c: char) -> (r: String)
    ensures
        r@ == typed(string_seqs(clusters@), text@, cursor, c),
{
    let mut g = clusters;
    if cursor < g.len() {
        let mut one = String::new();
        push_char(&mut one, c);
        let ghost before = g@;
        g.insert(cursor, one);
        assert(string_seqs(g@) == string_seqs(before).insert(cursor as int, seq![c]));
        concat_all(&g)
    } else {
        let mut r = text.clone();
        push_char(&mut r, c);
        r
    }
}

/// Removes cluster `k` of `text`, whose clusters are `clusters`, or the last
/// character when `k` is past the last cluster.
pub fn erase_cluster(clusters: Vec<String>, text: &String, k: usize) -> (r: String)
    ensures
        r@ == erased(string_seqs(clusters@), text@, k),
{
    let mut g = clusters;
    if k < g.len() {
        let ghost before = g@;
        g.remove(k);
        assert(string_seqs(g@) == string_seqs(before).remove(k as int));
        concat_all(&g)
    } else {
        let v = chars_of(text.as_str());
        if v.len() > 0 {
            assert(v@.subrange(0, v@.len() - 1) == v@.drop_last());
            string_of_range(&v, 0, v.len() - 1)
        } else {
            text.clone()
        }
    }
}

/// The pieces of `text`, whose clusters are `clusters`, around the cluster
/// at `cursor`.
pub fn pieces_at(clusters: &Vec<String>, text: &String, cursor: usize) -> (r: (String, String, String))
    ensures
        (r.0@, r.1@, r.2@) == cursor_pieces(string_seqs(clusters@), text@, cursor),
{
    let n = clusters.len();
    if cursor < n {
        let ghost gs = string_seqs(clusters@);
        assert(gs.subrange(0, cursor as int) == gs.take(cursor as int));
        assert(gs.subrange(cursor + 1, n as int) == gs.skip(cursor + 1));
        (concat_range(clusters, 0, cursor), clusters[cursor].clone(), concat_range(clusters, cursor + 1, n))
    } else {
        let mut space = String::new();
        push_char(&mut space, ' ');
        (text.clone(), space, String::new())
    }
}

impl SearchBar {
    /// An empty search bar.
    pub fn new() -> (s: SearchBar)
        ensures
            s@.text == Seq::<char>::empty(),
            s@.cursor == 0,
    {
        SearchBar { text: String::new(), cursor: 0 }
    }

    fn graphemes_nr(&self) -> (n: usize)
        ensures
            n == grapheme_clusters(self@.text).len(),
    {
        let g = graphemes_of(self.text.as_str());
        assert(string_seqs(g@).len() == g@.len());
        g.len()
    }

    /// Moves the cursor one cluster left or right, within the text.
    pub fn move_cursor(&mut self, dir: CursorDirection)
        ensures
            final(self)@.text == old(self)@.text,
            final(self)@.cursor == moved(
                grapheme_clusters(old(self)@.text).len(),
                old(self)@.cursor,
                dir,
            ),
    {
        match dir {
            CursorDirection::Left => {
                if self.cursor > 0 {
                    self.cursor -= 1;
                }
            },
            CursorDirection::Right => {
                if self.cursor < self.graphemes_nr() {
                    self.cursor += 1;
                }
            },
        }
    }

    /// Types `c` at the cursor, then moves the cursor right.
    pub fn edit(&mut self, c: char)
        ensures
            final(self)@.text == typed(
                grapheme_clusters(old(self)@.text),
                old(self)@.text,
                old(self)@.cursor,
                c,
            ),
            final(self)@.cursor == moved(
                grapheme_clusters(final(self)@.text).len(),
                old(self)@.cursor,
                CursorDirection::Right,
            ),
    {
        let g = graphemes_of(self.text.as_str());
        self.text = insert_at_cluster(g, &self.text, self.cursor, c);
        self.move_cursor(CursorDirection::Right);
    }

    /// Removes the cluster before the cursor and moves the cursor onto its
    /// place; nothing happens with the cursor at the start.
    pub fn delete(&mut self)
        ensures
            old(self)@.cursor == 0 ==> final(self)@ == old(self)@,
            old(self)@.cursor > 0 ==> final(self)@.cursor == old(self)@.cursor - 1
                && final(self)@.text == erased(
                grapheme_clusters(old(self)@.text),
                old(self)@.text,
                (old(self)@.cursor - 1) as usize,
            ),
    {
        if self.cursor == 0 {
            return;
        }
        self.move_cursor(CursorDirection::Left);
        let g = graphemes_of(self.text.as_str());
        self.text = erase_cluster(g, &self.text, self.cursor);
    }

    /// The pieces in which the bar is drawn, with the cursor on the middle
    /// one.
    pub fn cursor_pieces(&self) -> (r: (String, String, String))
        ensures
            (r.0@, r.1@, r.2@) == cursor_pieces(
                grapheme_clusters(self@.text),
                self@.text,
                self@.cursor,
            ),
    {
        let g = graphemes_of(self.text.as_str());
        pieces_at(&g, &self.text, self.cursor)
    }

    /// The position of the cursor, in grapheme clusters.
    pub fn cursor(&self) -> (r: usize)
        ensures
            r == self@.cursor,
    {
        self.cursor
    }

    /// The text.
    pub fn text(&self) -> (r: &String)
        ensures
            r@ == self@.text,
    {
        &self.text
    }

    /// Replaces the text and puts the cursor at the start.
    pub fn set_text(&mut self, text: &str)
        ensures
            final(self)@.text == text@,
            final(self)@.cursor == 0,
    {
        self.text = String::from_str(text);
        self.cursor = 0;
    }

    /// Empties the text and puts the cursor at the start.
    pub fn clear(&mut self)
        ensures
            final(self)@.text == Seq::<char>::empty(),
            final(self)@.cursor == 0,
    {
        self.text = String::new();
        self.cursor = 0;
    }
}

impl Default for SearchBar {
    fn default() -> (s: SearchBar)
        ensures
            s@.text == Seq::<char>::empty(),
            s@.cursor == 0,
    {
        SearchBar::new()
    }
}

/// What a search reads as after a sequence of words: the searched word so
/// far, and the database and the strategy if one was named.
pub open spec fn search_scan(ws: Seq<Seq<char>>) -> (Seq<char>, Option<Seq<char>>, Option<Seq<char>>)
    decreases ws.len(),
{
    if ws.len() == 0 {
        (seq![], None, None)
    } else {
        let prev = search_scan(ws.drop_last());
        let p = ws.last();
        if p.len() > 0 && p[0] == '@' && prev.1 is None {
            (prev.0, Some(p.drop_first()), prev.2)
        } else if p.len() > 0 && p[0] == ':' && prev.2 is None {
            (prev.0, prev.1, Some(p.drop_first()))
        } else if p.len() > 0 && (p[0] as u32) < 0x80 {
            (
                if prev.0.len() > 0 {
                    prev.0 + seq![' '] + p
                } else {
                    p
                },
                prev.1,
                prev.2,
            )
        } else {
            prev
        }
    }
}

/// How a search reads: its whitespace-separated words, where the first
/// word that starts with `@` names the database, the first that starts with
/// `:` names the strategy, and the other words, joined by single spaces,
/// make the searched word. A word whose first character is outside ASCII is
/// left out. Without a named database all databases are searched; without
/// a named strategy the server's default is used.
pub open spec fn search_of(src: Seq<char>) -> (Seq<char>, NamedView, NamedView) {
    let st = search_scan(words(src, false));
    (
        st.0,
        match st.1 {
            Some(n) => NamedView { name: n, desc: seq![] },
            None => NamedView { name: "*"@, desc: "All databases"@ },
        },
        match st.2 {
            Some(n) => NamedView { name: n, desc: seq![] },
            None => NamedView { name: "."@, desc: "Server default"@ },
        },
    )
}

/// Reads a search into the word, the database and the strategy.
pub fn parse_search_bar(src: &String) -> (r: (String, Database, Strategy))
    ensures
        (r.0@, r.1@, r.2@) == search_of(src@),
{
    let chars = chars_of(src.as_str());
    let ws = split_words(&chars, false);
    let ghost all = char_seqs(ws@);
    let mut word = String::new();
    let mut db: Option<String> = None;
    let mut strat: Option<String> = None;
    let mut i: usize = 0;
    while i < ws.len()
        invariant
            i <= ws@.len(),
            all == char_seqs(ws@),
            all == words(src@, false),
            word@ == search_scan(all.take(i as int)).0,
            opt_view(db) == search_scan(all.take(i as int)).1,
            opt_view(strat) == search_scan(all.take(i as int)).2,
        decreases ws.len() - i,
    {
        let p = &ws[i];
        assert(all.take(i + 1).drop_last() == all.take(i as int));
        assert(all.take(i + 1).last() == p@);
        if p.len() > 0 && p[0] == '@' && db.is_none() {
            db = Some(string_of_range(p, 1, p.len()));
            assert(p@.subrange(1, p@.len() as int) == p@.drop_first());
        } else if p.len() > 0 && p[0] == ':' && strat.is_none() {
            strat = Some(string_of_range(p, 1, p.len()));
            assert(p@.subrange(1, p@.len() as int) == p@.drop_first());
        } else if p.len() > 0 && (p[0] as u32) < 0x80 {
            if word.as_str().unicode_len() > 0 {
                push_char(&mut word, ' ');
            }
            word.append(string_of(p).as_str());
        }
        i += 1;
    }
    assert(all.take(ws@.len() as int) == all);
    let d = match db {
        Some(n) => Database::named(n),
        None => Database::all(),
    };
    let s = match strat {
        Some(n) => Strategy::named(n),
        None => Strategy::server_default(),
    };
    (word, d, s)
}

pub open spec fn opt_view(o: Option<String>) -> Option<Seq<char>> {
    match o {
        Some(s) => Some(s@),
        None => None,
    }
}

} // verus!
