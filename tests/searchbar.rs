use redict::entities::{Database, Strategy};
use redict::searchbar::{
    erase_cluster, insert_at_cluster, parse_search_bar, pieces_at, CursorDirection, SearchBar,
};

#[test]
fn basic_insert() {
    let mut search = SearchBar::default();
    search.edit('f');
    search.edit('g');
    search.edit('h');

    assert_eq!(search.text(), "fgh");
}

#[test]
fn middle_insert() {
    let mut search = SearchBar::default();
    search.edit('f');
    search.edit('h');

    search.move_cursor(CursorDirection::Left);
    search.edit('g');

    assert_eq!(search.text(), "fgh");
}

#[test]
fn start_insert() {
    let mut search = SearchBar::default();
    search.edit('g');
    search.move_cursor(CursorDirection::Left);
    search.edit('f');

    assert_eq!(search.text(), "fg");
}

#[test]
fn basic_delete() {
    let mut search = SearchBar::default();
    search.set_text(&"fg");
    search.move_cursor(CursorDirection::Right);
    search.move_cursor(CursorDirection::Right);
    search.delete();

    assert_eq!(search.text(), "f");
}

#[test]
fn middle_delete() {
    let mut search = SearchBar::default();
    search.set_text(&"fg");
    search.move_cursor(CursorDirection::Right);
    search.delete();

    assert_eq!(search.text(), "g");
}

#[test]
fn start_delete() {
    let mut search = SearchBar::default();
    search.set_text(&"fg");
    search.delete();

    assert_eq!(search.text(), "fg");
}

#[test]
fn delete_empty() {
    let mut search = SearchBar::default();
    search.delete();
    // Only assert aliveness
}

#[test]
fn complex_grapheme_insert() {
    let mut search = SearchBar::default();
    search.edit('ĝ');
    search.edit('h');

    assert_eq!(search.text(), "ĝh");
}

#[test]
fn complex_grapheme_delete() {
    let mut search = SearchBar::default();
    search.edit('ĝ');
    search.delete();

    assert!(search.text().is_empty());
}

#[test]
fn clear() {
    let mut search = SearchBar::default();
    search.set_text(&"foo");
    assert_eq!(search.text(), "foo");
    search.clear();
    assert_eq!(search.text(), "");
}

#[test]
fn combining_mark_joins_the_cluster() {
    let mut search = SearchBar::default();
    search.set_text("e\u{301}x");
    search.move_cursor(CursorDirection::Right);
    search.delete();
    assert_eq!(search.text(), "x");
}

#[test]
fn cursor_stops_at_the_end() {
    let mut search = SearchBar::default();
    search.set_text("ab");
    for _ in 0..5 {
        search.move_cursor(CursorDirection::Right);
    }
    search.edit('c');
    assert_eq!(search.text(), "abc");
    search.delete();
    search.delete();
    assert_eq!(search.text(), "a");
}

#[test]
fn search_with_database_and_strategy() {
    let (word, db, strat) = parse_search_bar(&String::from("  hello @wn  :prefix world @gcide"));
    assert_eq!(word, "hello world @gcide");
    assert_eq!(db.name, "wn");
    assert_eq!(db.desc, "");
    assert_eq!(strat.name, "prefix");
}

#[test]
fn search_defaults() {
    let (word, db, strat) = parse_search_bar(&String::from("cake"));
    assert_eq!(word, "cake");
    assert_eq!(db.name, Database::all().name);
    assert_eq!(strat.name, Strategy::default().name);
    assert_eq!(strat.desc, "Server default");
}

#[test]
fn search_skips_words_starting_outside_ascii() {
    let (word, _, _) = parse_search_bar(&String::from("élan vital"));
    assert_eq!(word, "vital");
}

fn clusters(v: &[&str]) -> Vec<String> {
    v.iter().map(|s| s.to_string()).collect()
}

#[test]
fn insert_before_a_cluster() {
    let text = String::from("ae\u{301}b");
    let g = clusters(&["a", "e\u{301}", "b"]);
    assert_eq!(insert_at_cluster(g.clone(), &text, 1, 'x'), "axe\u{301}b");
    assert_eq!(insert_at_cluster(g.clone(), &text, 3, 'x'), "ae\u{301}bx");
    assert_eq!(insert_at_cluster(g, &text, 9, 'x'), "ae\u{301}bx");
}

#[test]
fn erase_a_whole_cluster() {
    let text = String::from("ae\u{301}b");
    let g = clusters(&["a", "e\u{301}", "b"]);
    assert_eq!(erase_cluster(g.clone(), &text, 1), "ab");
    assert_eq!(erase_cluster(g.clone(), &text, 2), "ae\u{301}");
    assert_eq!(erase_cluster(g, &text, 3), "ae\u{301}");
    assert_eq!(erase_cluster(Vec::new(), &String::new(), 0), "");
}

#[test]
fn pieces_around_the_cursor() {
    let text = String::from("ae\u{301}b");
    let g = clusters(&["a", "e\u{301}", "b"]);
    assert_eq!(
        pieces_at(&g, &text, 1),
        (String::from("a"), String::from("e\u{301}"), String::from("b"))
    );
    assert_eq!(pieces_at(&g, &text, 3), (text.clone(), String::from(" "), String::new()));
}

#[test]
fn search_bar_pieces() {
    let mut search = SearchBar::default();
    search.set_text("fgh");
    search.move_cursor(CursorDirection::Right);
    assert_eq!(search.cursor(), 1);
    assert_eq!(
        search.cursor_pieces(),
        (String::from("f"), String::from("g"), String::from("h"))
    );
}
