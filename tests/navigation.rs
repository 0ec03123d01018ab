use redict::navigation::{AppMode, History, HistoryMovement, ViewState, SCROLL_AMOUNT};

#[test]
fn modes_cycle() {
    let all = AppMode::values();
    assert_eq!(all.len(), 4);
    for (i, m) in all.iter().enumerate() {
        assert_eq!(m.index(), i);
        assert_eq!(m.next().previous(), *m);
        assert_eq!(m.next().index(), (i + 1) % 4);
    }
    assert_eq!(AppMode::Databases.next(), AppMode::Define);
    assert_eq!(AppMode::Define.previous(), AppMode::Databases);
    assert_eq!(AppMode::Strategies.text(), "Strategies");
}

#[test]
fn history_walks_back_and_forth() {
    let mut h = History::new();
    assert_eq!(h.current(), None);
    h.push(String::from("a"));
    h.push(String::from("b"));
    h.push(String::from("c"));
    assert_eq!(h.current().unwrap(), "c");
    h.goto(HistoryMovement::Previous);
    h.goto(HistoryMovement::Previous);
    h.goto(HistoryMovement::Previous);
    assert_eq!(h.current().unwrap(), "a");
    h.goto(HistoryMovement::Next);
    assert_eq!(h.current().unwrap(), "b");
    h.goto(HistoryMovement::Last);
    assert_eq!(h.current().unwrap(), "c");
    h.goto(HistoryMovement::Next);
    assert_eq!(h.current().unwrap(), "c");
    h.goto(HistoryMovement::First);
    assert_eq!(h.current().unwrap(), "a");
}

#[test]
fn history_push_drops_the_entries_ahead() {
    let mut h = History::new();
    h.push(String::from("a"));
    h.push(String::from("b"));
    h.push(String::from("c"));
    h.goto(HistoryMovement::First);
    h.push(String::from("d"));
    assert_eq!(h.current().unwrap(), "d");
    h.goto(HistoryMovement::Previous);
    assert_eq!(h.current().unwrap(), "a");
    h.goto(HistoryMovement::Last);
    assert_eq!(h.current().unwrap(), "d");
}

#[test]
fn definition_selection_wraps() {
    let mut v = ViewState::new();
    v.scroll = 20;
    v.next_definition(3);
    assert_eq!((v.selected_def, v.scroll), (1, 0));
    v.next_definition(3);
    v.next_definition(3);
    assert_eq!(v.selected_def, 0);
    v.previous_definition(3);
    assert_eq!(v.selected_def, 2);
    v.previous_definition(3);
    assert_eq!(v.selected_def, 1);
}

#[test]
fn scrolling_stays_within_the_view() {
    let mut v = ViewState::new();
    v.scroll_down(25, 0);
    assert_eq!(v.scroll, SCROLL_AMOUNT);
    v.scroll_down(25, 0);
    assert_eq!(v.scroll, 20);
    v.scroll_down(25, 0);
    assert_eq!(v.scroll, 20);
    v.scroll_up();
    v.scroll_up();
    v.scroll_up();
    assert_eq!(v.scroll, 0);
    v.set_mode(AppMode::Match);
    v.scroll_down(100, 5);
    assert_eq!(v.scroll, 0);
    v.set_mode(AppMode::Databases);
    v.scroll_down(100, 100);
    assert_eq!(v.scroll, 0);
    v.scroll = 65530;
    v.set_mode(AppMode::Define);
    assert_eq!(v.scroll, 0);
}
