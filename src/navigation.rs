//! The state of the browser around the protocol: which view is shown, and
//! the history of searches.

use vstd::prelude::*;

verus! {

/// The views of the browser, in the order in which tabbing visits them.
#[derive(Debug, Clone, Copy, PartialEq, Eq, Structural)]
pub enum AppMode {
    Define,
    Match,
    Strategies,
    Databases,
}

impl AppMode {
    /// The position of the view in the tab order.
    pub open spec fn spec_index(self) -> usize {
        match self {
            AppMode::Define => 0,
            AppMode::Match => 1,
            AppMode::Strategies => 2,
            AppMode::Databases => 3,
        }
    }

    /// The view at a position of the tab order.
    pub open spec fn at(i: usize) -> AppMode {
        if i == 0 {
            AppMode::Define
        } else if i == 1 {
            AppMode::Match
        } else if i == 2 {
            AppMode::Strategies
        } else {
            AppMode::Databases
        }
    }

    /// The title of the view.
    pub fn text(&self) -> (r: &'static str)
        ensures
            r@ == match self {
                AppMode::Define => "Define"@,
                AppMode::Match => "Match"@,
                AppMode::Strategies => "Strategies"@,
                AppMode::Databases => "Databases"@,
            },
    {
        match self {
            AppMode::Define => "Define",
            AppMode::Match => "Match",
            AppMode::Strategies => "Strategies",
            AppMode::Databases => "Databases",
        }
    }

    /// The next view, wrapping around.
    pub fn next(&self) -> (r: AppMode)
        ensures
            r == AppMode::at(((self.spec_index() + 1) % 4) as usize),
    {
        match self {
            AppMode::Define => AppMode::Match,
            AppMode::Match => AppMode::Strategies,
            AppMode::Strategies => AppMode::Databases,
            AppMode::Databases => AppMode::Define,
        }
    }

    /// The previous view, wrapping around.
    pub fn previous(&self) -> (r: AppMode)
        ensures
            r == AppMode::at(((self.spec_index() + 3) % 4) as usize),
    {
        match self {
            AppMode::Define => AppMode::Databases,
            AppMode::Match => AppMode::Define,
            AppMode::Strategies => AppMode::Match,
            AppMode::Databases => AppMode::Strategies,
        }
    }

    /// All the views, in tab order.
    pub fn values() -> (r: Vec<AppMode>)
        ensures
            r@ == seq![AppMode::Define, AppMode::Match, AppMode::Strategies, AppMode::Databases],
    {
        vec![AppMode::Define, AppMode::Match, AppMode::Strategies, AppMode::Databases]
    }

    /// The position of the view in the tab order.
    pub fn index(&self) -> (r: usize)
        ensures
            r == self.spec_index(),
    {
        match self {
            AppMode::Define => 0,
            AppMode::Match => 1,
            AppMode::Strategies => 2,
            AppMode::Databases => 3,
        }
    }
}

/// How far one scroll step moves, in lines.
pub const SCROLL_AMOUNT: u16 = 10;

/// What the browser shows: the view, the selected definition and how far
/// the results are scrolled.
#[derive(Debug, Clone, Copy, PartialEq, Eq, Structural)]
pub struct ViewState {
    pub mode: AppMode,
    pub selected_def: usize,
    pub scroll: u16,
}

impl ViewState {
    /// The definitions view, at the top of the first definition.
    pub fn new() -> (v: ViewState)
        ensures
            v == (ViewState { mode: AppMode::Define, selected_def: 0, scroll: 0 }),
    {
        ViewState { mode: AppMode::Define, selected_def: 0, scroll: 0 }
    }

    /// Selects the next of `count` definitions, wrapping around, at its top.
    pub fn next_definition(&mut self, count: usize)
        requires
            old(self).selected_def < count,
        ensures
            final(self).mode == old(self).mode,
            final(self).selected_def == (old(self).selected_def + 1) % (count as int),
            final(self).scroll == 0,
    {
        self.selected_def = (self.selected_def + 1) % count;
        self.scroll = 0;
    }

    /// Selects the previous of `count` definitions, wrapping around, at its
    /// top.
    pub fn previous_definition(&mut self, count: usize)
        requires
            old(self).selected_def < count,
        ensures
            final(self).mode == old(self).mode,
            final(self).selected_def == if old(self).selected_def > 0 {
                old(self).selected_def - 1
            } else {
                count - 1
            },
            final(self).scroll == 0,
    {
        if self.selected_def > 0 {
            self.selected_def = self.selected_def - 1;
        } else {
            self.selected_def = count - 1;
        }
        self.scroll = 0;
    }

    /// The number of lines that the current view can scroll over: the lines
    /// of the selected definition, the matches, or none.
    pub open spec fn spec_scroll_limit(self, definition_lines: usize, match_count: usize) -> usize {
        match self.mode {
            AppMode::Define => definition_lines,
            AppMode::Match => match_count,
            _ => 0,
        }
    }

    /// Scrolls one step down, while that stays within the lines of the
    /// current view.
    pub fn scroll_down(&mut self, definition_lines: usize, match_count: usize)
        ensures
            final(self).mode == old(self).mode,
            final(self).selected_def == old(self).selected_def,
            final(self).scroll == if old(self).scroll + SCROLL_AMOUNT < old(self).spec_scroll_limit(
                definition_lines,
                match_count,
            ) && old(self).scroll + SCROLL_AMOUNT <= u16::MAX {
                (old(self).scroll + SCROLL_AMOUNT) as u16
            } else {
                old(self).scroll
            },
    {
        let limit = match self.mode {
            AppMode::Define => definition_lines,
            AppMode::Match => match_count,
            _ => 0,
        };
        if (self.scroll as usize) + (SCROLL_AMOUNT as usize) < limit && self.scroll <= u16::MAX
            - SCROLL_AMOUNT {
            self.scroll = self.scroll + SCROLL_AMOUNT;
        }
    }

    /// Scrolls one step up, unless that goes above the top.
    pub fn scroll_up(&mut self)
        ensures
            final(self).mode == old(self).mode,
            final(self).selected_def == old(self).selected_def,
            final(self).scroll == if old(self).scroll >= SCROLL_AMOUNT {
                (old(self).scroll - SCROLL_AMOUNT) as u16
            } else {
                old(self).scroll
            },
    {
        if self.scroll >= SCROLL_AMOUNT {
            self.scroll = self.scroll - SCROLL_AMOUNT;
        }
    }

    /// Shows another view, at its top.
    pub fn set_mode(&mut self, mode: AppMode)
        ensures
            final(self).mode == mode,
            final(self).selected_def == old(self).selected_def,
            final(self).scroll == 0,
    {
        self.mode = mode;
        self.scroll = 0;
    }

    /// Back to the top of the first definition, as after a new search.
    pub fn reset_selection(&mut self)
        ensures
            final(self).mode == old(self).mode,
            final(self).selected_def == 0,
            final(self).scroll == 0,
    {
        self.selected_def = 0;
        self.scroll = 0;
    }
}

/// A move in the history.
#[derive(Debug, Clone, Copy, PartialEq, Eq, Structural)]
pub enum HistoryMovement {
    First,
    Last,
    Previous,
    Next,
}

/// Past searches and the one currently shown.
#[derive(Debug)]
pub struct History {
    current: usize,
    items: Vec<String>,
}

pub struct HistoryView {
    pub current: usize,
    pub items: Seq<Seq<char>>,
}

impl View for History {
    type V = HistoryView;

    closed spec fn view(&self) -> HistoryView {
        HistoryView { current: self.current, items: self.items@.map_values(|s: String| s@) }
    }
}

impl HistoryView {
    /// The position points at an entry, or is 0 in an empty history.
    pub open spec fn wf(self) -> bool {
        if self.items.len() == 0 {
            self.current == 0
        } else {
            self.current < self.items.len()
        }
    }
}

impl History {
    #[verifier::type_invariant]
    spec fn inv(self) -> bool {
        if self.items@.len() == 0 {
            self.current == 0
        } else {
            self.current < self.items@.len()
        }
    }

    pub fn new() -> (h: History)
        ensures
            h@.wf(),
            h@.items.len() == 0,
    {
        let h = History { current: 0, items: Vec::new() };
        assert(h@.items.len() == 0);
        h
    }

    /// Drops the entries after the current one and appends `item`, which
    /// becomes current.
    pub fn push(&mut self, item: String)
        ensures
            final(self)@.wf(),
            final(self)@.items == (if old(self)@.items.len() == 0 {
                seq![item@]
            } else {
                old(self)@.items.take(old(self)@.current + 1).push(item@)
            }),
            final(self)@.current == final(self)@.items.len() - 1,
    {
        proof {
            use_type_invariant(&*self);
        }
        let ghost old_items = self.items@;
        let mut taken = History { current: 0, items: Vec::new() };
        core::mem::swap(self, &mut taken);
        let History { current, mut items } = taken;
        if items.len() > 0 {
            items.truncate(current + 1);
        }
        let ghost kept = items@;
        let at = items.len();
        items.push(item);
        assert(items@.map_values(|s: String| s@) == kept.map_values(|s: String| s@).push(item@));
        proof {
            if old_items.len() > 0 {
                assert(kept.map_values(|s: String| s@) == old_items.map_values(|s: String| s@).take(
                    at as int,
                ));
            } else {
                assert(kept.map_values(|s: String| s@) == Seq::<Seq<char>>::empty());
            }
        }
        *self = History { current: at, items };
    }

    /// Moves to the first or the last entry, or one step back or forth
    /// within the entries.
    pub fn goto(&mut self, m: HistoryMovement)
        requires
            m == HistoryMovement::Last ==> old(self)@.items.len() > 0,
        ensures
            final(self)@.wf(),
            final(self)@.items == old(self)@.items,
            final(self)@.current == match m {
                HistoryMovement::First => 0,
                HistoryMovement::Last => (old(self)@.items.len() - 1) as usize,
                HistoryMovement::Next => if old(self)@.current + 1 < old(self)@.items.len() {
                    (old(self)@.current + 1) as usize
                } else {
                    old(self)@.current
                },
                HistoryMovement::Previous => if old(self)@.current > 0 {
                    (old(self)@.current - 1) as usize
                } else {
                    old(self)@.current
                },
            },
    {
        proof {
            use_type_invariant(&*self);
        }
        match m {
            HistoryMovement::First => {
                self.current = 0;
            },
            HistoryMovement::Last => {
                self.current = self.items.len() - 1;
            },
            HistoryMovement::Next => {
                if self.items.len() > 0 && self.current < self.items.len() - 1 {
                    self.current += 1;
                }
            },
            HistoryMovement::Previous => {
                if self.current > 0 {
                    self.current -= 1;
                }
            },
        }
    }

    /// The current entry, if the history has any.
    pub fn current(&self) -> (r: Option<&String>)
        ensures
            self@.wf(),
            self@.items.len() == 0 ==> r is None,
            self@.items.len() > 0 ==> r is Some && r->0@ == self@.items[self@.current as int],
    {
        proof {
            use_type_invariant(self);
        }
        if self.current < self.items.len() {
            Some(&self.items[self.current])
        } else {
            None
        }
    }
}

} // verus!
