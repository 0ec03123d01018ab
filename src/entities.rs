//! The values that replies carry: databases, strategies, definitions and
//! matches, with the well-known sentinel databases and strategies.

use vstd::prelude::*;

verus! {

/// A dictionary database of the server.
#[derive(Debug, Clone)]
pub struct Database {
    pub name: String,
    pub desc: String,
}

/// A matching strategy of the server.
#[derive(Debug, Clone)]
pub struct Strategy {
    pub name: String,
    pub desc: String,
}

/// One definition of a word, with the database it comes from.
#[derive(Debug, Clone)]
pub struct Definition {
    pub source: Database,
    pub text: Vec<String>,
}

/// One entry of a match list: a word and the database that holds it.
#[derive(Debug, Clone)]
pub struct Match {
    pub source: Database,
    pub word: String,
}

/// A name and a description, as plain text.
pub struct NamedView {
    pub name: Seq<char>,
    pub desc: Seq<char>,
}

pub struct DefinitionView {
    pub source: NamedView,
    pub text: Seq<Seq<char>>,
}

pub struct MatchView {
    pub source: NamedView,
    pub word: Seq<char>,
}

impl View for Database {
    type V = NamedView;

    open spec fn view(&self) -> NamedView {
        NamedView { name: self.name@, desc: self.desc@ }
    }
}

impl View for Strategy {
    type V = NamedView;

    open spec fn view(&self) -> NamedView {
        NamedView { name: self.name@, desc: self.desc@ }
    }
}

impl View for Definition {
    type V = DefinitionView;

    open spec fn view(&self) -> DefinitionView {
        DefinitionView { source: self.source@, text: self.text@.map_values(|l: String| l@) }
    }
}

impl View for Match {
    type V = MatchView;

    open spec fn view(&self) -> MatchView {
        MatchView { source: self.source@, word: self.word@ }
    }
}

/// The views of a sequence of values.
pub open spec fn views<T: View>(s: Seq<T>) -> Seq<T::V> {
    s.map_values(|x: T| x@)
}

impl Database {
    /// The database that stands for all databases (`*`).
    pub fn all() -> (r: Database)
        ensures
            r.name@ == "*"@,
            r.desc@ == "All databases"@,
    {
        Database { name: String::from_str("*"), desc: String::from_str("All databases") }
    }

    /// The database that stands for the first database with a match (`!`).
    pub fn first() -> (r: Database)
        ensures
            r.name@ == "!"@,
            r.desc@ == "All databases (first match)"@,
    {
        Database {
            name: String::from_str("!"),
            desc: String::from_str("All databases (first match)"),
        }
    }

    /// A database known by its name alone.
    pub fn named(name: String) -> (r: Database)
        ensures
            r.name@ == name@,
            r.desc@ == Seq::<char>::empty(),
    {
        Database { name, desc: String::new() }
    }
}

impl Default for Database {
    fn default() -> (r: Database)
        ensures
            r.name@ == "!"@,
            r.desc@ == "All databases (first match)"@,
    {
        Database::first()
    }
}

impl Strategy {
    /// A strategy known by its name alone.
    pub fn named(name: String) -> (r: Strategy)
        ensures
            r.name@ == name@,
            r.desc@ == Seq::<char>::empty(),
    {
        Strategy { name, desc: String::new() }
    }

    /// The `exact` strategy.
    pub fn exact() -> (r: Strategy)
        ensures
            r.name@ == "exact"@,
            r.desc@ == Seq::<char>::empty(),
    {
        Strategy::named(String::from_str("exact"))
    }

    /// The `prefix` strategy.
    pub fn prefix() -> (r: Strategy)
        ensures
            r.name@ == "prefix"@,
            r.desc@ == Seq::<char>::empty(),
    {
        Strategy::named(String::from_str("prefix"))
    }

    /// The server's default strategy (`.`).
    pub fn server_default() -> (r: Strategy)
        ensures
            r.name@ == "."@,
            r.desc@ == "Server default"@,
    {
        Strategy { name: String::from_str("."), desc: String::from_str("Server default") }
    }
}

impl Default for Strategy {
    fn default() -> (r: Strategy)
        ensures
            r.name@ == "."@,
            r.desc@ == "Server default"@,
    {
        Strategy::server_default()
    }
}

impl Definition {
    /// The placeholder shown before any definition was asked for.
    pub fn empty() -> (r: Definition)
        ensures
            r.source.name@ == "*"@,
            r.source.desc@ == "All databases"@,
            r.text@.len() == 1,
            r.text@[0]@ == "No definition"@,
    {
        Definition { source: Database::all(), text: vec![String::from_str("No definition")] }
    }
}

} // verus!
