//! Connection targets: `dict://host[:port]/[d:word[:db[:n]]|m:word[:db[:strategy[:n]]]]`.

use crate::entities::{Database, NamedView, Strategy};
use crate::text::{chars_of, decimal_value, digit_value, is_digit, split_from, split_on, string_seqs};
use vstd::prelude::*;

verus! {

#[verifier::external_type_specification]
#[verifier::external_body]
pub struct ExUrlParseError(url::ParseError);

/// The port of a target that names none.
pub const DEFAULT_PORT: u16 = 2628;

/// Why a target could not be read.
#[derive(Debug)]
pub enum DICTUrlError {
    /// The text is not a URL.
    ParseError(url::ParseError),
    /// The path names an access other than `d` and `m`.
    UnknownAccess(String),
    /// `d` or `m` without a word.
    MissingParameters,
    /// The URL has no host.
    MissingHost,
    /// The URL holds credentials.
    Unsupported(&'static str),
}

impl From<url::ParseError> for DICTUrlError {
    fn from(e: url::ParseError) -> (r: DICTUrlError)
        ensures
            r == DICTUrlError::ParseError(e),
    {
        DICTUrlError::ParseError(e)
    }
}

impl vstd::std_specs::convert::FromSpecImpl<url::ParseError> for DICTUrlError {
    open spec fn obeys_from_spec() -> bool {
        true
    }

    open spec fn from_spec(e: url::ParseError) -> DICTUrlError {
        DICTUrlError::ParseError(e)
    }
}

/// What to do once connected.
#[derive(Debug)]
pub enum DICTUrlAccess {
    AccessOnly,
    Define(String, Database, Option<usize>),
    Match(String, Database, Strategy, Option<usize>),
}

/// A connection target.
#[derive(Debug)]
pub struct DICTUrl {
    pub host: String,
    pub port: u16,
    pub access_method: DICTUrlAccess,
}

pub enum AccessView {
    AccessOnly,
    Define(Seq<char>, NamedView, Option<usize>),
    Match(Seq<char>, NamedView, NamedView, Option<usize>),
}

pub enum UrlErrorView {
    ParseError,
    UnknownAccess(Seq<char>),
    MissingParameters,
    MissingHost,
    Unsupported(Seq<char>),
}

pub struct UrlView {
    pub host: Seq<char>,
    pub port: u16,
    pub access: AccessView,
}

impl View for DICTUrlAccess {
    type V = AccessView;

    open spec fn view(&self) -> AccessView {
        match self {
            DICTUrlAccess::AccessOnly => AccessView::AccessOnly,
            DICTUrlAccess::Define(w, d, n) => AccessView::Define(w@, d@, *n),
            DICTUrlAccess::Match(w, d, s, n) => AccessView::Match(w@, d@, s@, *n),
        }
    }
}

impl View for DICTUrlError {
    type V = UrlErrorView;

    open spec fn view(&self) -> UrlErrorView {
        match self {
            DICTUrlError::ParseError(_) => UrlErrorView::ParseError,
            DICTUrlError::UnknownAccess(s) => UrlErrorView::UnknownAccess(s@),
            DICTUrlError::MissingParameters => UrlErrorView::MissingParameters,
            DICTUrlError::MissingHost => UrlErrorView::MissingHost,
            DICTUrlError::Unsupported(m) => UrlErrorView::Unsupported(m@),
        }
    }
}

impl View for DICTUrl {
    type V = UrlView;

    open spec fn view(&self) -> UrlView {
        UrlView { host: self.host@, port: self.port, access: self.access_method@ }
    }
}

/// The parts of a parsed URL that a target is made of.
pub struct UrlParts {
    pub username: String,
    pub password: Option<String>,
    pub host: Option<String>,
    pub port: Option<u16>,
    pub path: String,
}

pub struct UrlPartsView {
    pub username: Seq<char>,
    pub password: Option<Seq<char>>,
    pub host: Option<Seq<char>>,
    pub port: Option<u16>,
    pub path: Seq<char>,
}

impl View for UrlParts {
    type V = UrlPartsView;

    open spec fn view(&self) -> UrlPartsView {
        UrlPartsView {
            username: self.username@,
            password: match self.password {
                Some(p) => Some(p@),
                None => None,
            },
            host: match self.host {
                Some(h) => Some(h@),
                None => None,
            },
            port: self.port,
            path: self.path@,
        }
    }
}

/// What `url::Url::parse` makes of a text, read through `username`,
/// `password`, `host_str`, `port` and `path`; `None` where it fails.
pub uninterp spec fn parsed_url(s: Seq<char>) -> Option<UrlPartsView>;

/// Relies on `url::Url::parse` to read a URL, and on its accessors
/// `username`, `password`, `host_str`, `port` and `path` for the parts.
#[verifier::external_body]
fn split_url(src: &str) -> (r: Result<UrlParts, url::ParseError>)
    ensures
        match parsed_url(src@) {
            None => r is Err,
            Some(p) => r is Ok && r->Ok_0@ == p,
        },
{
    let u = url::Url::parse(src)?;
    Ok(
        UrlParts {
            username: u.username().to_string(),
            password: u.password().map(String::from),
            host: u.host_str().map(String::from),
            port: u.port(),
            path: u.path().to_string(),
        },
    )
}

/// The value of a numeric hint, as `str::parse::<usize>` reads it (an
/// optional `+`, then decimal digits); 0 where that fails.
pub open spec fn hint_value(s: Seq<char>) -> usize {
    let d = hint_digits(s);
    if d.len() > 0 && all_digits(d) && decimal_value(d) <= usize::MAX {
        decimal_value(d) as usize
    } else {
        0
    }
}

/// A hint without its optional leading `+`.
pub open spec fn hint_digits(s: Seq<char>) -> Seq<char> {
    if s.len() > 0 && s[0] == '+' {
        s.drop_first()
    } else {
        s
    }
}

pub open spec fn all_digits(d: Seq<char>) -> bool {
    forall|i: int| 0 <= i < d.len() ==> is_digit(#[trigger] d[i])
}

proof fn lemma_decimal_grows(d: Seq<char>, j: int)
    requires
        0 <= j <= d.len(),
    ensures
        decimal_value(d.take(j)) <= decimal_value(d),
    decreases d.len() - j,
{
    if j < d.len() {
        lemma_decimal_grows(d, j + 1);
        assert(d.take(j + 1).drop_last() == d.take(j));
    } else {
        assert(d.take(j) == d);
    }
}

/// The numeric hint written in `s`.
pub fn parse_hint(s: &String) -> (n: usize)
    ensures
        n == hint_value(s@),
{
    let v = chars_of(s.as_str());
    assert(v@ == s@);
    let lo: usize = if v.len() > 0 && v[0] == '+' {
        1
    } else {
        0
    };
    let ghost d = v@.subrange(lo as int, v@.len() as int);
    assert(d == hint_digits(s@));
    if lo == v.len() {
        return 0;
    }
    let mut acc: usize = 0;
    let mut i: usize = lo;
    while i < v.len()
        invariant
            lo <= i <= v@.len(),
            d == v@.subrange(lo as int, v@.len() as int),
            d == hint_digits(s@),
            d.len() > 0,
            forall|k: int| 0 <= k < i - lo ==> is_digit(#[trigger] d[k]),
            acc as nat == decimal_value(d.take(i - lo)),
        decreases v.len() - i,
    {
        let c = v[i];
        assert(d[i - lo] == c);
        if !('0' <= c && c <= '9') {
            assert(!is_digit(d[i - lo]));
            assert(!all_digits(d));
            return 0;
        }
        assert(d.take(i + 1 - lo).drop_last() == d.take(i - lo));
        assert(d.take(i + 1 - lo).last() == c);
        assert(decimal_value(d.take(i + 1 - lo)) == decimal_value(d.take(i - lo)) * 10 + digit_value(c));
        let digit = ((c as u32) - ('0' as u32)) as usize;
        let next = match acc.checked_mul(10) {
            Some(m) => m.checked_add(digit),
            None => None,
        };
        match next {
            Some(x) => {
                acc = x;
            },
            None => {
                proof {
                    lemma_decimal_grows(d, i + 1 - lo);
                    assert(decimal_value(d.take(i + 1 - lo)) > usize::MAX);
                }
                return 0;
            },
        }
        i += 1;
    }
    assert(d.take(v@.len() - lo) == d);
    acc
}

/// The database that `d:` and `m:` use when none is named.
pub open spec fn default_database() -> NamedView {
    NamedView { name: "!"@, desc: "All databases (first match)"@ }
}

/// The strategy that `m:` uses when none is named.
pub open spec fn default_strategy() -> NamedView {
    NamedView { name: "."@, desc: "Server default"@ }
}

/// The piece `i` of `parts` where it is there and not empty.
pub open spec fn given(parts: Seq<Seq<char>>, i: int) -> Option<Seq<char>> {
    if i < parts.len() && parts[i].len() > 0 {
        Some(parts[i])
    } else {
        None
    }
}

pub open spec fn database_or_default(p: Option<Seq<char>>) -> NamedView {
    match p {
        Some(n) => NamedView { name: n, desc: seq![] },
        None => default_database(),
    }
}

pub open spec fn strategy_or_default(p: Option<Seq<char>>) -> NamedView {
    match p {
        Some(n) => NamedView { name: n, desc: seq![] },
        None => default_strategy(),
    }
}

pub open spec fn hint_at(parts: Seq<Seq<char>>, i: int) -> Option<usize> {
    if i < parts.len() {
        Some(hint_value(parts[i]))
    } else {
        None
    }
}

/// The access that the path of a target asks for. A path that does not
/// start with `/`, or whose first `:`-separated piece is empty, asks only
/// for a connection.
pub open spec fn access_of(path: Seq<char>) -> Result<AccessView, UrlErrorView> {
    if path.len() == 0 || path[0] != '/' {
        Ok(AccessView::AccessOnly)
    } else {
        let parts = split_on(path.drop_first(), ':');
        if parts[0].len() == 0 {
            Ok(AccessView::AccessOnly)
        } else if parts[0] == seq!['d'] {
            match given(parts, 1) {
                None => Err(UrlErrorView::MissingParameters),
                Some(w) => Ok(
                    AccessView::Define(w, database_or_default(given(parts, 2)), hint_at(parts, 3)),
                ),
            }
        } else if parts[0] == seq!['m'] {
            match given(parts, 1) {
                None => Err(UrlErrorView::MissingParameters),
                Some(w) => Ok(
                    AccessView::Match(
                        w,
                        database_or_default(given(parts, 2)),
                        strategy_or_default(given(parts, 3)),
                        hint_at(parts, 4),
                    ),
                ),
            }
        } else {
            Err(UrlErrorView::UnknownAccess(parts[0]))
        }
    }
}

/// The view of a parsed access.
pub open spec fn access_result_view(r: Result<DICTUrlAccess, DICTUrlError>) -> Result<
    AccessView,
    UrlErrorView,
> {
    match r {
        Ok(a) => Ok(a@),
        Err(e) => Err(e@),
    }
}

/// The view of a parsed target.
pub open spec fn url_result_view(r: Result<DICTUrl, DICTUrlError>) -> Result<UrlView, UrlErrorView> {
    match r {
        Ok(u) => Ok(u@),
        Err(e) => Err(e@),
    }
}

/// The target that the parts of a URL make: no credentials (neither a user
/// name nor a password), a host, the
/// port or 2628, and the access of the path.
pub open spec fn url_of_parts(p: UrlPartsView) -> Result<UrlView, UrlErrorView> {
    if p.username.len() > 0 || p.password is Some {
        Err(UrlErrorView::Unsupported("Auth part is not supported"@))
    } else {
        match p.host {
            None => Err(UrlErrorView::MissingHost),
            Some(h) => match access_of(p.path) {
                Err(e) => Err(e),
                Ok(a) => Ok(
                    UrlView {
                        host: h,
                        port: match p.port {
                            Some(n) => n,
                            None => DEFAULT_PORT,
                        },
                        access: a,
                    },
                ),
            },
        }
    }
}

/// True when `s` is the single character `c`.
fn is_single(s: &String, c: char) -> (b: bool)
    ensures
        b == (s@ == seq![c]),
{
    let t = s.as_str();
    if t.unicode_len() != 1 {
        return false;
    }
    let b = t.get_char(0) == c;
    proof {
        if !b {
            assert(s@[0] != seq![c][0]);
        } else {
            assert(s@ =~= seq![c]);
        }
    }
    b
}

/// The piece `i` of `parts` where it is there and not empty.
fn given_at(parts: &Vec<String>, i: usize) -> (r: Option<String>)
    ensures
        match given(string_seqs(parts@), i as int) {
            Some(p) => r is Some && r->0@ == p,
            None => r is None,
        },
{
    if i < parts.len() && !parts[i].as_str().is_empty() {
        Some(parts[i].clone())
    } else {
        None
    }
}

fn hint_of(parts: &Vec<String>, i: usize) -> (r: Option<usize>)
    ensures
        r == hint_at(string_seqs(parts@), i as int),
{
    if i < parts.len() {
        Some(parse_hint(&parts[i]))
    } else {
        None
    }
}

fn database_of(p: Option<String>) -> (d: Database)
    ensures
        d@ == database_or_default(
            match p {
                Some(s) => Some(s@),
                None => None,
            },
        ),
{
    match p {
        Some(name) => Database::named(name),
        None => Database::first(),
    }
}

fn strategy_of(p: Option<String>) -> (s: Strategy)
    ensures
        s@ == strategy_or_default(
            match p {
                Some(s) => Some(s@),
                None => None,
            },
        ),
{
    match p {
        Some(name) => Strategy::named(name),
        None => Strategy::server_default(),
    }
}

impl DICTUrlAccess {
    /// Reads the access that the path of a target asks for.
    pub fn from_path(s: &str) -> (r: Result<DICTUrlAccess, DICTUrlError>)
        ensures
            access_result_view(r) == access_of(s@),
    {
        let v = chars_of(s);
        if v.len() == 0 || v[0] != '/' {
            return Ok(DICTUrlAccess::AccessOnly);
        }
        let parts = split_from(&v, 1, ':');
        assert(v@.subrange(1, v@.len() as int) == v@.drop_first());
        let ghost ps = string_seqs(parts@);
        assert(ps.len() >= 1);
        assert(ps[0] == parts@[0]@);
        if parts[0].as_str().is_empty() {
            return Ok(DICTUrlAccess::AccessOnly);
        }
        if is_single(&parts[0], 'd') {
            match given_at(&parts, 1) {
                None => Err(DICTUrlError::MissingParameters),
                Some(word) => {
                    let db = database_of(given_at(&parts, 2));
                    Ok(DICTUrlAccess::Define(word, db, hint_of(&parts, 3)))
                },
            }
        } else if is_single(&parts[0], 'm') {
            match given_at(&parts, 1) {
                None => Err(DICTUrlError::MissingParameters),
                Some(word) => {
                    let db = database_of(given_at(&parts, 2));
                    let strat = strategy_of(given_at(&parts, 3));
                    Ok(DICTUrlAccess::Match(word, db, strat, hint_of(&parts, 4)))
                },
            }
        } else {
            Err(DICTUrlError::UnknownAccess(parts[0].clone()))
        }
    }
}

impl std::str::FromStr for DICTUrlAccess {
    type Err = DICTUrlError;

    fn from_str(s: &str) -> (r: Result<DICTUrlAccess, DICTUrlError>)
        ensures
            access_result_view(r) == access_of(s@),
    {
        DICTUrlAccess::from_path(s)
    }
}

impl DICTUrl {
    /// Reads a connection target.
    pub fn new(src: &str) -> (r: Result<DICTUrl, DICTUrlError>)
        ensures
            match parsed_url(src@) {
                None => r is Err && r->Err_0 is ParseError,
                Some(p) => url_result_view(r) == url_of_parts(p),
            },
    {
        match split_url(src) {
            Err(e) => Err(DICTUrlError::ParseError(e)),
            Ok(parts) => DICTUrl::from_parts(parts),
        }
    }

    /// The target that the parts of a parsed URL make.
    pub fn from_parts(parts: UrlParts) -> (r: Result<DICTUrl, DICTUrlError>)
        ensures
            url_result_view(r) == url_of_parts(parts@),
    {
        if !parts.username.as_str().is_empty() || parts.password.is_some() {
            return Err(DICTUrlError::Unsupported("Auth part is not supported"));
        }
        let host = match parts.host {
            None => {
                return Err(DICTUrlError::MissingHost);
            },
            Some(h) => h,
        };
        let port = match parts.port {
            Some(n) => n,
            None => DEFAULT_PORT,
        };
        let access_method = DICTUrlAccess::from_path(parts.path.as_str())?;
        Ok(DICTUrl { host, port, access_method })
    }
}

} // verus!
