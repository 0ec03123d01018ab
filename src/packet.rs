//! The packet decoder: turns the lines that the server sends into typed
//! packets. It is fed one line at a time and says after each line whether a
//! packet is complete; a reply that announces a text block keeps it reading
//! up to the line that holds a single dot.

use crate::entities::{
    Database, Definition, DefinitionView, Match, MatchView, NamedView, Strategy, views,
};
use crate::reply::{ParseReplyError, Reply, ReplyView, reply_of_line};
use crate::status::{Category, ReplyKind, Status};
use crate::text::{chars_of, string_of_range, string_seqs};
use crate::tokenizer::{parse_cmd_argument, tokenize};
use vstd::prelude::*;

verus! {

#[verifier::external_type_specification]
#[verifier::external_body]
pub struct ExIoError(std::io::Error);

/// What a packet holds besides its reply.
#[derive(Debug)]
pub enum DICTPacketKind {
    ReplyOnly,
    OkReply,
    InitialConnection,
    DefinitionsFollow,
    Definition(Definition),
    Matches(Vec<Match>),
    Databases(Vec<Database>),
    Strategies(Vec<Strategy>),
}

/// A decoded packet and the reply it came with.
#[derive(Debug)]
pub struct DICTPacket(pub DICTPacketKind, pub Reply);

/// What can go wrong while talking to the server.
#[derive(Debug)]
pub enum DICTError {
    /// A line could not be read as a reply.
    ReplyError(ParseReplyError),
    /// The server answered with a negative status.
    SystemError(Reply),
    /// A packet that the command did not expect at that point.
    UnexpectedPacket(DICTPacket),
    /// The server sent nothing where a reply was due.
    NoAnswer,
    /// The transport failed.
    ReadWriteError(std::io::Error),
    /// A reply lacked the fields that its status calls for.
    MalformedAnswer(&'static str),
}

impl From<ParseReplyError> for DICTError {
    fn from(e: ParseReplyError) -> (r: DICTError)
        ensures
            r == DICTError::ReplyError(e),
    {
        DICTError::ReplyError(e)
    }
}

impl vstd::std_specs::convert::FromSpecImpl<ParseReplyError> for DICTError {
    open spec fn obeys_from_spec() -> bool {
        true
    }

    open spec fn from_spec(e: ParseReplyError) -> DICTError {
        DICTError::ReplyError(e)
    }
}

impl From<std::io::Error> for DICTError {
    fn from(e: std::io::Error) -> (r: DICTError)
        ensures
            r == DICTError::ReadWriteError(e),
    {
        DICTError::ReadWriteError(e)
    }
}

impl vstd::std_specs::convert::FromSpecImpl<std::io::Error> for DICTError {
    open spec fn obeys_from_spec() -> bool {
        true
    }

    open spec fn from_spec(e: std::io::Error) -> DICTError {
        DICTError::ReadWriteError(e)
    }
}

pub enum PacketKindView {
    ReplyOnly,
    OkReply,
    InitialConnection,
    DefinitionsFollow,
    Definition(DefinitionView),
    Matches(Seq<MatchView>),
    Databases(Seq<NamedView>),
    Strategies(Seq<NamedView>),
}

pub struct PacketView {
    pub kind: PacketKindView,
    pub reply: ReplyView,
}

pub enum ErrorView {
    ReplyError(ParseReplyError),
    SystemError(ReplyView),
    UnexpectedPacket(PacketView),
    NoAnswer,
    ReadWriteError,
    MalformedAnswer(Seq<char>),
}

impl View for DICTPacketKind {
    type V = PacketKindView;

    open spec fn view(&self) -> PacketKindView {
        match self {
            DICTPacketKind::ReplyOnly => PacketKindView::ReplyOnly,
            DICTPacketKind::OkReply => PacketKindView::OkReply,
            DICTPacketKind::InitialConnection => PacketKindView::InitialConnection,
            DICTPacketKind::DefinitionsFollow => PacketKindView::DefinitionsFollow,
            DICTPacketKind::Definition(d) => PacketKindView::Definition(d@),
            DICTPacketKind::Matches(v) => PacketKindView::Matches(views(v@)),
            DICTPacketKind::Databases(v) => PacketKindView::Databases(views(v@)),
            DICTPacketKind::Strategies(v) => PacketKindView::Strategies(views(v@)),
        }
    }
}

impl View for DICTPacket {
    type V = PacketView;

    open spec fn view(&self) -> PacketView {
        PacketView { kind: self.0@, reply: self.1@ }
    }
}

impl View for DICTError {
    type V = ErrorView;

    open spec fn view(&self) -> ErrorView {
        match self {
            DICTError::ReplyError(e) => ErrorView::ReplyError(*e),
            DICTError::SystemError(r) => ErrorView::SystemError(r@),
            DICTError::UnexpectedPacket(p) => ErrorView::UnexpectedPacket(p@),
            DICTError::NoAnswer => ErrorView::NoAnswer,
            DICTError::ReadWriteError(_) => ErrorView::ReadWriteError,
            DICTError::MalformedAnswer(m) => ErrorView::MalformedAnswer(m@),
        }
    }
}

/// The view of a packet or an error.
pub open spec fn outcome_view(r: Result<DICTPacket, DICTError>) -> Result<PacketView, ErrorView> {
    match r {
        Ok(p) => Ok(p@),
        Err(e) => Err(e@),
    }
}

/// The text block that a packet waits for, and what it becomes.
#[derive(Debug)]
pub enum BlockKind {
    /// The body of one definition, from the database named in the reply, or
    /// the reason why the reply named none.
    Definition(Result<Database, &'static str>),
    Matches,
    Databases,
    Strategies,
}

pub enum BlockKindView {
    Definition(Result<NamedView, Seq<char>>),
    Matches,
    Databases,
    Strategies,
}

impl View for BlockKind {
    type V = BlockKindView;

    open spec fn view(&self) -> BlockKindView {
        match self {
            BlockKind::Definition(Ok(db)) => BlockKindView::Definition(Ok(db@)),
            BlockKind::Definition(Err(m)) => BlockKindView::Definition(Err(m@)),
            BlockKind::Matches => BlockKindView::Matches,
            BlockKind::Databases => BlockKindView::Databases,
            BlockKind::Strategies => BlockKindView::Strategies,
        }
    }
}

/// A reply whose text block is being read, with the block's lines so far.
#[derive(Debug)]
pub struct PendingBlock {
    pub reply: Reply,
    pub kind: BlockKind,
    pub lines: Vec<String>,
}

pub struct PendingView {
    pub reply: ReplyView,
    pub kind: BlockKindView,
    pub lines: Seq<Seq<char>>,
}

impl View for PendingBlock {
    type V = PendingView;

    open spec fn view(&self) -> PendingView {
        PendingView { reply: self.reply@, kind: self.kind@, lines: string_seqs(self.lines@) }
    }
}

/// What a reply calls for: a packet at once, or a text block first.
pub enum Dispatch {
    Emit(Result<PacketView, ErrorView>),
    Block(BlockKindView),
}

pub open spec fn status_is(r: ReplyView, k: ReplyKind, c: Category, n: u8) -> bool {
    r.status == Status(k, c, n)
}

/// The database that a definition reply (151) names: the second and third
/// fields of its text.
pub open spec fn definition_source(text: Seq<char>) -> Result<NamedView, Seq<char>> {
    let args = tokenize(text);
    if args.len() < 2 {
        Err("Missing database name"@)
    } else if args.len() < 3 {
        Err("Missing database description"@)
    } else {
        Ok(NamedView { name: args[1], desc: args[2] })
    }
}

/// The dispatch table of the decoder.
pub open spec fn classify(r: ReplyView) -> Dispatch {
    if status_is(r, ReplyKind::PositiveCompletion, Category::System, 0) {
        Dispatch::Emit(Ok(PacketView { kind: PacketKindView::OkReply, reply: r }))
    } else if status_is(r, ReplyKind::PositivePreliminary, Category::System, 0) {
        Dispatch::Emit(Ok(PacketView { kind: PacketKindView::DefinitionsFollow, reply: r }))
    } else if status_is(r, ReplyKind::PositivePreliminary, Category::System, 1) {
        Dispatch::Block(BlockKindView::Definition(definition_source(r.text)))
    } else if status_is(r, ReplyKind::PositivePreliminary, Category::System, 2) {
        Dispatch::Block(BlockKindView::Matches)
    } else if status_is(r, ReplyKind::PositivePreliminary, Category::Information, 0) {
        Dispatch::Block(BlockKindView::Databases)
    } else if status_is(r, ReplyKind::PositivePreliminary, Category::Information, 1) {
        Dispatch::Block(BlockKindView::Strategies)
    } else if r.status.spec_is_positive() {
        Dispatch::Emit(Ok(PacketView { kind: PacketKindView::ReplyOnly, reply: r }))
    } else {
        Dispatch::Emit(Err(ErrorView::SystemError(r)))
    }
}

/// The first two fields of a block line.
pub open spec fn line_pair(line: Seq<char>) -> Result<(Seq<char>, Seq<char>), Seq<char>> {
    let args = tokenize(line);
    if args.len() < 1 {
        Err("Missing database name"@)
    } else if args.len() < 2 {
        Err("Missing database description"@)
    } else {
        Ok((args[0], args[1]))
    }
}

/// The first two fields of each line of a block, or the error of the first
/// line that lacks them.
pub open spec fn line_pairs(lines: Seq<Seq<char>>) -> Result<Seq<(Seq<char>, Seq<char>)>, Seq<char>>
    decreases lines.len(),
{
    if lines.len() == 0 {
        Ok(seq![])
    } else {
        match line_pairs(lines.drop_last()) {
            Err(e) => Err(e),
            Ok(ps) => match line_pair(lines.last()) {
                Err(e) => Err(e),
                Ok(p) => Ok(ps.push(p)),
            },
        }
    }
}

pub open spec fn match_of_pair(p: (Seq<char>, Seq<char>)) -> MatchView {
    MatchView { source: NamedView { name: p.0, desc: seq![] }, word: p.1 }
}

pub open spec fn named_of_pair(p: (Seq<char>, Seq<char>)) -> NamedView {
    NamedView { name: p.0, desc: p.1 }
}

/// The packet that a complete text block gives.
pub open spec fn block_packet(r: ReplyView, k: BlockKindView, lines: Seq<Seq<char>>) -> Result<
    PacketView,
    ErrorView,
> {
    match k {
        BlockKindView::Definition(Err(m)) => Err(ErrorView::MalformedAnswer(m)),
        BlockKindView::Definition(Ok(db)) => Ok(
            PacketView {
                kind: PacketKindView::Definition(DefinitionView { source: db, text: lines }),
                reply: r,
            },
        ),
        _ => match line_pairs(lines) {
            Err(m) => Err(ErrorView::MalformedAnswer(m)),
            Ok(ps) => Ok(
                PacketView {
                    kind: match k {
                        BlockKindView::Matches => PacketKindView::Matches(
                            ps.map_values(|p: (Seq<char>, Seq<char>)| match_of_pair(p)),
                        ),
                        BlockKindView::Databases => PacketKindView::Databases(
                            ps.map_values(|p: (Seq<char>, Seq<char>)| named_of_pair(p)),
                        ),
                        _ => PacketKindView::Strategies(
                            ps.map_values(|p: (Seq<char>, Seq<char>)| named_of_pair(p)),
                        ),
                    },
                    reply: r,
                },
            ),
        },
    }
}

/// A line without its terminator (`\n` or `\r\n`).
pub open spec fn strip_eol(l: Seq<char>) -> Seq<char> {
    if l.len() > 0 && l.last() == '\n' {
        let s = l.drop_last();
        if s.len() > 0 && s.last() == '\r' {
            s.drop_last()
        } else {
            s
        }
    } else {
        l
    }
}

/// The decoder's state after one more line, and the packet that the line
/// completes, if any.
pub open spec fn feed_step(st: Option<PendingView>, raw: Seq<char>) -> (
    Option<PendingView>,
    Option<Result<PacketView, ErrorView>>,
) {
    let l = strip_eol(raw);
    match st {
        None => match reply_of_line(l) {
            Err(e) => (None, Some(Err(ErrorView::ReplyError(e)))),
            Ok(r) => match classify(r) {
                Dispatch::Emit(x) => (None, Some(x)),
                Dispatch::Block(k) => (Some(PendingView { reply: r, kind: k, lines: seq![] }), None),
            },
        },
        Some(p) => if l == seq!['.'] {
            (None, Some(block_packet(p.reply, p.kind, p.lines)))
        } else {
            (Some(PendingView { reply: p.reply, kind: p.kind, lines: p.lines.push(l) }), None)
        },
    }
}

/// The length of `v` without its line terminator.
fn content_len(v: &Vec<char>) -> (n: usize)
    ensures
        n <= v@.len(),
        v@.take(n as int) == strip_eol(v@),
{
    let mut n = v.len();
    if n > 0 && v[n - 1] == '\n' {
        n -= 1;
        if n > 0 && v[n - 1] == '\r' {
            n -= 1;
        }
    }
    proof {
        let l = v@;
        if l.len() > 0 && l.last() == '\n' {
            assert(l.drop_last() == l.take(l.len() - 1));
            let s = l.drop_last();
            if s.len() > 0 && s.last() == '\r' {
                assert(s.drop_last() == l.take(l.len() - 2));
            }
        } else {
            assert(l.take(l.len() as int) == l);
        }
    }
    n
}

/// The database named by the text of a definition reply.
pub fn definition_header(text: &String) -> (r: Result<Database, &'static str>)
    ensures
        match definition_source(text@) {
            Ok(db) => r is Ok && r->Ok_0@ == db,
            Err(m) => r is Err && r->Err_0@ == m,
        },
{
    let args = parse_cmd_argument(text);
    assert(args@.len() == tokenize(text@).len());
    if args.len() < 2 {
        return Err("Missing database name");
    }
    if args.len() < 3 {
        return Err("Missing database description");
    }
    assert(args@[1]@ == tokenize(text@)[1]);
    assert(args@[2]@ == tokenize(text@)[2]);
    Ok(Database { name: args[1].clone(), desc: args[2].clone() })
}

/// The first two fields of a block line.
pub fn pair_of_line(line: &String) -> (r: Result<(String, String), &'static str>)
    ensures
        match line_pair(line@) {
            Ok(p) => r is Ok && r->Ok_0.0@ == p.0 && r->Ok_0.1@ == p.1,
            Err(m) => r is Err && r->Err_0@ == m,
        },
{
    let args = parse_cmd_argument(line);
    assert(args@.len() == tokenize(line@).len());
    if args.len() < 1 {
        return Err("Missing database name");
    }
    if args.len() < 2 {
        return Err("Missing database description");
    }
    assert(args@[0]@ == tokenize(line@)[0]);
    assert(args@[1]@ == tokenize(line@)[1]);
    Ok((args[0].clone(), args[1].clone()))
}

/// Once a prefix of the lines has a malformed line, so has the whole.
proof fn lemma_pairs_error_sticks(lines: Seq<Seq<char>>, i: int)
    requires
        0 <= i <= lines.len(),
        line_pairs(lines.take(i)) is Err,
    ensures
        line_pairs(lines) == line_pairs(lines.take(i)),
    decreases lines.len() - i,
{
    if i == lines.len() {
        assert(lines.take(i) == lines);
    } else {
        assert(lines.take(i + 1).drop_last() == lines.take(i));
        lemma_pairs_error_sticks(lines, i + 1);
    }
}

/// The entries of a list block: `make` turns the first two fields of each
/// line into an entry, whose view is `entry` of the fields.
fn collect_pairs<T: View, F: Fn(String, String) -> T>(
    lines: &Vec<String>,
    make: F,
    Ghost(entry): Ghost<spec_fn((Seq<char>, Seq<char>)) -> T::V>,
) -> (r: Result<Vec<T>, &'static str>)
    requires
        forall|a: String, b: String| #[trigger] make.requires((a, b)),
        forall|a: String, b: String, t: T| #[trigger] make.ensures((a, b), t) ==> t@ == entry(
            (a@, b@),
        ),
    ensures
        match line_pairs(string_seqs(lines@)) {
            Ok(ps) => r is Ok && views(r->Ok_0@) == ps.map_values(entry),
            Err(m) => r is Err && r->Err_0@ == m,
        },
{
    let ghost all = string_seqs(lines@);
    let mut out: Vec<T> = Vec::new();
    let mut i: usize = 0;
    while i < lines.len()
        invariant
            i <= lines@.len(),
            all == string_seqs(lines@),
            forall|a: String, b: String| #[trigger] make.requires((a, b)),
            forall|a: String, b: String, t: T| #[trigger] make.ensures((a, b), t) ==> t@ == entry(
                (a@, b@),
            ),
            line_pairs(all.take(i as int)) is Ok,
            views(out@) == line_pairs(all.take(i as int))->Ok_0.map_values(entry),
        decreases lines.len() - i,
    {
        assert(all.take(i + 1).drop_last() == all.take(i as int));
        assert(all.take(i + 1).last() == lines@[i as int]@);
        match pair_of_line(&lines[i]) {
            Err(m) => {
                proof {
                    lemma_pairs_error_sticks(all, i + 1);
                }
                return Err(m);
            },
            Ok((a, b)) => {
                let ghost before = out@;
                let ghost ps = line_pairs(all.take(i as int))->Ok_0;
                let ghost p = (a@, b@);
                let t = make(a, b);
                out.push(t);
                assert(views(out@) == views(before).push(entry(p)));
                assert(ps.push(p).map_values(entry) == ps.map_values(entry).push(entry(p)));
            },
        }
        i += 1;
    }
    assert(all.take(lines@.len() as int) == all);
    Ok(out)
}

/// A match entry: a word and the database that holds it.
fn match_entry(name: String, word: String) -> (m: Match)
    ensures
        m@ == match_of_pair((name@, word@)),
{
    Match { source: Database::named(name), word }
}

/// A database entry: a name and a description.
fn database_entry(name: String, desc: String) -> (d: Database)
    ensures
        d@ == named_of_pair((name@, desc@)),
{
    Database { name, desc }
}

/// A strategy entry: a name and a description.
fn strategy_entry(name: String, desc: String) -> (s: Strategy)
    ensures
        s@ == named_of_pair((name@, desc@)),
{
    Strategy { name, desc }
}

/// The entries of a match list block.
pub fn matches_of(lines: &Vec<String>) -> (r: Result<Vec<Match>, &'static str>)
    ensures
        match line_pairs(string_seqs(lines@)) {
            Ok(ps) => r is Ok && views(r->Ok_0@) == ps.map_values(
                |p: (Seq<char>, Seq<char>)| match_of_pair(p),
            ),
            Err(m) => r is Err && r->Err_0@ == m,
        },
{
    collect_pairs(
        lines,
        match_entry,
        Ghost(|p: (Seq<char>, Seq<char>)| match_of_pair(p)),
    )
}

/// The entries of a database list block.
pub fn databases_of(lines: &Vec<String>) -> (r: Result<Vec<Database>, &'static str>)
    ensures
        match line_pairs(string_seqs(lines@)) {
            Ok(ps) => r is Ok && views(r->Ok_0@) == ps.map_values(
                |p: (Seq<char>, Seq<char>)| named_of_pair(p),
            ),
            Err(m) => r is Err && r->Err_0@ == m,
        },
{
    collect_pairs(
        lines,
        database_entry,
        Ghost(|p: (Seq<char>, Seq<char>)| named_of_pair(p)),
    )
}

/// The entries of a strategy list block.
pub fn strategies_of(lines: &Vec<String>) -> (r: Result<Vec<Strategy>, &'static str>)
    ensures
        match line_pairs(string_seqs(lines@)) {
            Ok(ps) => r is Ok && views(r->Ok_0@) == ps.map_values(
                |p: (Seq<char>, Seq<char>)| named_of_pair(p),
            ),
            Err(m) => r is Err && r->Err_0@ == m,
        },
{
    collect_pairs(
        lines,
        strategy_entry,
        Ghost(|p: (Seq<char>, Seq<char>)| named_of_pair(p)),
    )
}

/// What a decoded reply calls for.
pub enum Dispatched {
    /// A packet, or an error, at once.
    Emit(Result<DICTPacket, DICTError>),
    /// A text block to read first.
    Block(PendingBlock),
}

fn is_status(r: &Reply, k: ReplyKind, c: Category, n: u8) -> (b: bool)
    ensures
        b == status_is(r@, k, c, n),
{
    r.status == Status(k, c, n)
}

/// Applies the dispatch table to one reply.
pub fn dispatch(reply: Reply) -> (d: Dispatched)
    ensures
        match classify(reply@) {
            Dispatch::Emit(x) => d is Emit && outcome_view(d->Emit_0) == x,
            Dispatch::Block(k) => d is Block && d->Block_0@ == (PendingView {
                reply: reply@,
                kind: k,
                lines: seq![],
            }),
        },
{
    let kind = if is_status(&reply, ReplyKind::PositiveCompletion, Category::System, 0) {
        return Dispatched::Emit(Ok(DICTPacket(DICTPacketKind::OkReply, reply)));
    } else if is_status(&reply, ReplyKind::PositivePreliminary, Category::System, 0) {
        return Dispatched::Emit(Ok(DICTPacket(DICTPacketKind::DefinitionsFollow, reply)));
    } else if is_status(&reply, ReplyKind::PositivePreliminary, Category::System, 1) {
        BlockKind::Definition(definition_header(&reply.text))
    } else if is_status(&reply, ReplyKind::PositivePreliminary, Category::System, 2) {
        BlockKind::Matches
    } else if is_status(&reply, ReplyKind::PositivePreliminary, Category::Information, 0) {
        BlockKind::Databases
    } else if is_status(&reply, ReplyKind::PositivePreliminary, Category::Information, 1) {
        BlockKind::Strategies
    } else if reply.status.is_positive() {
        return Dispatched::Emit(Ok(DICTPacket(DICTPacketKind::ReplyOnly, reply)));
    } else {
        return Dispatched::Emit(Err(DICTError::SystemError(reply)));
    };
    let lines: Vec<String> = Vec::new();
    assert(string_seqs(lines@) == Seq::<Seq<char>>::empty());
    Dispatched::Block(PendingBlock { reply, kind, lines })
}

/// The packet that a complete text block gives.
pub fn finish_block(p: PendingBlock) -> (r: Result<DICTPacket, DICTError>)
    ensures
        outcome_view(r) == block_packet(p@.reply, p@.kind, p@.lines),
{
    let PendingBlock { reply, kind, lines } = p;
    match kind {
        BlockKind::Definition(Err(m)) => Err(DICTError::MalformedAnswer(m)),
        BlockKind::Definition(Ok(source)) => {
            let def = Definition { source, text: lines };
            Ok(DICTPacket(DICTPacketKind::Definition(def), reply))
        },
        BlockKind::Matches => match matches_of(&lines) {
            Err(m) => Err(DICTError::MalformedAnswer(m)),
            Ok(v) => Ok(DICTPacket(DICTPacketKind::Matches(v), reply)),
        },
        BlockKind::Databases => match databases_of(&lines) {
            Err(m) => Err(DICTError::MalformedAnswer(m)),
            Ok(v) => Ok(DICTPacket(DICTPacketKind::Databases(v), reply)),
        },
        BlockKind::Strategies => match strategies_of(&lines) {
            Err(m) => Err(DICTError::MalformedAnswer(m)),
            Ok(v) => Ok(DICTPacket(DICTPacketKind::Strategies(v), reply)),
        },
    }
}

/// Runs the decoder over a sequence of lines: its final state, and the
/// packets that the lines completed, in order.
pub open spec fn feed_lines(st: Option<PendingView>, lines: Seq<Seq<char>>) -> (
    Option<PendingView>,
    Seq<Result<PacketView, ErrorView>>,
)
    decreases lines.len(),
{
    if lines.len() == 0 {
        (st, seq![])
    } else {
        let prev = feed_lines(st, lines.drop_last());
        let step = feed_step(prev.0, lines.last());
        (
            step.0,
            match step.1 {
                Some(x) => prev.1.push(x),
                None => prev.1,
            },
        )
    }
}

/// Lines that do not end a text block are gathered without their
/// terminators, and produce no packet.
proof fn lemma_block_body(p: PendingView, body: Seq<Seq<char>>)
    requires
        forall|i: int| 0 <= i < body.len() ==> strip_eol(#[trigger] body[i]) != seq!['.'],
    ensures
        feed_lines(Some(p), body) == (
            Some(
                PendingView {
                    reply: p.reply,
                    kind: p.kind,
                    lines: p.lines + body.map_values(|l: Seq<char>| strip_eol(l)),
                },
            ),
            Seq::<Result<PacketView, ErrorView>>::empty(),
        ),
    decreases body.len(),
{
    if body.len() == 0 {
        assert(p.lines + body.map_values(|l: Seq<char>| strip_eol(l)) == p.lines);
    } else {
        let front = body.drop_last();
        assert forall|i: int| 0 <= i < front.len() implies strip_eol(#[trigger] front[i]) != seq![
            '.',
        ] by {
            assert(front[i] == body[i]);
        }
        lemma_block_body(p, front);
        assert(strip_eol(body[body.len() - 1]) != seq!['.']);
        assert(p.lines + body.map_values(|l: Seq<char>| strip_eol(l)) == (p.lines
            + front.map_values(|l: Seq<char>| strip_eol(l))).push(strip_eol(body.last())));
    }
}

/// A text block is read up to the line that holds a single dot: the lines
/// before it, without their terminators and in order, make the block, the
/// dot line is consumed, and exactly one packet comes out, after which the
/// decoder waits for a reply again.
pub proof fn lemma_block_reading(p: PendingView, body: Seq<Seq<char>>, dot: Seq<char>)
    requires
        forall|i: int| 0 <= i < body.len() ==> strip_eol(#[trigger] body[i]) != seq!['.'],
        strip_eol(dot) == seq!['.'],
    ensures
        feed_lines(Some(p), body.push(dot)) == (
            None::<PendingView>,
            seq![
                block_packet(
                    p.reply,
                    p.kind,
                    p.lines + body.map_values(|l: Seq<char>| strip_eol(l)),
                ),
            ],
        ),
{
    lemma_block_body(p, body);
    assert(body.push(dot).drop_last() == body);
    assert(Seq::<Result<PacketView, ErrorView>>::empty().push(
        block_packet(p.reply, p.kind, p.lines + body.map_values(|l: Seq<char>| strip_eol(l))),
    ) == seq![block_packet(p.reply, p.kind, p.lines + body.map_values(|l: Seq<char>| strip_eol(l)))]);
}

/// Feeding two runs of lines one after the other is feeding the first, then
/// the second from where the first left the decoder.
pub(crate) proof fn lemma_feed_lines_append(
    st: Option<PendingView>,
    a: Seq<Seq<char>>,
    b: Seq<Seq<char>>,
)
    ensures
        feed_lines(st, a + b) == (
            feed_lines(feed_lines(st, a).0, b).0,
            feed_lines(st, a).1 + feed_lines(feed_lines(st, a).0, b).1,
        ),
    decreases b.len(),
{
    let mid = feed_lines(st, a);
    if b.len() == 0 {
        assert(a + b == a);
        assert(mid.1 + Seq::<Result<PacketView, ErrorView>>::empty() == mid.1);
    } else {
        lemma_feed_lines_append(st, a, b.drop_last());
        assert((a + b).drop_last() == a + b.drop_last());
        assert((a + b).last() == b.last());
        let prev = feed_lines(mid.0, b.drop_last());
        let step = feed_step(prev.0, b.last());
        match step.1 {
            Some(x) => {
                assert(mid.1 + prev.1.push(x) == (mid.1 + prev.1).push(x));
            },
            None => {},
        }
    }
}

/// The packet decoder of one connection. It holds at most one packet in
/// progress: the reply of a text block and the block's lines so far.
pub struct PacketDecoder {
    pending: Option<PendingBlock>,
}

impl View for PacketDecoder {
    type V = Option<PendingView>;

    closed spec fn view(&self) -> Option<PendingView> {
        match self.pending {
            Some(p) => Some(p@),
            None => None,
        }
    }
}

/// The view of what a line completes.
pub open spec fn fed_view(r: Option<Result<DICTPacket, DICTError>>) -> Option<
    Result<PacketView, ErrorView>,
> {
    match r {
        Some(x) => Some(outcome_view(x)),
        None => None,
    }
}

/// Relies on `std::io::Error::from`: an error of kind `UnexpectedEof`.
#[verifier::external_body]
fn unexpected_eof() -> std::io::Error {
    std::io::Error::from(std::io::ErrorKind::UnexpectedEof)
}

impl PacketDecoder {
    /// A decoder that waits for a reply line.
    pub fn new() -> (d: PacketDecoder)
        ensures
            d@ is None,
    {
        PacketDecoder { pending: None }
    }

    /// True when no text block is being read.
    pub fn is_idle(&self) -> (b: bool)
        ensures
            b == (self@ is None),
    {
        self.pending.is_none()
    }

    /// Takes one line as the transport gave it (with or without its
    /// terminator). Returns the packet, or the error, that the line
    /// completes; `None` while a text block is still being read.
    pub fn feed_line(&mut self, line: String) -> (r: Option<Result<DICTPacket, DICTError>>)
        ensures
            (final(self)@, fed_view(r)) == feed_step(old(self)@, line@),
    {
        let chars = chars_of(line.as_str());
        let n = content_len(&chars);
        let ghost l = strip_eol(line@);
        match self.pending.take() {
            None => {
                let content = string_of_range(&chars, 0, n);
                assert(chars@.subrange(0, n as int) == l);
                match Reply::from_line(content) {
                    Err(e) => Some(Err(DICTError::ReplyError(e))),
                    Ok(reply) => match dispatch(reply) {
                        Dispatched::Emit(x) => Some(x),
                        Dispatched::Block(p) => {
                            self.pending = Some(p);
                            None
                        },
                    },
                }
            },
            Some(mut p) => {
                if n == 1 && chars[0] == '.' {
                    assert(l == seq!['.']);
                    Some(finish_block(p))
                } else {
                    let content = string_of_range(&chars, 0, n);
                    assert(chars@.subrange(0, n as int) == l);
                    proof {
                        if l == seq!['.'] {
                            assert(l.len() == 1 && l[0] == '.');
                            assert(chars@.take(n as int)[0] == chars@[0]);
                        }
                    }
                    let ghost before = p.lines@;
                    p.lines.push(content);
                    assert(string_seqs(p.lines@) == string_seqs(before).push(l));
                    self.pending = Some(p);
                    None
                }
            },
        }
    }

    /// The transport closed. Returns `NoAnswer` when a reply was awaited,
    /// and a transport error when a text block was cut short; the decoder
    /// then waits for a reply again.
    pub fn close(&mut self) -> (e: DICTError)
        ensures
            final(self)@ is None,
            old(self)@ is None ==> e@ == ErrorView::NoAnswer,
            old(self)@ is Some ==> e@ == ErrorView::ReadWriteError,
    {
        match self.pending.take() {
            None => DICTError::NoAnswer,
            Some(_) => DICTError::ReadWriteError(unexpected_eof()),
        }
    }
}

} // verus!
