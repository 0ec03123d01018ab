//! Command transactions. Each command writes one request line and then
//! takes the packets that the decoder produces, one at a time, until its
//! result is complete or a packet out of place ends it. Every transaction
//! machine starts afresh once it has given its result.

use crate::entities::{Database, Definition, DefinitionView, Match, MatchView, NamedView, Strategy, views};
use crate::packet::{
    BlockKindView, DICTError, DICTPacket, DICTPacketKind, ErrorView, PacketKindView, PacketView,
    PendingView, definition_source, feed_lines, feed_step, lemma_block_reading,
    lemma_feed_lines_append, outcome_view, strip_eol,
};
use crate::reply::{Reply, ReplyView, reply_of_line};
use crate::status::{Category, ReplyKind, Status};
use crate::text::push_char;
use vstd::prelude::*;

verus! {

/// `CLIENT "<name>"`, without its line terminator.
pub open spec fn client_line(name: Seq<char>) -> Seq<char> {
    "CLIENT \""@ + name + "\""@
}

/// `DEFINE "<database>" "<word>"`, without its line terminator.
pub open spec fn define_line(db: Seq<char>, word: Seq<char>) -> Seq<char> {
    "DEFINE \""@ + db + "\" \""@ + word + "\""@
}

/// `MATCH <database> <strategy> <word>`, without its line terminator.
pub open spec fn match_line(db: Seq<char>, strat: Seq<char>, word: Seq<char>) -> Seq<char> {
    "MATCH "@ + db + " "@ + strat + " "@ + word
}

/// The request line that identifies the client.
pub fn client_command(name: &str) -> (r: String)
    ensures
        r@ == client_line(name@),
{
    let mut r = String::from_str("CLIENT \"");
    r.append(name);
    r.append("\"");
    r
}

/// The request line that asks for the definitions of `word` in `db`.
pub fn define_command(db: &Database, word: &str) -> (r: String)
    ensures
        r@ == define_line(db.name@, word@),
{
    let mut r = String::from_str("DEFINE \"");
    r.append(db.name.as_str());
    r.append("\" \"");
    r.append(word);
    r.append("\"");
    r
}

/// The request line that asks for the words of `db` that match `word`
/// under `strat`.
pub fn match_command(db: &Database, strat: &Strategy, word: &str) -> (r: String)
    ensures
        r@ == match_line(db.name@, strat.name@, word@),
{
    let mut r = String::from_str("MATCH ");
    r.append(db.name.as_str());
    push_char(&mut r, ' ');
    r.append(strat.name.as_str());
    push_char(&mut r, ' ');
    r.append(word);
    proof {
        reveal_strlit(" ");
        assert(seq![' '] == " "@);
    }
    r
}

/// The request line that lists the databases.
pub fn show_databases_command() -> (r: String)
    ensures
        r@ == "SHOW DATABASES"@,
{
    String::from_str("SHOW DATABASES")
}

/// The request line that lists the strategies.
pub fn show_strategies_command() -> (r: String)
    ensures
        r@ == "SHOW STRATEGIES"@,
{
    String::from_str("SHOW STRATEGIES")
}

/// What a single expected plain-ok packet gives: its reply, or the packet
/// out of place, or the decoder's error.
pub open spec fn ok_outcome(p: Result<PacketView, ErrorView>) -> Result<ReplyView, ErrorView> {
    match p {
        Err(e) => Err(e),
        Ok(pk) => if pk.kind is OkReply {
            Ok(pk.reply)
        } else {
            Err(ErrorView::UnexpectedPacket(pk))
        },
    }
}

/// The answer to `CLIENT`: a single plain-ok packet.
pub fn client_outcome(p: Result<DICTPacket, DICTError>) -> (r: Result<Reply, DICTError>)
    ensures
        match ok_outcome(outcome_view(p)) {
            Ok(rv) => r is Ok && r->Ok_0@ == rv,
            Err(e) => r is Err && r->Err_0@ == e,
        },
{
    match p {
        Err(e) => Err(e),
        Ok(DICTPacket(DICTPacketKind::OkReply, r)) => Ok(r),
        Ok(other) => Err(DICTError::UnexpectedPacket(other)),
    }
}

/// What the server's greeting gives: the reply of a packet whose status is
/// the greeting code (220).
pub open spec fn greeting_outcome_spec(p: Result<PacketView, ErrorView>) -> Result<ReplyView, ErrorView> {
    match p {
        Err(e) => Err(e),
        Ok(pk) => if pk.reply.status == Status(ReplyKind::PositiveCompletion, Category::Connection, 0) {
            Ok(pk.reply)
        } else {
            Err(ErrorView::UnexpectedPacket(pk))
        },
    }
}

/// The greeting that the server sends on connection.
pub fn greeting_outcome(p: Result<DICTPacket, DICTError>) -> (r: Result<Reply, DICTError>)
    ensures
        match greeting_outcome_spec(outcome_view(p)) {
            Ok(rv) => r is Ok && r->Ok_0@ == rv,
            Err(e) => r is Err && r->Err_0@ == e,
        },
{
    match p {
        Err(e) => Err(e),
        Ok(pk) => if pk.1.status.is_start() {
            Ok(pk.1)
        } else {
            Err(DICTError::UnexpectedPacket(pk))
        },
    }
}

/// The state of a `DEFINE` transaction: whether the start marker (150) was
/// seen, and the definitions received since.
pub struct DefineView {
    pub started: bool,
    pub defs: Seq<DefinitionView>,
}

pub open spec fn define_initial() -> DefineView {
    DefineView { started: false, defs: seq![] }
}

/// One step of a `DEFINE` transaction. It wants the start marker, then
/// definitions up to a plain-ok packet, whose reply is the final status.
/// Anything else ends it with an error, and what was gathered is dropped.
pub open spec fn define_step(st: DefineView, p: Result<PacketView, ErrorView>) -> (
    DefineView,
    Option<Result<(Seq<DefinitionView>, ReplyView), ErrorView>>,
) {
    match p {
        Err(e) => (define_initial(), Some(Err(e))),
        Ok(pk) => if !st.started {
            if pk.kind is DefinitionsFollow {
                (DefineView { started: true, defs: seq![] }, None)
            } else {
                (define_initial(), Some(Err(ErrorView::UnexpectedPacket(pk))))
            }
        } else {
            match pk.kind {
                PacketKindView::Definition(d) => (
                    DefineView { started: true, defs: st.defs.push(d) },
                    None,
                ),
                PacketKindView::OkReply => (define_initial(), Some(Ok((st.defs, pk.reply)))),
                _ => (define_initial(), Some(Err(ErrorView::UnexpectedPacket(pk)))),
            }
        },
    }
}

/// The view of a finished `DEFINE`.
pub open spec fn define_result_view(r: Result<(Vec<Definition>, Reply), DICTError>) -> Result<
    (Seq<DefinitionView>, ReplyView),
    ErrorView,
> {
    match r {
        Ok((d, rep)) => Ok((views(d@), rep@)),
        Err(e) => Err(e@),
    }
}

/// A `DEFINE` transaction in progress.
pub struct DefineTransaction {
    started: bool,
    defs: Vec<Definition>,
}

impl View for DefineTransaction {
    type V = DefineView;

    closed spec fn view(&self) -> DefineView {
        DefineView { started: self.started, defs: views(self.defs@) }
    }
}

impl DefineTransaction {
    pub fn new() -> (t: DefineTransaction)
        ensures
            t@ == define_initial(),
    {
        let t = DefineTransaction { started: false, defs: Vec::new() };
        assert(t@.defs == Seq::<DefinitionView>::empty());
        t
    }

    /// Takes the next packet. Returns the result once the transaction is
    /// over, `None` while it wants more packets.
    pub fn on_packet(&mut self, p: Result<DICTPacket, DICTError>) -> (r: Option<
        Result<(Vec<Definition>, Reply), DICTError>,
    >)
        ensures
            final(self)@ == define_step(old(self)@, outcome_view(p)).0,
            match define_step(old(self)@, outcome_view(p)).1 {
                None => r is None,
                Some(x) => r is Some && define_result_view(r->0) == x,
            },
    {
        match p {
            Err(e) => {
                self.reset();
                Some(Err(e))
            },
            Ok(pk) => {
                if !self.started {
                    if let DICTPacketKind::DefinitionsFollow = pk.0 {
                        self.reset();
                        self.started = true;
                        None
                    } else {
                        self.reset();
                        Some(Err(DICTError::UnexpectedPacket(pk)))
                    }
                } else {
                    match pk {
                        DICTPacket(DICTPacketKind::Definition(d), _) => {
                            let ghost before = self.defs@;
                            let ghost dv = d@;
                            self.defs.push(d);
                            assert(views(self.defs@) == views(before).push(dv));
                            None
                        },
                        DICTPacket(DICTPacketKind::OkReply, reply) => {
                            let mut defs: Vec<Definition> = Vec::new();
                            core::mem::swap(&mut defs, &mut self.defs);
                            self.reset();
                            Some(Ok((defs, reply)))
                        },
                        other => {
                            self.reset();
                            Some(Err(DICTError::UnexpectedPacket(other)))
                        },
                    }
                }
            },
        }
    }

    fn reset(&mut self)
        ensures
            final(self)@ == define_initial(),
    {
        self.started = false;
        self.defs = Vec::new();
        assert(views(self.defs@) == Seq::<DefinitionView>::empty());
    }
}

/// One step of a list transaction (`MATCH`, `SHOW DATABASES`,
/// `SHOW STRATEGIES`): it wants one list packet, which `extract` recognises,
/// then one plain-ok packet. The result is the list and the list packet's
/// reply; anything out of place ends it with an error and drops the list.
pub open spec fn list_step<V>(
    held: Option<(Seq<V>, ReplyView)>,
    p: Result<PacketView, ErrorView>,
    extract: spec_fn(PacketKindView) -> Option<Seq<V>>,
) -> (Option<(Seq<V>, ReplyView)>, Option<Result<(Seq<V>, ReplyView), ErrorView>>) {
    match held {
        None => match p {
            Err(e) => (None, Some(Err(e))),
            Ok(pk) => match extract(pk.kind) {
                Some(v) => (Some((v, pk.reply)), None),
                None => (None, Some(Err(ErrorView::UnexpectedPacket(pk)))),
            },
        },
        Some(h) => (
            None,
            Some(
                match ok_outcome(p) {
                    Ok(_) => Ok(h),
                    Err(e) => Err(e),
                },
            ),
        ),
    }
}

pub open spec fn matches_in(k: PacketKindView) -> Option<Seq<MatchView>> {
    match k {
        PacketKindView::Matches(v) => Some(v),
        _ => None,
    }
}

pub open spec fn databases_in(k: PacketKindView) -> Option<Seq<NamedView>> {
    match k {
        PacketKindView::Databases(v) => Some(v),
        _ => None,
    }
}

pub open spec fn strategies_in(k: PacketKindView) -> Option<Seq<NamedView>> {
    match k {
        PacketKindView::Strategies(v) => Some(v),
        _ => None,
    }
}

/// The view of a list and its reply.
pub open spec fn list_view<T: View>(x: (Vec<T>, Reply)) -> (Seq<T::V>, ReplyView) {
    (views(x.0@), x.1@)
}

/// The view of a finished list transaction.
pub open spec fn list_result_view<T: View>(r: Result<(Vec<T>, Reply), DICTError>) -> Result<
    (Seq<T::V>, ReplyView),
    ErrorView,
> {
    match r {
        Ok(x) => Ok(list_view(x)),
        Err(e) => Err(e@),
    }
}

/// The view of what a list transaction holds.
pub open spec fn held_view<T: View>(h: Option<(Vec<T>, Reply)>) -> Option<(Seq<T::V>, ReplyView)> {
    match h {
        Some(x) => Some(list_view(x)),
        None => None,
    }
}

/// What `extract` does with a packet's contents: hands out the list where
/// `spec_extract` finds one, and gives the contents back otherwise.
pub open spec fn extracts<T: View>(
    r: Result<Vec<T>, DICTPacketKind>,
    k: PacketKindView,
    spec_extract: spec_fn(PacketKindView) -> Option<Seq<T::V>>,
) -> bool {
    match r {
        Ok(v) => spec_extract(k) == Some(views(v@)),
        Err(back) => spec_extract(k) is None && back@ == k,
    }
}

/// One step of a list transaction, on what it holds so far.
fn list_on_packet<T: View, F: Fn(DICTPacketKind) -> Result<Vec<T>, DICTPacketKind>>(
    found: &mut Option<(Vec<T>, Reply)>,
    p: Result<DICTPacket, DICTError>,
    extract: F,
    Ghost(spec_extract): Ghost<spec_fn(PacketKindView) -> Option<Seq<T::V>>>,
) -> (r: Option<Result<(Vec<T>, Reply), DICTError>>)
    requires
        forall|k: DICTPacketKind| #[trigger] extract.requires((k,)),
        forall|k: DICTPacketKind, r: Result<Vec<T>, DICTPacketKind>| #[trigger]
            extract.ensures((k,), r) ==> extracts(r, k@, spec_extract),
    ensures
        held_view(*final(found)) == list_step(held_view(*old(found)), outcome_view(p), spec_extract).0,
        match list_step(held_view(*old(found)), outcome_view(p), spec_extract).1 {
            None => r is None,
            Some(x) => r is Some && list_result_view(r->0) == x,
        },
{
    match found.take() {
        None => match p {
            Err(e) => Some(Err(e)),
            Ok(DICTPacket(kind, reply)) => match extract(kind) {
                Ok(v) => {
                    *found = Some((v, reply));
                    None
                },
                Err(kind) => Some(Err(DICTError::UnexpectedPacket(DICTPacket(kind, reply)))),
            },
        },
        Some(h) => match p {
            Err(e) => Some(Err(e)),
            Ok(DICTPacket(DICTPacketKind::OkReply, _)) => Some(Ok(h)),
            Ok(other) => Some(Err(DICTError::UnexpectedPacket(other))),
        },
    }
}

/// The match list that a packet holds, or its contents back.
fn take_matches(k: DICTPacketKind) -> (r: Result<Vec<Match>, DICTPacketKind>)
    ensures
        extracts(r, k@, |k| matches_in(k)),
{
    match k {
        DICTPacketKind::Matches(v) => Ok(v),
        other => Err(other),
    }
}

/// A `MATCH` transaction in progress.
pub struct MatchTransaction {
    found: Option<(Vec<Match>, Reply)>,
}

impl View for MatchTransaction {
    type V = Option<(Seq<MatchView>, ReplyView)>;

    closed spec fn view(&self) -> Option<(Seq<MatchView>, ReplyView)> {
        held_view(self.found)
    }
}

impl MatchTransaction {
    pub fn new() -> (t: MatchTransaction)
        ensures
            t@ is None,
    {
        MatchTransaction { found: None }
    }

    /// Takes the next packet. Returns the result once the transaction is
    /// over, `None` while it wants more packets.
    pub fn on_packet(&mut self, p: Result<DICTPacket, DICTError>) -> (r: Option<
        Result<(Vec<Match>, Reply), DICTError>,
    >)
        ensures
            final(self)@ == list_step(old(self)@, outcome_view(p), |k| matches_in(k)).0,
            match list_step(old(self)@, outcome_view(p), |k| matches_in(k)).1 {
                None => r is None,
                Some(x) => r is Some && list_result_view(r->0) == x,
            },
    {
        list_on_packet(&mut self.found, p, take_matches, Ghost(|k| matches_in(k)))
    }
}

/// The database list that a packet holds, or its contents back.
fn take_databases(k: DICTPacketKind) -> (r: Result<Vec<Database>, DICTPacketKind>)
    ensures
        extracts(r, k@, |k| databases_in(k)),
{
    match k {
        DICTPacketKind::Databases(v) => Ok(v),
        other => Err(other),
    }
}

/// A `SHOW DATABASES` transaction in progress.
pub struct ShowDatabasesTransaction {
    found: Option<(Vec<Database>, Reply)>,
}

impl View for ShowDatabasesTransaction {
    type V = Option<(Seq<NamedView>, ReplyView)>;

    closed spec fn view(&self) -> Option<(Seq<NamedView>, ReplyView)> {
        held_view(self.found)
    }
}

impl ShowDatabasesTransaction {
    pub fn new() -> (t: ShowDatabasesTransaction)
        ensures
            t@ is None,
    {
        ShowDatabasesTransaction { found: None }
    }

    /// Takes the next packet. Returns the result once the transaction is
    /// over, `None` while it wants more packets.
    pub fn on_packet(&mut self, p: Result<DICTPacket, DICTError>) -> (r: Option<
        Result<(Vec<Database>, Reply), DICTError>,
    >)
        ensures
            final(self)@ == list_step(old(self)@, outcome_view(p), |k| databases_in(k)).0,
            match list_step(old(self)@, outcome_view(p), |k| databases_in(k)).1 {
                None => r is None,
                Some(x) => r is Some && list_result_view(r->0) == x,
            },
    {
        list_on_packet(&mut self.found, p, take_databases, Ghost(|k| databases_in(k)))
    }
}

/// The strategy list that a packet holds, or its contents back.
fn take_strategies(k: DICTPacketKind) -> (r: Result<Vec<Strategy>, DICTPacketKind>)
    ensures
        extracts(r, k@, |k| strategies_in(k)),
{
    match k {
        DICTPacketKind::Strategies(v) => Ok(v),
        other => Err(other),
    }
}

/// A `SHOW STRATEGIES` transaction in progress.
pub struct ShowStrategiesTransaction {
    found: Option<(Vec<Strategy>, Reply)>,
}

impl View for ShowStrategiesTransaction {
    type V = Option<(Seq<NamedView>, ReplyView)>;

    closed spec fn view(&self) -> Option<(Seq<NamedView>, ReplyView)> {
        held_view(self.found)
    }
}

impl ShowStrategiesTransaction {
    pub fn new() -> (t: ShowStrategiesTransaction)
        ensures
            t@ is None,
    {
        ShowStrategiesTransaction { found: None }
    }

    /// Takes the next packet. Returns the result once the transaction is
    /// over, `None` while it wants more packets.
    pub fn on_packet(&mut self, p: Result<DICTPacket, DICTError>) -> (r: Option<
        Result<(Vec<Strategy>, Reply), DICTError>,
    >)
        ensures
            final(self)@ == list_step(old(self)@, outcome_view(p), |k| strategies_in(k)).0,
            match list_step(old(self)@, outcome_view(p), |k| strategies_in(k)).1 {
                None => r is None,
                Some(x) => r is Some && list_result_view(r->0) == x,
            },
    {
        list_on_packet(&mut self.found, p, take_strategies, Ghost(|k| strategies_in(k)))
    }
}

/// Runs a `DEFINE` transaction over a sequence of packets: its final state
/// and the results it gave, in order.
pub open spec fn define_run(st: DefineView, ps: Seq<Result<PacketView, ErrorView>>) -> (
    DefineView,
    Seq<Result<(Seq<DefinitionView>, ReplyView), ErrorView>>,
)
    decreases ps.len(),
{
    if ps.len() == 0 {
        (st, seq![])
    } else {
        let prev = define_run(st, ps.drop_last());
        let step = define_step(prev.0, ps.last());
        (
            step.0,
            match step.1 {
                Some(x) => prev.1.push(x),
                None => prev.1,
            },
        )
    }
}

/// The reply of a line that decodes as one.
pub open spec fn line_reply(l: Seq<char>) -> ReplyView {
    reply_of_line(strip_eol(l))->Ok_0
}

/// A line that decodes as a reply with the given status.
pub open spec fn is_reply_line(l: Seq<char>, k: ReplyKind, c: Category, n: u8) -> bool {
    reply_of_line(strip_eol(l)) is Ok && line_reply(l).status == Status(k, c, n)
}

proof fn lemma_feed_one(st: Option<PendingView>, l: Seq<char>)
    ensures
        feed_lines(st, seq![l]) == (
            feed_step(st, l).0,
            match feed_step(st, l).1 {
                Some(x) => seq![x],
                None => Seq::<Result<PacketView, ErrorView>>::empty(),
            },
        ),
{
    assert(seq![l].drop_last() == Seq::<Seq<char>>::empty());
    assert(seq![l].last() == l);
    assert(feed_lines(st, Seq::<Seq<char>>::empty()) == (
        st,
        Seq::<Result<PacketView, ErrorView>>::empty(),
    ));
    match feed_step(st, l).1 {
        Some(x) => {
            assert(Seq::<Result<PacketView, ErrorView>>::empty().push(x) == seq![x]);
        },
        None => {},
    }
}

/// A `DEFINE` answered by the start marker (150), one definition (151)
/// naming its database, the definition's text up to the dot line, and the
/// closing plain-ok (250) gives exactly one result: that definition, with
/// the database of the 151 reply and the text without line terminators,
/// and the closing reply as final status. The transaction then starts
/// afresh.
pub proof fn lemma_define_sequence(
    start: Seq<char>,
    header: Seq<char>,
    body: Seq<Seq<char>>,
    dot: Seq<char>,
    ok: Seq<char>,
)
    requires
        is_reply_line(start, ReplyKind::PositivePreliminary, Category::System, 0),
        is_reply_line(header, ReplyKind::PositivePreliminary, Category::System, 1),
        definition_source(line_reply(header).text) is Ok,
        forall|i: int| 0 <= i < body.len() ==> strip_eol(#[trigger] body[i]) != seq!['.'],
        strip_eol(dot) == seq!['.'],
        is_reply_line(ok, ReplyKind::PositiveCompletion, Category::System, 0),
    ensures
        feed_lines(None, seq![start, header] + body + seq![dot, ok]).0 is None,
        define_run(define_initial(), feed_lines(None, seq![start, header] + body + seq![dot, ok]).1)
            == (
            define_initial(),
            seq![
                Ok::<(Seq<DefinitionView>, ReplyView), ErrorView>(
                    (
                        seq![
                            DefinitionView {
                                source: definition_source(line_reply(header).text)->Ok_0,
                                text: body.map_values(|l: Seq<char>| strip_eol(l)),
                            },
                        ],
                        line_reply(ok),
                    ),
                ),
            ],
        ),
{
    let a = seq![start];
    let b = seq![header];
    let c = body.push(dot);
    let d = seq![ok];
    assert(seq![start, header] + body + seq![dot, ok] == a + b + c + d);
    let src = definition_source(line_reply(header).text)->Ok_0;
    let text = body.map_values(|l: Seq<char>| strip_eol(l));
    let pending = PendingView {
        reply: line_reply(header),
        kind: BlockKindView::Definition(Ok(src)),
        lines: seq![],
    };
    let follow = PacketView { kind: PacketKindView::DefinitionsFollow, reply: line_reply(start) };
    let def = PacketView {
        kind: PacketKindView::Definition(DefinitionView { source: src, text: text }),
        reply: line_reply(header),
    };
    let closing = PacketView { kind: PacketKindView::OkReply, reply: line_reply(ok) };
    lemma_feed_one(None, start);
    assert(feed_lines(None, a) == (None::<PendingView>, seq![Ok::<PacketView, ErrorView>(follow)]));
    lemma_feed_one(None, header);
    assert(feed_lines(None, b) == (Some(pending), Seq::<Result<PacketView, ErrorView>>::empty()));
    lemma_block_reading(pending, body, dot);
    assert(pending.lines + text == text);
    assert(feed_lines(Some(pending), c) == (None::<PendingView>, seq![Ok::<PacketView, ErrorView>(def)]));
    lemma_feed_one(None, ok);
    assert(feed_lines(None, d) == (None::<PendingView>, seq![Ok::<PacketView, ErrorView>(closing)]));
    lemma_feed_lines_append(None, a, b);
    lemma_feed_lines_append(None, a + b, c);
    lemma_feed_lines_append(None, a + b + c, d);
    let ps = seq![
        Ok::<PacketView, ErrorView>(follow),
        Ok::<PacketView, ErrorView>(def),
        Ok::<PacketView, ErrorView>(closing),
    ];
    assert(feed_lines(None, a + b + c + d).1 == ps);
    let p1 = seq![Ok::<PacketView, ErrorView>(follow)];
    let p2 = p1.push(Ok::<PacketView, ErrorView>(def));
    assert(p2.push(Ok::<PacketView, ErrorView>(closing)) == ps);
    assert(p1.drop_last() == Seq::<Result<PacketView, ErrorView>>::empty());
    assert(p1.last() == Ok::<PacketView, ErrorView>(follow));
    let s0 = define_run(define_initial(), Seq::<Result<PacketView, ErrorView>>::empty());
    assert(s0.0 == define_initial());
    let s1 = define_run(define_initial(), p1);
    assert(s1.0 == (DefineView { started: true, defs: seq![] }));
    assert(s1.1.len() == 0);
    let s2 = define_run(define_initial(), p2);
    assert(p2.drop_last() == p1);
    assert(s2.0 == (DefineView {
        started: true,
        defs: seq![DefinitionView { source: src, text: text }],
    })) by {
        assert(Seq::<DefinitionView>::empty().push(DefinitionView { source: src, text: text })
            == seq![DefinitionView { source: src, text: text }]);
    }
    assert(s2.1.len() == 0);
    assert(ps.drop_last() == p2);
    let s3 = define_run(define_initial(), ps);
    assert(s3.1 == s2.1.push(
        Ok::<(Seq<DefinitionView>, ReplyView), ErrorView>(
            (seq![DefinitionView { source: src, text: text }], line_reply(ok)),
        ),
    ));
    assert(s2.1 == Seq::<Result<(Seq<DefinitionView>, ReplyView), ErrorView>>::empty());
}

/// What a line with a well-formed reply of negative status decodes to.
pub open spec fn refusal_of(line: Seq<char>) -> Result<PacketView, ErrorView> {
    Err(ErrorView::SystemError(reply_of_line(strip_eol(line))->Ok_0))
}

/// A reply with a negative status fails any transaction, at whatever point
/// it waits for a packet: the decoder turns the line into `SystemError`
/// with that reply, and each transaction ends with that same error and
/// drops whatever it had gathered.
pub proof fn lemma_negative_status_fails(
    line: Seq<char>,
    define: DefineView,
    matches: Option<(Seq<MatchView>, ReplyView)>,
    databases: Option<(Seq<NamedView>, ReplyView)>,
    strategies: Option<(Seq<NamedView>, ReplyView)>,
)
    requires
        reply_of_line(strip_eol(line)) is Ok,
        !reply_of_line(strip_eol(line))->Ok_0.status.spec_is_positive(),
    ensures
        feed_step(None, line) == (None::<PendingView>, Some(refusal_of(line))),
        ok_outcome(refusal_of(line)) == Err::<ReplyView, ErrorView>(refusal_of(line)->Err_0),
        greeting_outcome_spec(refusal_of(line)) == Err::<ReplyView, ErrorView>(
            refusal_of(line)->Err_0,
        ),
        define_step(define, refusal_of(line)) == (
            define_initial(),
            Some(Err::<(Seq<DefinitionView>, ReplyView), ErrorView>(refusal_of(line)->Err_0)),
        ),
        list_step(matches, refusal_of(line), |k| matches_in(k)) == (
            None::<(Seq<MatchView>, ReplyView)>,
            Some(Err::<(Seq<MatchView>, ReplyView), ErrorView>(refusal_of(line)->Err_0)),
        ),
        list_step(databases, refusal_of(line), |k| databases_in(k)) == (
            None::<(Seq<NamedView>, ReplyView)>,
            Some(Err::<(Seq<NamedView>, ReplyView), ErrorView>(refusal_of(line)->Err_0)),
        ),
        list_step(strategies, refusal_of(line), |k| strategies_in(k)) == (
            None::<(Seq<NamedView>, ReplyView)>,
            Some(Err::<(Seq<NamedView>, ReplyView), ErrorView>(refusal_of(line)->Err_0)),
        ),
{
}

} // verus!
