use redict::entities::{Database, Definition, Strategy};
use redict::packet::{DICTError, DICTPacket, DICTPacketKind, PacketDecoder};
use redict::reply::{ParseReplyError, Reply};
use redict::status::{Category, ParseStatusError, ReplyKind, Status};
use redict::tokenizer::parse_cmd_argument;
use redict::transaction::{
    client_command, client_outcome, define_command, greeting_outcome, match_command,
    show_databases_command, show_strategies_command, DefineTransaction, MatchTransaction,
    ShowDatabasesTransaction, ShowStrategiesTransaction,
};

fn feed_all(dec: &mut PacketDecoder, lines: &[&str]) -> Vec<Result<DICTPacket, DICTError>> {
    let mut out = Vec::new();
    for l in lines {
        if let Some(p) = dec.feed_line(l.to_string()) {
            out.push(p);
        }
    }
    out
}

fn run_define(lines: &[&str]) -> Option<Result<(Vec<Definition>, Reply), DICTError>> {
    let mut dec = PacketDecoder::new();
    let mut tx = DefineTransaction::new();
    for l in lines {
        if let Some(p) = dec.feed_line(l.to_string()) {
            if let Some(r) = tx.on_packet(p) {
                return Some(r);
            }
        }
    }
    None
}

fn strings(v: &[&str]) -> Vec<String> {
    v.iter().map(|s| s.to_string()).collect()
}

#[test]
fn tokenizer_quoted_field() {
    let t = parse_cmd_argument(&String::from("word1 \"multi word field\" word2"));
    assert_eq!(t, strings(&["word1", "multi word field", "word2"]));
}

#[test]
fn tokenizer_single_word_quotes_and_spacing() {
    let t = parse_cmd_argument(&String::from("  \"shortcake\"\twn \"WordNet (r) 3.0\"  "));
    assert_eq!(t, strings(&["shortcake", "wn", "WordNet (r) 3.0"]));
    let t = parse_cmd_argument(&String::from("\"\" x"));
    assert_eq!(t, strings(&["", "x"]));
    assert!(parse_cmd_argument(&String::from("   ")).is_empty());
}

#[test]
fn tokenizer_unterminated_quote_closes_at_end() {
    let t = parse_cmd_argument(&String::from("a \"b c"));
    assert_eq!(t, strings(&["a", "b c"]));
    let t = parse_cmd_argument(&String::from("\" x\""));
    assert_eq!(t, strings(&[" x"]));
}

#[test]
fn reply_from_line() {
    let r = Reply::from_line(String::from("250 ok [d/m/c = 1/0/20; 0.000r 0.000u 0.000s]  ")).unwrap();
    assert_eq!(r.status, Status(ReplyKind::PositiveCompletion, Category::System, 0));
    assert_eq!(r.text, "ok [d/m/c = 1/0/20; 0.000r 0.000u 0.000s]");
    assert_eq!(r.to_string(), "250 ok [d/m/c = 1/0/20; 0.000r 0.000u 0.000s]");
    let r = Reply::from_line(String::from("250")).unwrap();
    assert_eq!(r.text, "");
}

#[test]
fn reply_errors() {
    assert!(matches!(Reply::from_line(String::from("25")), Err(ParseReplyError::FailedToRead)));
    assert!(matches!(
        Reply::from_line(String::from("2x0 hello")),
        Err(ParseReplyError::Status(ParseStatusError::InvalidCategory))
    ));
    assert!(matches!(
        Reply::from_line(String::from("25 hello")),
        Err(ParseReplyError::Status(ParseStatusError::MissingErrNr))
    ));
}

#[test]
fn text_block_is_read_to_the_dot() {
    let mut dec = PacketDecoder::new();
    assert!(dec.feed_line(String::from("151 \"w\" \"db\" \"desc\"\n")).is_none());
    assert!(!dec.is_idle());
    assert!(dec.feed_line(String::from("abc\n")).is_none());
    assert!(dec.feed_line(String::from("def\n")).is_none());
    let p = dec.feed_line(String::from(".\n")).unwrap().unwrap();
    assert!(dec.is_idle());
    match p.0 {
        DICTPacketKind::Definition(d) => assert_eq!(d.text, strings(&["abc", "def"])),
        other => panic!("{:?}", other),
    }
}

#[test]
fn block_lines_keep_inner_text_and_lose_terminators() {
    let mut dec = PacketDecoder::new();
    let out = feed_all(&mut dec, &["151 \"w\" db \"d\"\r\n", "  .\r\n", "..\r\n", "\r\n", ".\r\n"]);
    assert_eq!(out.len(), 1);
    match &out[0] {
        Ok(DICTPacket(DICTPacketKind::Definition(d), _)) => {
            assert_eq!(d.source.name, "db");
            assert_eq!(d.source.desc, "d");
            assert_eq!(d.text, strings(&["  .", "..", ""]));
        }
        other => panic!("{:?}", other),
    }
}

#[test]
fn decoder_dispatch_table() {
    let mut dec = PacketDecoder::new();
    let out = feed_all(&mut dec, &["250 ok\r\n", "150 1 found\r\n", "220 hello <x>\r\n", "330 go on\r\n"]);
    assert!(matches!(out[0], Ok(DICTPacket(DICTPacketKind::OkReply, _))));
    assert!(matches!(out[1], Ok(DICTPacket(DICTPacketKind::DefinitionsFollow, _))));
    assert!(matches!(out[2], Ok(DICTPacket(DICTPacketKind::ReplyOnly, _))));
    assert!(matches!(out[3], Ok(DICTPacket(DICTPacketKind::ReplyOnly, _))));
    let out = feed_all(&mut dec, &["552 no match\r\n", "bad\r\n", "ok\r\n"]);
    match &out[0] {
        Err(DICTError::SystemError(r)) => assert_eq!(r.text, "no match"),
        other => panic!("{:?}", other),
    }
    assert!(matches!(
        out[1],
        Err(DICTError::ReplyError(ParseReplyError::Status(ParseStatusError::MissingErrNr)))
    ));
    assert!(matches!(out[2], Err(DICTError::ReplyError(ParseReplyError::FailedToRead))));
}

#[test]
fn database_and_strategy_lists() {
    let mut dec = PacketDecoder::new();
    let out = feed_all(
        &mut dec,
        &["110 2 databases\r\n", "wn \"WordNet\"\r\n", "gcide \"Collaborative\"\r\n", ".\r\n"],
    );
    match &out[0] {
        Ok(DICTPacket(DICTPacketKind::Databases(dbs), r)) => {
            assert_eq!(dbs.len(), 2);
            assert_eq!(dbs[1].name, "gcide");
            assert_eq!(dbs[1].desc, "Collaborative");
            assert_eq!(r.text, "2 databases");
        }
        other => panic!("{:?}", other),
    }
    let out = feed_all(&mut dec, &["111 1 strategies\r\n", "exact \"Match exactly\"\r\n", ".\r\n"]);
    match &out[0] {
        Ok(DICTPacket(DICTPacketKind::Strategies(s), _)) => {
            assert_eq!(s[0].name, "exact");
            assert_eq!(s[0].desc, "Match exactly");
        }
        other => panic!("{:?}", other),
    }
}

#[test]
fn malformed_answers() {
    let mut dec = PacketDecoder::new();
    let out = feed_all(&mut dec, &["151 \"w\"\r\n", "text\r\n", ".\r\n"]);
    assert!(matches!(out[0], Err(DICTError::MalformedAnswer("Missing database name"))));
    let out = feed_all(&mut dec, &["151 \"w\" db\r\n", ".\r\n"]);
    assert!(matches!(out[0], Err(DICTError::MalformedAnswer("Missing database description"))));
    let out = feed_all(&mut dec, &["152 1 match\r\n", "db1 \"a\"\r\n", "lonely\r\n", ".\r\n"]);
    assert!(matches!(out[0], Err(DICTError::MalformedAnswer("Missing database description"))));
    let out = feed_all(&mut dec, &["110 1\r\n", "   \r\n", ".\r\n"]);
    assert!(matches!(out[0], Err(DICTError::MalformedAnswer("Missing database name"))));
    assert!(dec.is_idle());
    let out = feed_all(&mut dec, &["250 ok\r\n"]);
    assert!(matches!(out[0], Ok(DICTPacket(DICTPacketKind::OkReply, _))));
}

#[test]
fn closing_the_transport() {
    let mut dec = PacketDecoder::new();
    assert!(matches!(dec.close(), DICTError::NoAnswer));
    assert!(dec.feed_line(String::from("152 1\r\n")).is_none());
    assert!(matches!(dec.close(), DICTError::ReadWriteError(_)));
    assert!(dec.is_idle());
}

#[test]
fn define_transaction() {
    let r = run_define(&[
        "150 1 definitions retrieved\r\n",
        "151 \"shortcake\" \"db\" \"desc\"\r\n",
        "A cake.\r\n",
        ".\r\n",
        "250 ok\r\n",
    ])
    .unwrap()
    .unwrap();
    assert_eq!(r.0.len(), 1);
    assert_eq!(r.0[0].source.name, "db");
    assert_eq!(r.0[0].source.desc, "desc");
    assert_eq!(r.0[0].text, strings(&["A cake."]));
    assert_eq!(r.1.status, Status(ReplyKind::PositiveCompletion, Category::System, 0));
}

#[test]
fn define_with_two_definitions() {
    let r = run_define(&[
        "150 2 definitions retrieved\r\n",
        "151 \"cake\" wn \"WordNet\"\r\n",
        "one\r\n",
        ".\r\n",
        "151 \"cake\" gcide \"GCIDE\"\r\n",
        "two\r\n",
        "lines\r\n",
        ".\r\n",
        "250 ok\r\n",
    ])
    .unwrap()
    .unwrap();
    assert_eq!(r.0.len(), 2);
    assert_eq!(r.0[1].source.name, "gcide");
    assert_eq!(r.0[1].text, strings(&["two", "lines"]));
}

#[test]
fn define_refused_at_start() {
    let r = run_define(&["552 no match\r\n"]).unwrap();
    match r {
        Err(DICTError::SystemError(rep)) => assert_eq!(rep.status.to_string(), "552"),
        other => panic!("{:?}", other),
    }
}

#[test]
fn define_drops_definitions_on_error() {
    let mut dec = PacketDecoder::new();
    let mut tx = DefineTransaction::new();
    let mut last = None;
    for l in ["150 1\r\n", "151 \"w\" db \"d\"\r\n", "x\r\n", ".\r\n", "420 down\r\n"] {
        if let Some(p) = dec.feed_line(l.to_string()) {
            last = tx.on_packet(p);
        }
    }
    assert!(matches!(last, Some(Err(DICTError::SystemError(_)))));
    let next = tx.on_packet(Ok(DICTPacket(
        DICTPacketKind::OkReply,
        Reply::from_line(String::from("250 ok")).unwrap(),
    )));
    assert!(matches!(next, Some(Err(DICTError::UnexpectedPacket(_)))));
}

#[test]
fn define_unexpected_packet() {
    let r = run_define(&["150 1\r\n", "152 1\r\n", ".\r\n"]).unwrap();
    assert!(matches!(r, Err(DICTError::UnexpectedPacket(DICTPacket(DICTPacketKind::Matches(_), _)))));
}

#[test]
fn match_transaction() {
    let mut dec = PacketDecoder::new();
    let mut tx = MatchTransaction::new();
    let mut result = None;
    for l in ["152 1 matches found\r\n", "db1 \"hello\"\r\n", ".\r\n", "250 ok\r\n"] {
        if let Some(p) = dec.feed_line(l.to_string()) {
            result = tx.on_packet(p);
        }
    }
    let (matches, reply) = result.unwrap().unwrap();
    assert_eq!(matches.len(), 1);
    assert_eq!(matches[0].source.name, "db1");
    assert_eq!(matches[0].source.desc, "");
    assert_eq!(matches[0].word, "hello");
    assert_eq!(reply.status.to_string(), "152");
}

#[test]
fn match_refused() {
    let mut dec = PacketDecoder::new();
    let mut tx = MatchTransaction::new();
    let p = dec.feed_line(String::from("552 no match\r\n")).unwrap();
    assert!(matches!(tx.on_packet(p), Some(Err(DICTError::SystemError(_)))));
}

#[test]
fn list_transactions_need_the_closing_ok() {
    let mut dec = PacketDecoder::new();
    let mut dbs = ShowDatabasesTransaction::new();
    let mut out = None;
    for l in ["110 1\r\n", "wn \"WordNet\"\r\n", ".\r\n", "330 what\r\n"] {
        if let Some(p) = dec.feed_line(l.to_string()) {
            out = dbs.on_packet(p);
        }
    }
    assert!(matches!(out, Some(Err(DICTError::UnexpectedPacket(DICTPacket(DICTPacketKind::ReplyOnly, _))))));
    let mut strats = ShowStrategiesTransaction::new();
    let mut out = None;
    for l in ["111 1\r\n", "prefix \"Prefix\"\r\n", ".\r\n", "250 ok\r\n"] {
        if let Some(p) = dec.feed_line(l.to_string()) {
            out = strats.on_packet(p);
        }
    }
    let (s, _) = out.unwrap().unwrap();
    assert_eq!(s[0].name, "prefix");
    let mut strats = ShowStrategiesTransaction::new();
    let p = dec.feed_line(String::from("250 ok\r\n")).unwrap();
    assert!(matches!(strats.on_packet(p), Some(Err(DICTError::UnexpectedPacket(_)))));
}

#[test]
fn client_and_greeting() {
    let mut dec = PacketDecoder::new();
    let g = dec.feed_line(String::from("220 dict.org dictd <auth.mime> <1@x>\r\n")).unwrap();
    assert_eq!(greeting_outcome(g).unwrap().status.to_string(), "220");
    let g = dec.feed_line(String::from("250 ok\r\n")).unwrap();
    assert!(matches!(greeting_outcome(g), Err(DICTError::UnexpectedPacket(_))));
    let ok = dec.feed_line(String::from("250 ok\r\n")).unwrap();
    assert_eq!(client_outcome(ok).unwrap().text, "ok");
    let other = dec.feed_line(String::from("220 hi\r\n")).unwrap();
    assert!(matches!(client_outcome(other), Err(DICTError::UnexpectedPacket(_))));
    let refused = dec.feed_line(String::from("500 what\r\n")).unwrap();
    assert!(matches!(client_outcome(refused), Err(DICTError::SystemError(_))));
}

#[test]
fn command_lines() {
    assert_eq!(client_command("redict"), "CLIENT \"redict\"");
    assert_eq!(define_command(&Database::all(), "ti"), "DEFINE \"*\" \"ti\"");
    assert_eq!(
        match_command(&Database::first(), &Strategy::prefix(), "ti"),
        "MATCH ! prefix ti"
    );
    assert_eq!(show_databases_command(), "SHOW DATABASES");
    assert_eq!(show_strategies_command(), "SHOW STRATEGIES");
}

#[test]
fn sentinels() {
    assert_eq!(Database::all().name, "*");
    assert_eq!(Database::first().name, "!");
    assert_eq!(Database::default().desc, "All databases (first match)");
    assert_eq!(Strategy::default().name, ".");
    assert_eq!(Strategy::exact().name, "exact");
    assert_eq!(Strategy::prefix().desc, "");
    let e = Definition::empty();
    assert_eq!(e.source.name, "*");
    assert_eq!(e.text, strings(&["No definition"]));
}

#[test]
fn errors_convert_into_dict_errors() {
    let e = DICTError::from(ParseReplyError::FailedToRead);
    assert!(matches!(e, DICTError::ReplyError(ParseReplyError::FailedToRead)));
    let io = std::io::Error::from(std::io::ErrorKind::BrokenPipe);
    match DICTError::from(io) {
        DICTError::ReadWriteError(inner) => assert_eq!(inner.kind(), std::io::ErrorKind::BrokenPipe),
        other => panic!("{:?}", other),
    }
}
