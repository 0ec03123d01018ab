use redict::status::{Category, ParseStatusError, ReplyKind, Status};
use std::str::FromStr;

#[test]
fn status_basic_parsing() {
    let ok = Status::from_str("250").unwrap();

    assert_eq!(ok, Status(ReplyKind::PositiveCompletion, Category::System, 0));
}

#[test]
fn invalid_reply() {
    if let Err(ParseStatusError::InvalidReplyKind) = Status::from_str("700") {
        // Do nothing
    } else {
        panic!();
    }
}

#[test]
fn invalid_category() {
    if let Err(ParseStatusError::InvalidCategory) = Status::from_str("170") {
        // Do nothing
    } else {
        panic!();
    }
}

#[test]
fn missing_errno() {
    if let Err(ParseStatusError::MissingErrNr) = Status::from_str("17") {
        // Do nothing
    } else {
        panic!();
    }
}

#[test]
fn status_text_round_trip() {
    for s in ["110", "150", "151", "152", "220", "250", "330", "420", "552", "554", "288", "304"] {
        let st = Status::parse(s).unwrap();
        assert_eq!(st.to_string(), s);
    }
}

#[test]
fn status_format_then_parse() {
    let st = Status(ReplyKind::NegativePermanent, Category::Nonstandard, 7);
    assert_eq!(st.to_string(), "587");
    assert_eq!(Status::parse(&st.to_string()), Ok(st));
}

#[test]
fn status_wide_subcode_is_written_in_full() {
    let st = Status(ReplyKind::PositiveCompletion, Category::System, 123);
    assert_eq!(st.to_string(), "25123");
}

#[test]
fn status_errors_by_position() {
    assert_eq!(Status::parse(""), Err(ParseStatusError::InvalidReplyKind));
    assert_eq!(Status::parse("2"), Err(ParseStatusError::InvalidCategory));
    assert_eq!(Status::parse("70"), Err(ParseStatusError::MissingErrNr));
    assert_eq!(Status::parse("25x"), Err(ParseStatusError::MissingErrNr));
    assert_eq!(Status::parse("060"), Err(ParseStatusError::InvalidReplyKind));
    assert_eq!(Status::parse("260"), Err(ParseStatusError::InvalidCategory));
    assert_eq!(Status::parse("270"), Err(ParseStatusError::InvalidCategory));
    assert_eq!(Status::parse("770"), Err(ParseStatusError::InvalidReplyKind));
}

#[test]
fn status_reads_only_three_characters() {
    assert_eq!(
        Status::parse("2501"),
        Ok(Status(ReplyKind::PositiveCompletion, Category::System, 0))
    );
}

#[test]
fn status_classification() {
    assert!(Status::parse("150").unwrap().is_positive());
    assert!(Status::parse("250").unwrap().is_positive());
    assert!(Status::parse("330").unwrap().is_positive());
    assert!(!Status::parse("420").unwrap().is_positive());
    assert!(!Status::parse("552").unwrap().is_positive());
    assert!(Status::parse("220").unwrap().is_start());
    assert!(!Status::parse("221").unwrap().is_start());
    assert!(!Status::parse("250").unwrap().is_start());
}

#[test]
fn digits_of_kinds_and_categories() {
    assert_eq!(ReplyKind::from_digit('3'), Ok(ReplyKind::PositiveIntermediate));
    assert_eq!(ReplyKind::from_digit('0'), Err(ParseStatusError::InvalidReplyKind));
    assert_eq!(Category::from_digit('8'), Ok(Category::Nonstandard));
    assert_eq!(Category::from_digit('6'), Err(ParseStatusError::InvalidCategory));
    assert_eq!(ReplyKind::NegativeTransient.digit(), '4');
    assert_eq!(Category::Authentication.digit(), '3');
}
