//! The three-digit status code of a reply: its kind, its category and its
//! sub-code, with the textual form `<kind><category><sub-code>`.

use crate::text::{chars_of, digit_value, is_digit, push_char};
use vstd::prelude::*;

verus! {

/// Why a status code could not be read.
#[derive(Debug, Clone, Copy, PartialEq, Eq, Structural)]
pub enum ParseStatusError {
    InvalidReplyKind,
    InvalidCategory,
    MissingErrNr,
}

/// The first digit of a status code.
#[derive(Debug, Clone, Copy, PartialEq, Eq, Structural)]
pub enum ReplyKind {
    PositivePreliminary,
    PositiveCompletion,
    PositiveIntermediate,
    NegativeTransient,
    NegativePermanent,
}

/// The second digit of a status code.
#[derive(Debug, Clone, Copy, PartialEq, Eq, Structural)]
pub enum Category {
    Syntax,
    Information,
    Connection,
    Authentication,
    Unspecified,
    System,
    Nonstandard,
}

/// A status code: kind, category and sub-code.
#[derive(Debug, Clone, Copy, PartialEq, Eq, Structural)]
pub struct Status(pub ReplyKind, pub Category, pub u8);

/// The kind that a digit stands for.
pub open spec fn kind_of_digit(c: char) -> Option<ReplyKind> {
    if c == '1' {
        Some(ReplyKind::PositivePreliminary)
    } else if c == '2' {
        Some(ReplyKind::PositiveCompletion)
    } else if c == '3' {
        Some(ReplyKind::PositiveIntermediate)
    } else if c == '4' {
        Some(ReplyKind::NegativeTransient)
    } else if c == '5' {
        Some(ReplyKind::NegativePermanent)
    } else {
        None
    }
}

/// The category that a digit stands for.
pub open spec fn category_of_digit(c: char) -> Option<Category> {
    if c == '0' {
        Some(Category::Syntax)
    } else if c == '1' {
        Some(Category::Information)
    } else if c == '2' {
        Some(Category::Connection)
    } else if c == '3' {
        Some(Category::Authentication)
    } else if c == '4' {
        Some(Category::Unspecified)
    } else if c == '5' {
        Some(Category::System)
    } else if c == '8' {
        Some(Category::Nonstandard)
    } else {
        None
    }
}

impl ReplyKind {
    pub open spec fn spec_digit(self) -> char {
        match self {
            ReplyKind::PositivePreliminary => '1',
            ReplyKind::PositiveCompletion => '2',
            ReplyKind::PositiveIntermediate => '3',
            ReplyKind::NegativeTransient => '4',
            ReplyKind::NegativePermanent => '5',
        }
    }

    /// The digit of this kind.
    pub fn digit(&self) -> (c: char)
        ensures
            c == self.spec_digit(),
    {
        match self {
            ReplyKind::PositivePreliminary => '1',
            ReplyKind::PositiveCompletion => '2',
            ReplyKind::PositiveIntermediate => '3',
            ReplyKind::NegativeTransient => '4',
            ReplyKind::NegativePermanent => '5',
        }
    }

    /// The kind of a digit; `InvalidReplyKind` outside '1' to '5'.
    pub fn from_digit(c: char) -> (r: Result<ReplyKind, ParseStatusError>)
        ensures
            r == (match kind_of_digit(c) {
                Some(k) => Ok(k),
                None => Err(ParseStatusError::InvalidReplyKind),
            }),
    {
        match c {
            '1' => Ok(ReplyKind::PositivePreliminary),
            '2' => Ok(ReplyKind::PositiveCompletion),
            '3' => Ok(ReplyKind::PositiveIntermediate),
            '4' => Ok(ReplyKind::NegativeTransient),
            '5' => Ok(ReplyKind::NegativePermanent),
            _ => Err(ParseStatusError::InvalidReplyKind),
        }
    }
}

impl Category {
    pub open spec fn spec_digit(self) -> char {
        match self {
            Category::Syntax => '0',
            Category::Information => '1',
            Category::Connection => '2',
            Category::Authentication => '3',
            Category::Unspecified => '4',
            Category::System => '5',
            Category::Nonstandard => '8',
        }
    }

    /// The digit of this category.
    pub fn digit(&self) -> (c: char)
        ensures
            c == self.spec_digit(),
    {
        match self {
            Category::Syntax => '0',
            Category::Information => '1',
            Category::Connection => '2',
            Category::Authentication => '3',
            Category::Unspecified => '4',
            Category::System => '5',
            Category::Nonstandard => '8',
        }
    }

    /// The category of a digit; `InvalidCategory` outside '0' to '5' and '8'.
    pub fn from_digit(c: char) -> (r: Result<Category, ParseStatusError>)
        ensures
            r == (match category_of_digit(c) {
                Some(k) => Ok(k),
                None => Err(ParseStatusError::InvalidCategory),
            }),
    {
        match c {
            '0' => Ok(Category::Syntax),
            '1' => Ok(Category::Information),
            '2' => Ok(Category::Connection),
            '3' => Ok(Category::Authentication),
            '4' => Ok(Category::Unspecified),
            '5' => Ok(Category::System),
            '8' => Ok(Category::Nonstandard),
            _ => Err(ParseStatusError::InvalidCategory),
        }
    }
}

/// The status that a text starts with. Only the first three characters are
/// read; the sub-code digit is checked first, then the kind, then the
/// category.
pub open spec fn parse_status(s: Seq<char>) -> Result<Status, ParseStatusError> {
    if s.len() == 0 {
        Err(ParseStatusError::InvalidReplyKind)
    } else if s.len() == 1 {
        Err(ParseStatusError::InvalidCategory)
    } else if s.len() == 2 || !is_digit(s[2]) {
        Err(ParseStatusError::MissingErrNr)
    } else {
        match kind_of_digit(s[0]) {
            None => Err(ParseStatusError::InvalidReplyKind),
            Some(k) => match category_of_digit(s[1]) {
                None => Err(ParseStatusError::InvalidCategory),
                Some(c) => Ok(Status(k, c, digit_value(s[2]) as u8)),
            },
        }
    }
}

/// A well-formed status text: three characters, each naming a known value.
pub open spec fn is_status_text(s: Seq<char>) -> bool {
    &&& s.len() == 3
    &&& kind_of_digit(s[0]) is Some
    &&& category_of_digit(s[1]) is Some
    &&& is_digit(s[2])
}

/// The decimal digits of a small number.
pub open spec fn decimal_u8(n: u8) -> Seq<char> {
    if n < 10 {
        seq![digit_char(n as nat)]
    } else if n < 100 {
        seq![digit_char(n as nat / 10), digit_char(n as nat % 10)]
    } else {
        seq![digit_char(n as nat / 100), digit_char((n as nat / 10) % 10), digit_char(n as nat % 10)]
    }
}

/// The character of a decimal digit.
pub open spec fn digit_char(d: nat) -> char {
    ((d + 48) as u8) as char
}

fn digit_to_char(d: u8) -> (c: char)
    requires
        d < 10,
    ensures
        c == digit_char(d as nat),
{
    (d + 48) as char
}

impl Status {
    /// A status whose sub-code is a single digit.
    pub open spec fn is_valid(self) -> bool {
        self.2 < 10
    }

    /// The textual form of the status.
    pub open spec fn spec_text(self) -> Seq<char> {
        seq![self.0.spec_digit(), self.1.spec_digit()] + decimal_u8(self.2)
    }

    pub open spec fn spec_is_positive(self) -> bool {
        match self.0 {
            ReplyKind::PositivePreliminary | ReplyKind::PositiveCompletion
            | ReplyKind::PositiveIntermediate => true,
            _ => false,
        }
    }

    /// Reads a status from the first three characters of `s`.
    pub fn parse(s: &str) -> (r: Result<Status, ParseStatusError>)
        ensures
            r == parse_status(s@),
    {
        Status::parse_chars(&chars_of(s))
    }

    /// Reads a status from the first three characters of `v`.
    pub fn parse_chars(v: &Vec<char>) -> (r: Result<Status, ParseStatusError>)
        ensures
            r == parse_status(v@),
    {
        let n = v.len();
        if n == 0 {
            return Err(ParseStatusError::InvalidReplyKind);
        }
        if n == 1 {
            return Err(ParseStatusError::InvalidCategory);
        }
        if n == 2 {
            return Err(ParseStatusError::MissingErrNr);
        }
        let sub = v[2];
        if !('0' <= sub && sub <= '9') {
            return Err(ParseStatusError::MissingErrNr);
        }
        let kind = ReplyKind::from_digit(v[0])?;
        let category = Category::from_digit(v[1])?;
        Ok(Status(kind, category, ((sub as u32) - ('0' as u32)) as u8))
    }

    /// The textual form of the status, the inverse of `parse`.
    pub fn to_string(&self) -> (r: String)
        ensures
            r@ == self.spec_text(),
    {
        let mut r = String::new();
        push_char(&mut r, self.0.digit());
        push_char(&mut r, self.1.digit());
        let n = self.2;
        if n >= 100 {
            push_char(&mut r, digit_to_char(n / 100));
        }
        if n >= 10 {
            push_char(&mut r, digit_to_char((n / 10) % 10));
        }
        push_char(&mut r, digit_to_char(n % 10));
        assert(r@ =~= self.spec_text());
        r
    }

    /// True for the three positive kinds.
    pub fn is_positive(&self) -> (r: bool)
        ensures
            r == self.spec_is_positive(),
    {
        match self.0 {
            ReplyKind::PositiveCompletion | ReplyKind::PositiveIntermediate
            | ReplyKind::PositivePreliminary => true,
            _ => false,
        }
    }

    /// True exactly for the greeting code 220.
    pub fn is_start(&self) -> (r: bool)
        ensures
            r == (*self == Status(ReplyKind::PositiveCompletion, Category::Connection, 0)),
    {
        *self == Status(ReplyKind::PositiveCompletion, Category::Connection, 0)
    }
}

impl std::str::FromStr for Status {
    type Err = ParseStatusError;

    fn from_str(s: &str) -> (r: Result<Status, ParseStatusError>)
        ensures
            r == parse_status(s@),
    {
        Status::parse(s)
    }
}

/// Formatting the status read from a well-formed status text gives that text
/// back.
pub proof fn lemma_format_parse(s: Seq<char>)
    requires
        is_status_text(s),
    ensures
        parse_status(s) is Ok,
        parse_status(s)->Ok_0.is_valid(),
        parse_status(s)->Ok_0.spec_text() == s,
{
    let st = parse_status(s)->Ok_0;
    assert(st.spec_text() =~= s);
}

/// Reading the text of a valid status gives that status back.
pub proof fn lemma_parse_format(st: Status)
    requires
        st.is_valid(),
    ensures
        parse_status(st.spec_text()) == Ok::<Status, ParseStatusError>(st),
{
    let t = st.spec_text();
    assert(t[0] == st.0.spec_digit());
    assert(t[1] == st.1.spec_digit());
    assert(t[2] == digit_char(st.2 as nat));
}

/// Which error a malformed status text gives: a bad first digit gives
/// `InvalidReplyKind`, a bad second digit after a good first one gives
/// `InvalidCategory` (both where a sub-code digit is present, as it is checked
/// first), and a two-character text gives `MissingErrNr`.
pub proof fn lemma_parse_errors(s: Seq<char>)
    ensures
        s.len() >= 3 && is_digit(s[2]) && kind_of_digit(s[0]) is None ==> parse_status(s) == Err::<
            Status,
            ParseStatusError,
        >(ParseStatusError::InvalidReplyKind),
        s.len() >= 3 && is_digit(s[2]) && kind_of_digit(s[0]) is Some && category_of_digit(
            s[1],
        ) is None ==> parse_status(s) == Err::<Status, ParseStatusError>(
            ParseStatusError::InvalidCategory,
        ),
        s.len() == 2 ==> parse_status(s) == Err::<Status, ParseStatusError>(
            ParseStatusError::MissingErrNr,
        ),
{
}

} // verus!
