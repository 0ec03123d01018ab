//! One reply line of the server: a status code and free text.

use crate::status::{parse_status, ParseStatusError, Status};
use crate::text::{chars_of, trim, trimmed_from};
use vstd::prelude::*;

verus! {

/// Why a reply line could not be read.
#[derive(Debug, Clone, Copy, PartialEq, Eq, Structural)]
pub enum ParseReplyError {
    /// The status code is malformed.
    Status(ParseStatusError),
    /// The line is shorter than a status code, or there was no line.
    FailedToRead,
}

/// A decoded reply line.
#[derive(Debug, Clone)]
pub struct Reply {
    pub status: Status,
    pub text: String,
}

pub struct ReplyView {
    pub status: Status,
    pub text: Seq<char>,
}

impl View for Reply {
    type V = ReplyView;

    open spec fn view(&self) -> ReplyView {
        ReplyView { status: self.status, text: self.text@ }
    }
}

/// What a line decodes to: the status from its first three characters and
/// the rest, trimmed, as text.
pub open spec fn reply_of_line(l: Seq<char>) -> Result<ReplyView, ParseReplyError> {
    if l.len() < 3 {
        Err(ParseReplyError::FailedToRead)
    } else {
        match parse_status(l.take(3)) {
            Err(e) => Err(ParseReplyError::Status(e)),
            Ok(st) => Ok(ReplyView { status: st, text: trim(l.skip(3)) }),
        }
    }
}

/// The textual form of a reply: its status, a space and its text.
pub open spec fn reply_text(r: ReplyView) -> Seq<char> {
    r.status.spec_text() + seq![' '] + r.text
}

impl Reply {
    /// Decodes one line (without its line terminator).
    pub fn from_line(line: String) -> (r: Result<Reply, ParseReplyError>)
        ensures
            match reply_of_line(line@) {
                Ok(v) => r is Ok && r->Ok_0@ == v,
                Err(e) => r == Err::<Reply, ParseReplyError>(e),
            },
    {
        Reply::from_chars(&chars_of(line.as_str()))
    }

    /// Decodes one line given as characters.
    pub fn from_chars(v: &Vec<char>) -> (r: Result<Reply, ParseReplyError>)
        ensures
            match reply_of_line(v@) {
                Ok(rv) => r is Ok && r->Ok_0@ == rv,
                Err(e) => r == Err::<Reply, ParseReplyError>(e),
            },
    {
        if v.len() < 3 {
            return Err(ParseReplyError::FailedToRead);
        }
        assert(parse_status(v@.take(3)) == parse_status(v@));
        let status = match Status::parse_chars(v) {
            Ok(s) => s,
            Err(e) => {
                return Err(ParseReplyError::Status(e));
            },
        };
        let text = trimmed_from(v, 3);
        assert(v@.subrange(3, v@.len() as int) == v@.skip(3));
        Ok(Reply { status, text })
    }

    /// The textual form of the reply: status, a space, then the text.
    pub fn to_string(&self) -> (r: String)
        ensures
            r@ == reply_text(self@),
    {
        let mut r = self.status.to_string();
        r.append(" ");
        r.append(self.text.as_str());
        proof {
            reveal_strlit(" ");
        }
        r
    }
}

} // verus!
