//! What the rooms say: a phrase of the catalogue with what fills it in, left
//! to the screen to put into the reader's language.

use vstd::prelude::*;

verus! {

/// What fills one gap of a phrase.
#[derive(Debug, PartialEq)]
pub enum Arg {
    /// As it stands.
    Text(String),
    /// In decimal.
    Num(i64),
    /// In decimal, never negative.
    Nat(u64),
    /// In decimal, with thousands separators.
    Count(u64),
    /// In decimal, at least two digits.
    TwoDigits(u64),
    /// A byte count in words.
    Bytes(u64),
    /// The first divided by the second, with one decimal where it is not whole.
    Ratio(u64, u64),
    /// Another phrase.
    Phrase(Box<Msg>),
}

/// A gap's name and its filling.
#[derive(Debug, PartialEq)]
pub struct Fill {
    pub name: &'static str,
    pub arg: Arg,
}

/// One thing to say.
#[derive(Debug, PartialEq)]
pub enum Msg {
    /// These words, in no language of ours: a name, a number, a path.
    Raw(String),
    /// A phrase by its key in the catalogue, and the gaps it has.
    Key(&'static str),
    One(&'static str, Fill),
    Two(&'static str, Fill, Fill),
    Three(&'static str, Fill, Fill, Fill),
    Four(&'static str, Fill, Fill, Fill, Fill),
    Five(&'static str, Fill, Fill, Fill, Fill, Fill),
    /// A name by its place in one of the catalogue's lists.
    Listed(&'static str, u32),
    /// A phrase, a colon, and what went wrong.
    Failed(&'static str, ApiError),
    /// A phrase with one gap, a colon, and what went wrong.
    FailedOn(&'static str, Fill, ApiError),
    /// One thing right after another.
    Both(Box<Msg>, Box<Msg>),
}

/// A line of status: what it says and whether it is an error.
#[derive(Debug, PartialEq)]
pub struct Note {
    pub msg: Msg,
    pub error: bool,
}

/// A call to the server that failed.
#[derive(Debug, PartialEq)]
pub enum ApiError {
    Unauthorized,
    Forbidden(String),
    NotFound(String),
    Network(String),
    Server { status: u16, message: String },
    Decode { endpoint: String, message: String },
}

/// What a failed load means: the refusals a terminal client meets (no session, a
/// non-admin account or an address restriction, a locked admin panel) by
/// their own sentences, anything else as `what` with the error's words.
pub open spec fn gate(e: ApiError, what: &'static str) -> Msg {
    match e {
        ApiError::Unauthorized => Msg::Key("admin.gate_unauthorized"),
        ApiError::Forbidden(err) => Msg::One("admin.gate_forbidden", Fill { name: "err", arg: Arg::Text(err) }),
        ApiError::Server { status, message } => if status == 405 {
            Msg::Key("admin.gate_locked")
        } else {
            Msg::Failed(what, e)
        },
        _ => Msg::Failed(what, e),
    }
}

/// The sentence for a failed call.
pub fn gate_message(e: ApiError, what: &'static str) -> (out: Msg)
    ensures
        out == gate(e, what),
{
    match e {
        ApiError::Unauthorized => Msg::Key("admin.gate_unauthorized"),
        ApiError::Forbidden(err) => Msg::One("admin.gate_forbidden", Fill { name: "err", arg: Arg::Text(err) }),
        ApiError::Server { status, message } => {
            if status == 405 {
                Msg::Key("admin.gate_locked")
            } else {
                Msg::Failed(what, ApiError::Server { status, message })
            }
        },
        other => Msg::Failed(what, other),
    }
}

/// A phrase with one gap.
pub open spec fn one(key: &'static str, name: &'static str, arg: Arg) -> Msg {
    Msg::One(key, Fill { name, arg })
}

/// Words of no language.
pub open spec fn reads(msg: Msg, text: Seq<char>) -> bool {
    msg matches Msg::Raw(s) && s@ == text
}

/// What stands where there is nothing to say.
pub fn dash() -> (out: Msg)
    ensures
        reads(out, "—"@),
{
    Msg::Raw("—".to_owned())
}

/// An error on the status line.
pub open spec fn error(msg: Msg) -> Option<Note> {
    Some(Note { msg, error: true })
}

/// A plain remark on the status line.
pub open spec fn remark(msg: Msg) -> Option<Note> {
    Some(Note { msg, error: false })
}

/// A gap filled with a text.
pub open spec fn filled(fill: Fill, name: &'static str, text: Seq<char>) -> bool {
    fill.name == name && (fill.arg matches Arg::Text(s) && s@ == text)
}

/// A phrase whose one gap is filled with a text.
pub open spec fn says(msg: Msg, key: &'static str, name: &'static str, text: Seq<char>) -> bool {
    msg matches Msg::One(k, fill) && k == key && filled(fill, name, text)
}

} // verus!
