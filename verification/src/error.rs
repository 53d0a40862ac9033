//! The library's error type.
use vstd::prelude::*;

verus! {

/// What went wrong.
#[derive(Clone, Copy, Debug, PartialEq, Eq, Structural)]
pub enum ErrorKind {
    Bug,
    EmptyInput,
    IoError,
    HttpError,
    AiInvalidReply,
    JsonError,
    Timeout,
}

impl ErrorKind {
    /// The kind's name, as its `Debug` form writes it.
    pub open spec fn spec_name(self) -> Seq<char> {
        match self {
            ErrorKind::Bug => "Bug"@,
            ErrorKind::EmptyInput => "EmptyInput"@,
            ErrorKind::IoError => "IoError"@,
            ErrorKind::HttpError => "HttpError"@,
            ErrorKind::AiInvalidReply => "AiInvalidReply"@,
            ErrorKind::JsonError => "JsonError"@,
            ErrorKind::Timeout => "Timeout"@,
        }
    }

    /// The kind's name.
    pub fn name(&self) -> (r: String)
        ensures
            r@ == self.spec_name(),
    {
        match self {
            ErrorKind::Bug => String::from_str("Bug"),
            ErrorKind::EmptyInput => String::from_str("EmptyInput"),
            ErrorKind::IoError => String::from_str("IoError"),
            ErrorKind::HttpError => String::from_str("HttpError"),
            ErrorKind::AiInvalidReply => String::from_str("AiInvalidReply"),
            ErrorKind::JsonError => String::from_str("JsonError"),
            ErrorKind::Timeout => String::from_str("Timeout"),
        }
    }
}

/// An error: its kind and a message.
#[derive(Clone, Debug, PartialEq, Eq)]
pub struct TheyaError {
    pub kind: ErrorKind,
    pub msg: String,
}

impl TheyaError {
    /// An error of `kind` with `msg`.
    pub fn new(kind: ErrorKind, msg: String) -> (r: Self)
        ensures
            r.kind == kind,
            r.msg == msg,
    {
        TheyaError { kind, msg }
    }

    /// An error of kind `Bug` with the message `msg` (the conversion from a
    /// message).
    pub fn bug(msg: &str) -> (r: Self)
        ensures
            r.kind == ErrorKind::Bug,
            r.msg@ == msg@,
    {
        TheyaError { kind: ErrorKind::Bug, msg: String::from_str(msg) }
    }

    /// The text of the error: `"<kind>: <msg>"`.
    pub open spec fn spec_text(self) -> Seq<char> {
        self.kind.spec_name() + ": "@ + self.msg@
    }

    /// The text of the error: its kind, `": "`, and its message.
    pub fn to_string(&self) -> (r: String)
        ensures
            r@ == self.spec_text(),
    {
        let name = self.kind.name();
        crate::text::concat3(name.as_str(), ": ", self.msg.as_str())
    }

    /// Whether a request that failed with this error is worth starting
    /// again: it timed out.
    pub open spec fn spec_can_retry(self) -> bool {
        self.kind == ErrorKind::Timeout
    }

    /// Whether a request that failed with this error is worth starting
    /// again: it timed out.
    pub fn can_retry(&self) -> (r: bool)
        ensures
            r == self.spec_can_retry(),
    {
        match self.kind {
            ErrorKind::Timeout => true,
            _ => false,
        }
    }
}

} // verus!
