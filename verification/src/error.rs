//! The errors that handling a request can end in.

use vstd::prelude::*;

verus! {

/// The kind of failure. The kinds do not overlap: every failure of a request
/// is reported under exactly one of them.
#[derive(Debug, Clone, Copy, PartialEq, Eq, Hash, Structural)]
#[non_exhaustive]
pub enum ErrorKind {
    /// The request has no `Content-Type` header.
    ContentTypeNotFound,
    /// The value of `Content-Type` is not UTF-8.
    ReadContentTypeFailed,
    /// The value of `Content-Type` does not start with `application/json`.
    ContentTypeMismatch,
    /// The request has no `X-TRAQ-BOT-TOKEN` header.
    BotTokenNotFound,
    /// The value of `X-TRAQ-BOT-TOKEN` is not UTF-8 or holds a byte that a
    /// header value may not hold.
    ReadBotTokenFailed,
    /// The value of `X-TRAQ-BOT-TOKEN` differs from the verification token.
    BotTokenMismatch,
    /// The request has no `X-TRAQ-BOT-EVENT` header.
    BotEventNotFound,
    /// The value of `X-TRAQ-BOT-EVENT` is not UTF-8 or holds a byte that a
    /// header value may not hold.
    ReadBotEventFailed,
    /// The value of `X-TRAQ-BOT-EVENT` names no known event.
    BotEventMismatch,
    /// The body could not be read, or is not UTF-8.
    ReadBodyFailed,
    /// The body is not the JSON payload of the event named in the header.
    ParseBodyFailed,
}

impl ErrorKind {
    /// The message that describes this kind.
    pub open spec fn message(self) -> Seq<char> {
        match self {
            ErrorKind::ContentTypeNotFound => "Content-Type is not set"@,
            ErrorKind::ReadContentTypeFailed => "Failed to read Content-Type value"@,
            ErrorKind::ContentTypeMismatch =>
                "Content-Type value is wrong; it must be application/json"@,
            ErrorKind::BotTokenNotFound => "X-TRAQ-BOT-TOKEN is not set"@,
            ErrorKind::ReadBotTokenFailed => "Failed to read X-TRAQ-BOT-TOKEN value"@,
            ErrorKind::BotTokenMismatch => "X-TRAQ-BOT-TOKEN value is wrong"@,
            ErrorKind::BotEventNotFound => "X-TRAQ-BOT-EVENT is not set"@,
            ErrorKind::ReadBotEventFailed => "Failed to read X-TRAQ-BOT-EVENT value"@,
            ErrorKind::BotEventMismatch => "X-TRAQ-BOT-EVENT value is wrong"@,
            ErrorKind::ReadBodyFailed => "Failed to read request body"@,
            ErrorKind::ParseBodyFailed => "Failed to parse request body"@,
        }
    }

    /// The message of this kind, as a string slice.
    pub fn as_str(self) -> (text: &'static str)
        ensures
            text@ == self.message(),
    {
        match self {
            ErrorKind::ContentTypeNotFound => "Content-Type is not set",
            ErrorKind::ReadContentTypeFailed => "Failed to read Content-Type value",
            ErrorKind::ContentTypeMismatch =>
                "Content-Type value is wrong; it must be application/json",
            ErrorKind::BotTokenNotFound => "X-TRAQ-BOT-TOKEN is not set",
            ErrorKind::ReadBotTokenFailed => "Failed to read X-TRAQ-BOT-TOKEN value",
            ErrorKind::BotTokenMismatch => "X-TRAQ-BOT-TOKEN value is wrong",
            ErrorKind::BotEventNotFound => "X-TRAQ-BOT-EVENT is not set",
            ErrorKind::ReadBotEventFailed => "Failed to read X-TRAQ-BOT-EVENT value",
            ErrorKind::BotEventMismatch => "X-TRAQ-BOT-EVENT value is wrong",
            ErrorKind::ReadBodyFailed => "Failed to read request body",
            ErrorKind::ParseBodyFailed => "Failed to parse request body",
        }
    }

    /// The message of this kind, as an owned string.
    pub fn to_string(&self) -> (text: String)
        ensures
            text@ == self.message(),
    {
        self.as_str().to_owned()
    }
}

/// An error met while handling a request. What failed is told by
/// [`Error::kind`].
#[derive(Debug)]
pub struct Error {
    kind: ErrorKind,
}

impl View for Error {
    type V = ErrorKind;

    closed spec fn view(&self) -> ErrorKind {
        self.kind
    }
}

impl Error {
    /// An error of the given kind.
    pub fn new(kind: ErrorKind) -> (error: Error)
        ensures
            error@ == kind,
    {
        Error { kind }
    }

    /// The kind of this error.
    pub fn kind(&self) -> (kind: ErrorKind)
        ensures
            kind == self@,
    {
        self.kind
    }

    /// The message of this error's kind, as an owned string.
    pub fn to_string(&self) -> (text: String)
        ensures
            text@ == self@.message(),
    {
        self.kind.to_string()
    }
}

impl From<ErrorKind> for Error {
    fn from(kind: ErrorKind) -> (error: Error)
        ensures
            error@ == kind,
    {
        Error { kind }
    }
}

impl vstd::std_specs::convert::FromSpecImpl<ErrorKind> for Error {
    open spec fn obeys_from_spec() -> bool {
        true
    }

    closed spec fn from_spec(kind: ErrorKind) -> Error {
        Error { kind }
    }
}

} // verus!
