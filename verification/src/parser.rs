//! The request parser: the checks on the headers, and the decoding of the body.

use std::sync::Arc;

use vstd::prelude::*;
use vstd::string::StringSliceAdditionalSpecFns;
use vstd::utf8::*;

use crate::error::{Error, ErrorKind};
use crate::events::{Event, EventKind, EventView};
use crate::json::{json_from_text, value_from_str};
use crate::text::{bytes_eq, bytes_eq_ignore_ascii_case, eq_ignore_ascii_case, starts_with, utf8_text};

mod laws;
mod request;

pub use self::laws::{
    lemma_checks_are_ordered, lemma_decoded_event_has_kind, lemma_header_errors,
    lemma_header_names_are_ascii, lemma_header_names_case_insensitive,
    lemma_header_value_ignores_name_case, lemma_header_value_is_last_match,
    lemma_headers_come_before_body, lemma_missing_content_type_comes_first,
    lemma_name_that_is_not_utf8_is_skipped, lemma_other_header_is_skipped,
    lemma_steps_agree_with_parse, lemma_valid_header_value_is_utf8,
    lemma_validation_is_repeatable, same_up_to_name_case,
};
pub use self::request::{collected_outcome, BodyPoll, ParseRequest, Poll};

verus! {

/// Whether a result with an [`Error`] is the expected result: the same value
/// on success, an error of the expected kind on failure.
pub open spec fn is_outcome<T>(result: Result<T, Error>, expected: Result<T, ErrorKind>) -> bool {
    match expected {
        Ok(value) => result == Ok::<T, Error>(value),
        Err(kind) => result matches Err(error) && error@ == kind,
    }
}

/// The name of the content type header, in small letters.
pub open spec fn content_type_header() -> Seq<u8> {
    "content-type".spec_bytes()
}

/// The name of the header that carries the verification token, in small
/// letters.
pub open spec fn bot_token_header() -> Seq<u8> {
    "x-traq-bot-token".spec_bytes()
}

/// The name of the header that carries the event name, in small letters.
pub open spec fn bot_event_header() -> Seq<u8> {
    "x-traq-bot-event".spec_bytes()
}

/// What the value of the content type header has to begin with.
pub open spec fn json_content_type() -> Seq<u8> {
    "application/json".spec_bytes()
}

/// The value of the header called `name`, the case of ASCII letters left
/// aside. Where several headers have that name, the last of them counts.
pub open spec fn header_value(headers: Seq<(Seq<u8>, Seq<u8>)>, name: Seq<u8>) -> Option<Seq<u8>>
    decreases headers.len(),
{
    if headers.len() == 0 {
        None
    } else if eq_ignore_ascii_case(headers.last().0, name) {
        Some(headers.last().1)
    } else {
        header_value(headers.drop_last(), name)
    }
}

/// Whether every byte is one that a header value may hold: a visible ASCII
/// character, a space or a horizontal tab.
pub open spec fn spec_valid_header_value(value: Seq<u8>) -> bool {
    forall|i: int| 0 <= i < value.len() ==> is_header_value_byte(#[trigger] value[i])
}

/// A visible ASCII character, a space or a horizontal tab.
pub open spec fn is_header_value_byte(byte: u8) -> bool {
    0x20 <= byte <= 0x7e || byte == 0x09
}

/// The first check: the failure of the content type header, if it fails.
pub open spec fn content_type_failure(headers: Seq<(Seq<u8>, Seq<u8>)>) -> Option<ErrorKind> {
    match header_value(headers, content_type_header()) {
        None => Some(ErrorKind::ContentTypeNotFound),
        Some(value) => if !valid_utf8(value) {
            Some(ErrorKind::ReadContentTypeFailed)
        } else if !json_content_type().is_prefix_of(value) {
            Some(ErrorKind::ContentTypeMismatch)
        } else {
            None
        },
    }
}

/// The second check: the failure of the token header, if it fails. `token`
/// holds the bytes of the verification token.
pub open spec fn bot_token_failure(headers: Seq<(Seq<u8>, Seq<u8>)>, token: Seq<u8>) -> Option<
    ErrorKind,
> {
    match header_value(headers, bot_token_header()) {
        None => Some(ErrorKind::BotTokenNotFound),
        Some(value) => if !valid_utf8(value) || !spec_valid_header_value(value) {
            Some(ErrorKind::ReadBotTokenFailed)
        } else if value != token {
            Some(ErrorKind::BotTokenMismatch)
        } else {
            None
        },
    }
}

/// The third check: the kind that the event header names, or its failure.
pub open spec fn bot_event_outcome(headers: Seq<(Seq<u8>, Seq<u8>)>) -> Result<
    EventKind,
    ErrorKind,
> {
    match header_value(headers, bot_event_header()) {
        None => Err(ErrorKind::BotEventNotFound),
        Some(value) => if !valid_utf8(value) || !spec_valid_header_value(value) {
            Err(ErrorKind::ReadBotEventFailed)
        } else {
            match EventKind::spec_from_wire_name(decode_utf8(value)) {
                Some(kind) => Ok(kind),
                None => Err(ErrorKind::BotEventMismatch),
            }
        },
    }
}

/// The outcome of the three checks, made in this order: content type, token,
/// event. The first check that fails decides the error.
pub open spec fn headers_outcome(headers: Seq<(Seq<u8>, Seq<u8>)>, token: Seq<u8>) -> Result<
    EventKind,
    ErrorKind,
> {
    match content_type_failure(headers) {
        Some(kind) => Err(kind),
        None => match bot_token_failure(headers, token) {
            Some(kind) => Err(kind),
            None => bot_event_outcome(headers),
        },
    }
}

/// The outcome of decoding the text of a body as the payload of an event of
/// the given kind: the event, or `ParseBodyFailed` where the text is not JSON
/// or the JSON does not describe such a payload.
pub open spec fn body_outcome(kind: EventKind, body: Seq<char>) -> Result<EventView, ErrorKind> {
    match json_from_text(body) {
        Some(json) => match Event::from_json(kind, json) {
            Some(event) => Ok(event),
            None => Err(ErrorKind::ParseBodyFailed),
        },
        None => Err(ErrorKind::ParseBodyFailed),
    }
}

/// The outcome of a whole request. The headers are checked first and their
/// failure is the failure of the request; then the body has to be UTF-8,
/// else `ReadBodyFailed`; then it is decoded as the payload of the kind that
/// the headers name.
pub open spec fn request_outcome(
    headers: Seq<(Seq<u8>, Seq<u8>)>,
    token: Seq<u8>,
    body: Seq<u8>,
) -> Result<EventView, ErrorKind> {
    match headers_outcome(headers, token) {
        Err(kind) => Err(kind),
        Ok(kind) => if valid_utf8(body) {
            body_outcome(kind, decode_utf8(body))
        } else {
            Err(ErrorKind::ReadBodyFailed)
        },
    }
}

/// Whether a result with an event is the expected result: an event that
/// holds what is expected on success, an error of the expected kind on
/// failure.
pub open spec fn is_event_outcome(
    result: Result<Event, Error>,
    expected: Result<EventView, ErrorKind>,
) -> bool {
    match expected {
        Ok(view) => result matches Ok(event) && event@ == view,
        Err(kind) => result matches Err(error) && error@ == kind,
    }
}

/// Decodes the text of a body as the payload of an event of the given kind.
pub fn parse_body(kind: EventKind, body: &str) -> (event: Result<Event, Error>)
    ensures
        is_event_outcome(event, body_outcome(kind, body@)),
        event matches Ok(e) ==> e.kind() == kind,
{
    let value = match value_from_str(body) {
        Some(value) => value,
        None => {
            return Err(Error::new(ErrorKind::ParseBodyFailed));
        },
    };
    match Event::decode(kind, &value) {
        Some(event) => Ok(event),
        None => Err(Error::new(ErrorKind::ParseBodyFailed)),
    }
}

/// Whether `value` holds only bytes that a header value may hold.
pub fn valid_header_value(value: &str) -> (valid: bool)
    ensures
        valid == spec_valid_header_value(value.spec_bytes()),
{
    let bytes = value.as_bytes();
    let mut i: usize = 0;
    while i < bytes.len()
        invariant
            bytes@ == value.spec_bytes(),
            i <= bytes@.len(),
            forall|j: int| 0 <= j < i ==> is_header_value_byte(#[trigger] bytes@[j]),
        decreases bytes@.len() - i,
    {
        let byte = bytes[i];
        if !((0x20 <= byte && byte <= 0x7e) || byte == 0x09) {
            assert(!is_header_value_byte(bytes@[i as int]));
            return false;
        }
        i += 1;
    }
    true
}

/// Looks a header up by its name.
pub fn find_header<'a>(headers: &[(&'a [u8], &'a [u8])], name: &[u8]) -> (value: Option<&'a [u8]>)
    ensures
        match value {
            Some(bytes) => header_value(headers.deep_view(), name@) == Some(bytes@),
            None => header_value(headers.deep_view(), name@) is None,
        },
{
    let ghost all = headers.deep_view();
    let mut found: Option<&'a [u8]> = None;
    let mut i: usize = 0;
    while i < headers.len()
        invariant
            all == headers.deep_view(),
            i <= headers@.len(),
            match found {
                Some(bytes) => header_value(all.take(i as int), name@) == Some(bytes@),
                None => header_value(all.take(i as int), name@) is None,
            },
        decreases headers@.len() - i,
    {
        let header = &headers[i];
        proof {
            let next = all.take(i + 1);
            assert(next.last() == (header.0@, header.1@));
            assert(next.drop_last() =~= all.take(i as int));
        }
        if bytes_eq_ignore_ascii_case(header.0, name) {
            found = Some(header.1);
        }
        i += 1;
    }
    assert(all.take(i as int) =~= all);
    found
}

/// What a [`RequestParser`] holds.
#[derive(Debug, Clone, PartialEq, Eq, Hash)]
pub(crate) struct Inner {
    verification_token: String,
}

impl Inner {
    pub(crate) closed spec fn token(&self) -> Seq<char> {
        self.verification_token@
    }

    pub(crate) fn new(verification_token: &str) -> (inner: Inner)
        ensures
            inner.token() == verification_token@,
    {
        Inner { verification_token: verification_token.to_owned() }
    }
}

/// A parser of the requests sent to one bot. It holds the bot's verification
/// token and nothing else, and never changes.
#[derive(Debug, Clone)]
pub struct RequestParser {
    inner: Arc<Inner>,
}

impl RequestParser {
    /// The verification token that requests have to carry.
    pub closed spec fn verification_token(&self) -> Seq<char> {
        self.inner.token()
    }

    /// A parser for the bot with the given verification token.
    pub fn new(verification_token: &str) -> (parser: RequestParser)
        ensures
            parser.verification_token() == verification_token@,
    {
        RequestParser { inner: Arc::new(Inner::new(verification_token)) }
    }

    /// Checks the headers of a request and tells the kind of its event.
    ///
    /// The checks are made in order, and the first that fails decides the
    /// error:
    ///
    /// 1. `Content-Type`: `ContentTypeNotFound` where it is missing,
    ///    `ReadContentTypeFailed` where its value is not UTF-8,
    ///    `ContentTypeMismatch` where the value does not start with
    ///    `application/json`.
    /// 2. `X-TRAQ-BOT-TOKEN`: `BotTokenNotFound` where it is missing,
    ///    `ReadBotTokenFailed` where its value is not UTF-8 or holds a byte
    ///    other than a visible ASCII character, a space or a tab,
    ///    `BotTokenMismatch` where the value is not the verification token,
    ///    byte for byte.
    /// 3. `X-TRAQ-BOT-EVENT`: `BotEventNotFound`, `ReadBotEventFailed` in the
    ///    same way, and `BotEventMismatch` where the value is the wire name
    ///    of no event kind.
    ///
    /// Header names are compared without regard to the case of ASCII letters.
    /// Where a name occurs more than once, its last occurrence in `headers`
    /// is the one that counts.
    pub fn parse_headers(&self, headers: &[(&[u8], &[u8])]) -> (kind: Result<EventKind, Error>)
        ensures
            is_outcome(
                kind,
                headers_outcome(headers.deep_view(), encode_utf8(self.verification_token())),
            ),
    {
        let content_type = match find_header(headers, "content-type".as_bytes()) {
            Some(value) => value,
            None => {
                return Err(Error::new(ErrorKind::ContentTypeNotFound));
            },
        };
        if utf8_text(content_type).is_none() {
            return Err(Error::new(ErrorKind::ReadContentTypeFailed));
        }
        if !starts_with(content_type, "application/json".as_bytes()) {
            return Err(Error::new(ErrorKind::ContentTypeMismatch));
        }
        let token = match find_header(headers, "x-traq-bot-token".as_bytes()) {
            Some(value) => value,
            None => {
                return Err(Error::new(ErrorKind::BotTokenNotFound));
            },
        };
        let token = match utf8_text(token) {
            Some(text) => text,
            None => {
                return Err(Error::new(ErrorKind::ReadBotTokenFailed));
            },
        };
        if !valid_header_value(token) {
            return Err(Error::new(ErrorKind::ReadBotTokenFailed));
        }
        if !bytes_eq(token.as_bytes(), self.inner.verification_token.as_str().as_bytes()) {
            return Err(Error::new(ErrorKind::BotTokenMismatch));
        }
        let event = match find_header(headers, "x-traq-bot-event".as_bytes()) {
            Some(value) => value,
            None => {
                return Err(Error::new(ErrorKind::BotEventNotFound));
            },
        };
        let event = match utf8_text(event) {
            Some(text) => text,
            None => {
                return Err(Error::new(ErrorKind::ReadBotEventFailed));
            },
        };
        if !valid_header_value(event) {
            return Err(Error::new(ErrorKind::ReadBotEventFailed));
        }
        EventKind::from_wire_name(event)
    }

    /// Parses a request: checks its headers as [`RequestParser::parse_headers`]
    /// does, and decodes its body as the payload of the event that the
    /// headers name.
    ///
    /// The errors are those of the headers, then `ReadBodyFailed` where the
    /// body is not UTF-8, then `ParseBodyFailed` where the body is not the
    /// JSON of such a payload. The body is not looked at unless the headers
    /// have passed.
    pub fn parse(&self, headers: &[(&[u8], &[u8])], body: &[u8]) -> (event: Result<Event, Error>)
        ensures
            is_event_outcome(
                event,
                request_outcome(
                    headers.deep_view(),
                    encode_utf8(self.verification_token()),
                    body@,
                ),
            ),
    {
        let kind = match self.parse_headers(headers) {
            Ok(kind) => kind,
            Err(error) => {
                return Err(error);
            },
        };
        let body = match utf8_text(body) {
            Some(text) => text,
            None => {
                return Err(Error::new(ErrorKind::ReadBodyFailed));
            },
        };
        parse_body(kind, body)
    }

    /// Starts parsing a request whose body is yet to be collected. The
    /// headers are checked here and now, as [`RequestParser::parse_headers`]
    /// does; the body is left to [`ParseRequest::poll`].
    pub fn parse_request(&self, headers: &[(&[u8], &[u8])]) -> (request: ParseRequest)
        ensures
            request matches ParseRequest::ParseEventKind { outcome } && is_outcome(
                outcome,
                headers_outcome(headers.deep_view(), encode_utf8(self.verification_token())),
            ),
    {
        ParseRequest::new(self.parse_headers(headers))
    }
}

} // verus!
