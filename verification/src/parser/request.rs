//! Parsing a request whose body arrives over time.
//!
//! The headers are there at once, the body has to be collected first. What
//! is decided along the way is kept apart from the waiting: a
//! [`ParseRequest`] says where the parsing stands, whoever drives it polls
//! the body and reports what came of it, and [`ParseRequest::poll`] says how
//! to go on.

use vstd::prelude::*;
use vstd::utf8::*;

use crate::error::{Error, ErrorKind};
use crate::events::{Event, EventKind};
use crate::parser::{body_outcome, is_event_outcome, parse_body};
use crate::text::utf8_text;

verus! {

/// The parsing of a request that is under way.
#[derive(Debug)]
pub enum ParseRequest {
    /// The headers have been checked and their outcome is yet to be looked
    /// at. The body has not been touched.
    ParseEventKind { outcome: Result<EventKind, Error> },
    /// The headers have failed the checks. The body will not be touched.
    ParseEventKindFailed { error: Error },
    /// The headers name an event of this kind, and the body is being
    /// collected.
    ParseBody { kind: EventKind },
}

/// What polling the body of a request has come to.
#[derive(Debug, Clone, Copy)]
pub enum BodyPoll<'a> {
    /// The body is not complete yet.
    Pending,
    /// The body cannot be had: the transport has failed.
    Failed,
    /// The body is complete, and these are its bytes.
    Collected(&'a [u8]),
}

/// What a step of the parsing has come to.
#[derive(Debug)]
pub enum Poll {
    /// The parsing goes on from `next`. Where `wake` is set it can go on at
    /// once, else when the body has made progress.
    Pending { next: ParseRequest, wake: bool },
    /// The parsing has ended with this result.
    Ready(Result<Event, Error>),
}

/// The outcome of a body of the given kind of event, once it is complete:
/// `ReadBodyFailed` where it is not UTF-8, else what decoding its text gives.
pub open spec fn collected_outcome(kind: EventKind, body: Seq<u8>) -> Result<
    crate::events::EventView,
    ErrorKind,
> {
    if valid_utf8(body) {
        body_outcome(kind, decode_utf8(body))
    } else {
        Err(ErrorKind::ReadBodyFailed)
    }
}

impl ParseRequest {
    /// Whether the body has to be polled before the next step. It is only
    /// once the headers have passed.
    pub open spec fn spec_polls_body(&self) -> bool {
        self is ParseBody
    }

    /// Whether a step from here is the step that the contract of
    /// [`ParseRequest::poll`] describes for `body`.
    pub open spec fn steps_to(self, body: BodyPoll<'_>, poll: Poll) -> bool {
        match self {
            ParseRequest::ParseEventKind { outcome: Ok(kind) } => poll == (Poll::Pending {
                next: ParseRequest::ParseBody { kind },
                wake: true,
            }),
            ParseRequest::ParseEventKind { outcome: Err(error) } => poll == (Poll::Pending {
                next: ParseRequest::ParseEventKindFailed { error },
                wake: true,
            }),
            ParseRequest::ParseEventKindFailed { error } => poll == Poll::Ready(Err(error)),
            ParseRequest::ParseBody { kind } => match body {
                BodyPoll::Pending => poll == (Poll::Pending { next: self, wake: false }),
                BodyPoll::Failed => poll matches Poll::Ready(Err(error)) && error@
                    == ErrorKind::ReadBodyFailed,
                BodyPoll::Collected(bytes) => poll matches Poll::Ready(result) && is_event_outcome(
                    result,
                    collected_outcome(kind, bytes@),
                ),
            },
        }
    }

    /// Starts the parsing from the outcome of the checks on the headers.
    pub fn new(outcome: Result<EventKind, Error>) -> (request: ParseRequest)
        ensures
            request == (ParseRequest::ParseEventKind { outcome }),
    {
        ParseRequest::ParseEventKind { outcome }
    }

    /// Whether the body has to be polled before the next step.
    #[verifier::when_used_as_spec(spec_polls_body)]
    pub fn polls_body(&self) -> (polls: bool)
        ensures
            polls == self.spec_polls_body(),
    {
        match self {
            ParseRequest::ParseBody { .. } => true,
            _ => false,
        }
    }

    /// Makes one step. `body` is what polling the body has come to; it is
    /// looked at only where [`ParseRequest::polls_body`] holds.
    ///
    /// - From `ParseEventKind` the parsing goes on at once: to `ParseBody`
    ///   where the headers have passed, to `ParseEventKindFailed` with their
    ///   error where they have not.
    /// - From `ParseEventKindFailed` it ends with the error of the headers.
    /// - From `ParseBody` it waits while the body is pending, ends with
    ///   `ReadBodyFailed` where the body cannot be had or is not UTF-8, and
    ///   else ends with what decoding the body gives.
    pub fn poll(self, body: BodyPoll<'_>) -> (poll: Poll)
        ensures
            self.steps_to(body, poll),
    {
        match self {
            ParseRequest::ParseEventKind { outcome } => {
                let next = match outcome {
                    Ok(kind) => ParseRequest::ParseBody { kind },
                    Err(error) => ParseRequest::ParseEventKindFailed { error },
                };
                Poll::Pending { next, wake: true }
            },
            ParseRequest::ParseEventKindFailed { error } => Poll::Ready(Err(error)),
            ParseRequest::ParseBody { kind } => match body {
                BodyPoll::Pending => Poll::Pending {
                    next: ParseRequest::ParseBody { kind },
                    wake: false,
                },
                BodyPoll::Failed => Poll::Ready(Err(Error::new(ErrorKind::ReadBodyFailed))),
                BodyPoll::Collected(bytes) => {
                    let result = match utf8_text(bytes) {
                        Some(text) => parse_body(kind, text),
                        None => Err(Error::new(ErrorKind::ReadBodyFailed)),
                    };
                    Poll::Ready(result)
                },
            },
        }
    }

    /// Drives the parsing to its end with a body that is already complete.
    /// The result is that of parsing the request in one go: the error of the
    /// headers where they have failed, else the outcome of the body.
    pub fn finish(self, body: &[u8]) -> (result: Result<Event, Error>)
        ensures
            self.outcome_with(body@, result),
    {
        let mut state = self;
        let mut steps: u8 = 0;
        loop
            invariant
                steps <= 2,
                state.steps_left() + steps <= 2,
                forall|result: Result<Event, Error>|
                    state.outcome_with(body@, result) ==> self.outcome_with(body@, result),
            decreases 3 - steps,
        {
            match state.poll(BodyPoll::Collected(body)) {
                Poll::Ready(result) => {
                    return result;
                },
                Poll::Pending { next, wake } => {
                    state = next;
                    steps = steps + 1;
                },
            }
        }
    }

    /// How many steps, at most, still end in `Pending` once the body is
    /// complete.
    pub open spec fn steps_left(self) -> int {
        match self {
            ParseRequest::ParseEventKind { .. } => 1,
            _ => 0,
        }
    }

    /// Whether `result` is the result that the parsing comes to from here
    /// with the complete body `body`.
    pub open spec fn outcome_with(self, body: Seq<u8>, result: Result<Event, Error>) -> bool {
        match self {
            ParseRequest::ParseEventKind { outcome: Ok(kind) } => is_event_outcome(
                result,
                collected_outcome(kind, body),
            ),
            ParseRequest::ParseEventKind { outcome: Err(error) } => result == Err::<Event, Error>(
                error,
            ),
            ParseRequest::ParseEventKindFailed { error } => result == Err::<Event, Error>(error),
            ParseRequest::ParseBody { kind } => is_event_outcome(
                result,
                collected_outcome(kind, body),
            ),
        }
    }
}

} // verus!
