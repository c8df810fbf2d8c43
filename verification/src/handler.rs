//! The event handler: which of the registered services an event is for, and
//! how a request is answered.
//!
//! A [`Handler`] is a request parser together with a table of the kinds of
//! event that services have been registered for. The services themselves
//! stay with the caller, numbered in the order of their registration; the
//! handler tells which of them an event goes to. A [`HandlerCall`] follows one
//! request from its arrival to its answer: the caller polls the body and the
//! service, and [`HandlerCall::poll`] decides how to go on.

use vstd::prelude::*;

use crate::error::Error;
use crate::events::{Event, EventKind};
use crate::parser::{BodyPoll, ParseRequest, Poll, RequestParser};

verus! {

/// The service that takes the events that no other service is registered
/// for, and does nothing with them.
#[derive(Debug, Clone, Copy, Default, Hash)]
pub struct Sink {
    _priv: (),
}

impl Sink {
    /// The sink.
    pub fn new() -> Sink {
        Sink { _priv: () }
    }

    /// Takes a request, drops it, and succeeds.
    pub fn call<T>(&self, request: T) -> (done: Result<(), Error>)
        ensures
            done is Ok,
    {
        Ok(())
    }
}

/// Where an event goes.
#[derive(Debug, Clone, Copy, PartialEq, Eq, Hash, Structural)]
pub enum Route {
    /// To the service with this number, counted from 0 in the order of
    /// registration.
    Service(usize),
    /// To the [`Sink`]: no service is registered for the kind of the event.
    Sink,
}

/// The number of the service that events of the kind `kind` go to, given the
/// kinds that the services were registered for, in the order of
/// registration: the last service registered for `kind`. There is none where
/// no service was registered for `kind`, and the events go to the sink.
pub open spec fn last_registered(kinds: Seq<EventKind>, kind: EventKind) -> Option<int>
    decreases kinds.len(),
{
    if kinds.len() == 0 {
        None
    } else if kinds.last() == kind {
        Some(kinds.len() - 1)
    } else {
        last_registered(kinds.drop_last(), kind)
    }
}

impl Route {
    /// Whether this is the route to the service with the given number, or to
    /// the sink where no number is given.
    pub open spec fn leads_to(self, service: Option<int>) -> bool {
        match self {
            Route::Service(number) => service == Some(number as int),
            Route::Sink => service is None,
        }
    }
}

/// An event handler.
#[derive(Debug, Clone)]
pub struct Handler {
    parser: RequestParser,
    kinds: Vec<EventKind>,
}

impl Handler {
    /// The parser that reads the requests of this handler.
    pub closed spec fn spec_parser(&self) -> RequestParser {
        self.parser
    }

    /// The kinds that services were registered for, in the order of
    /// registration.
    pub closed spec fn kinds(&self) -> Seq<EventKind> {
        self.kinds@
    }

    /// A handler without services: every event goes to the sink.
    pub fn new(parser: RequestParser) -> (handler: Handler)
        ensures
            handler.spec_parser() == parser,
            handler.kinds() == Seq::<EventKind>::empty(),
    {
        Handler { parser, kinds: Vec::new() }
    }

    /// The parser that reads the requests of this handler.
    pub fn parser(&self) -> (parser: &RequestParser)
        ensures
            *parser == self.spec_parser(),
    {
        &self.parser
    }

    /// Registers the next service, for events of the kind `kind`. The
    /// service gets the number that is returned with the handler. It takes
    /// the place of any service registered for the same kind before.
    pub fn on(self, kind: EventKind) -> (registered: (Handler, usize))
        ensures
            registered.0.spec_parser() == self.spec_parser(),
            registered.0.kinds() == self.kinds().push(kind),
            registered.1 == self.kinds().len(),
            last_registered(registered.0.kinds(), kind) == Some(registered.1 as int),
            forall|other: EventKind|
                other != kind ==> last_registered(registered.0.kinds(), other) == last_registered(
                    self.kinds(),
                    other,
                ),
    {
        let Handler { parser, kinds } = self;
        let mut kinds = kinds;
        let number = kinds.len();
        kinds.push(kind);
        assert(kinds@.drop_last() =~= self.kinds@);
        (Handler { parser, kinds }, number)
    }

    /// Where events of the kind `kind` go.
    pub fn route(&self, kind: EventKind) -> (route: Route)
        ensures
            route.leads_to(last_registered(self.kinds(), kind)),
    {
        let mut i: usize = self.kinds.len();
        assert(self.kinds@.take(i as int) =~= self.kinds@);
        while i > 0
            invariant
                i <= self.kinds@.len(),
                last_registered(self.kinds@, kind) == last_registered(
                    self.kinds@.take(i as int),
                    kind,
                ),
            decreases i,
        {
            proof {
                let upto = self.kinds@.take(i as int);
                assert(upto.last() == self.kinds@[i - 1]);
                assert(upto.drop_last() =~= self.kinds@.take(i - 1));
            }
            if self.kinds[i - 1] == kind {
                return Route::Service(i - 1);
            }
            i -= 1;
        }
        Route::Sink
    }
}

impl RequestParser {
    /// Makes an event handler of this parser, with no services yet.
    pub fn into_handler(self) -> (handler: Handler)
        ensures
            handler.spec_parser() == self,
            handler.kinds() == Seq::<EventKind>::empty(),
    {
        Handler::new(self)
    }
}

/// An event goes to the last service registered for its kind, and to the
/// sink exactly where no service is registered for it.
pub proof fn lemma_route_is_last_registered(kinds: Seq<EventKind>, kind: EventKind)
    ensures
        last_registered(kinds, kind) is None <==> !kinds.contains(kind),
        last_registered(kinds, kind) matches Some(i) ==> {
            &&& 0 <= i < kinds.len()
            &&& kinds[i] == kind
            &&& forall|j: int| i < j < kinds.len() ==> kinds[j] != kind
        },
    decreases kinds.len(),
{
    if kinds.len() > 0 {
        let rest = kinds.drop_last();
        lemma_route_is_last_registered(rest, kind);
        if kinds.last() == kind {
            assert(kinds[kinds.len() - 1] == kind);
        } else {
            assert forall|j: int| 0 <= j < rest.len() implies rest[j] == kinds[j] by {}
            if rest.contains(kind) {
                let j = choose|j: int| 0 <= j < rest.len() && rest[j] == kind;
                assert(kinds[j] == kind);
            }
            if kinds.contains(kind) {
                let j = choose|j: int| 0 <= j < kinds.len() && kinds[j] == kind;
                assert(rest[j] == kind);
            }
            if last_registered(kinds, kind) is Some {
                let i = last_registered(kinds, kind)->0;
                assert forall|j: int| i < j < kinds.len() implies kinds[j] != kind by {
                    if j < rest.len() {
                        assert(rest[j] == kinds[j]);
                    }
                }
            }
        }
    }
}

/// The status of the answer to a request that was handled: `204 No Content`.
pub const NO_CONTENT: u16 = 204;

/// The answer to a request.
#[derive(Debug, Clone, PartialEq, Eq)]
pub struct Response {
    /// The HTTP status.
    pub status: u16,
    /// The body.
    pub body: String,
}

impl Response {
    /// Whether this is the answer to a request that was handled: the status
    /// `204 No Content` and an empty body.
    pub open spec fn is_no_content(&self) -> bool {
        self.status == NO_CONTENT && self.body@ == Seq::<char>::empty()
    }

    /// The answer to a request that was handled.
    pub fn no_content() -> (response: Response)
        ensures
            response.is_no_content(),
    {
        Response { status: NO_CONTENT, body: String::new() }
    }
}

/// What a call of the handler fails with: the error of the request, or the
/// error of the service that took the event.
#[derive(Debug)]
pub enum CallError<E> {
    /// The request was not accepted.
    Request(Error),
    /// The service failed.
    Service(E),
}

/// What polling the service that took the event has come to.
#[derive(Debug)]
pub enum ServicePoll<E> {
    /// The service is still at work.
    Pending,
    /// The service has ended.
    Ready(Result<(), E>),
}

/// A call of the handler that is under way.
#[derive(Debug)]
pub enum HandlerCall {
    /// The request is being parsed.
    ParseRequest { request: ParseRequest },
    /// The event has been handed to its service.
    ServiceCall,
}

/// What a step of a call has come to.
#[derive(Debug)]
pub enum CallPoll<E> {
    /// The call goes on from `next`. Where `wake` is set it can go on at
    /// once, else when what it waits for has made progress.
    Pending { next: HandlerCall, wake: bool },
    /// The request is parsed. The event is to be handed to the service that
    /// `route` tells, and the call goes on at once from `next`, where that
    /// service is polled.
    Call { event: Event, route: Route, next: HandlerCall },
    /// The call has ended.
    Ready(Result<Response, CallError<E>>),
}

impl HandlerCall {
    /// Whether the body has to be polled before the next step.
    pub open spec fn spec_polls_body(&self) -> bool {
        self matches HandlerCall::ParseRequest { request } && request.polls_body()
    }

    /// Whether the service has to be polled before the next step.
    pub open spec fn spec_polls_service(&self) -> bool {
        self is ServiceCall
    }

    /// Whether a step from here with the table `kinds` is the step that the
    /// contract of [`HandlerCall::poll`] describes.
    pub open spec fn steps_to<E>(
        self,
        kinds: Seq<EventKind>,
        body: BodyPoll<'_>,
        service: ServicePoll<E>,
        poll: CallPoll<E>,
    ) -> bool {
        match self {
            HandlerCall::ParseRequest { request } => {
                exists|inner: Poll| #[trigger]
                    request.steps_to(body, inner) && match inner {
                        Poll::Pending { next, wake } => poll == (CallPoll::<E>::Pending {
                            next: HandlerCall::ParseRequest { request: next },
                            wake,
                        }),
                        Poll::Ready(Ok(parsed)) => {
                            &&& poll matches CallPoll::Call { event, route, next }
                            &&& event == parsed
                            &&& route.leads_to(last_registered(kinds, parsed.kind()))
                            &&& next == HandlerCall::ServiceCall
                        },
                        Poll::Ready(Err(error)) => poll == CallPoll::<E>::Ready(
                            Err(CallError::Request(error)),
                        ),
                    }
            },
            HandlerCall::ServiceCall => match service {
                ServicePoll::Pending => poll == (CallPoll::<E>::Pending {
                    next: HandlerCall::ServiceCall,
                    wake: false,
                }),
                ServicePoll::Ready(Ok(_)) => poll matches CallPoll::Ready(Ok(response))
                    && response.is_no_content(),
                ServicePoll::Ready(Err(error)) => poll == CallPoll::<E>::Ready(
                    Err(CallError::Service(error)),
                ),
            },
        }
    }

    /// Starts a call with a request whose headers have been checked.
    pub fn new(request: ParseRequest) -> (call: HandlerCall)
        ensures
            call == (HandlerCall::ParseRequest { request }),
    {
        HandlerCall::ParseRequest { request }
    }

    /// Whether the body has to be polled before the next step.
    #[verifier::when_used_as_spec(spec_polls_body)]
    pub fn polls_body(&self) -> (polls: bool)
        ensures
            polls == self.spec_polls_body(),
    {
        match self {
            HandlerCall::ParseRequest { request } => request.polls_body(),
            HandlerCall::ServiceCall => false,
        }
    }

    /// Whether the service has to be polled before the next step.
    #[verifier::when_used_as_spec(spec_polls_service)]
    pub fn polls_service(&self) -> (polls: bool)
        ensures
            polls == self.spec_polls_service(),
    {
        match self {
            HandlerCall::ParseRequest { .. } => false,
            HandlerCall::ServiceCall => true,
        }
    }

    /// Makes one step. `body` and `service` are what polling the body and
    /// the service has come to; each is looked at only where the call polls
    /// it.
    ///
    /// - While the request is parsed, the call follows the steps of
    ///   [`ParseRequest::poll`]. A request that fails ends the call with its
    ///   error. A request that is parsed has its event handed to the service
    ///   registered last for the kind of the event, or to the sink.
    /// - Once the event is with its service, the call waits for the service
    ///   and ends with the error of the service, or with the answer
    ///   `204 No Content`.
    pub fn poll<E>(self, handler: &Handler, body: BodyPoll<'_>, service: ServicePoll<E>) -> (poll:
        CallPoll<E>)
        ensures
            self.steps_to(handler.kinds(), body, service, poll),
    {
        match self {
            HandlerCall::ParseRequest { request } => {
                let inner = request.poll(body);
                match inner {
                    Poll::Pending { next, wake } => CallPoll::Pending {
                        next: HandlerCall::ParseRequest { request: next },
                        wake,
                    },
                    Poll::Ready(Ok(event)) => {
                        let route = handler.route(event.kind());
                        CallPoll::Call { event, route, next: HandlerCall::ServiceCall }
                    },
                    Poll::Ready(Err(error)) => CallPoll::Ready(Err(CallError::Request(error))),
                }
            },
            HandlerCall::ServiceCall => match service {
                ServicePoll::Pending => CallPoll::Pending {
                    next: HandlerCall::ServiceCall,
                    wake: false,
                },
                ServicePoll::Ready(Ok(_)) => CallPoll::Ready(Ok(Response::no_content())),
                ServicePoll::Ready(Err(error)) => CallPoll::Ready(Err(CallError::Service(error))),
            },
        }
    }
}

} // verus!
