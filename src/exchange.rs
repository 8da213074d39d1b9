use vstd::prelude::*;
use crate::error::{classify, failure_with, fault_kind, ErrorKind, HttpFailure, TransportFault};
use crate::request::Header;

verus! {

/// Status line and headers of a response, as the transport gave them.
/// Header names are lowercase; repeated names keep every value, in order.
pub struct ResponseHead {
    pub status: u16,
    pub headers: Vec<Header>,
}

/// A complete, fully buffered response.
pub struct HttpResponse {
    pub status: u16,
    pub headers: Vec<Header>,
    pub body: Vec<u8>,
}

/// The outcome of one request. Any status the server answers with is a success.
pub enum HttpResult {
    Success(HttpResponse),
    Failure(HttpFailure),
}

/// Where one exchange stands.
pub enum Exchange {
    /// The request is to be sent.
    AwaitingResponse,
    /// The head has arrived; the body is to be read in full.
    AwaitingBody(ResponseHead),
    /// The outcome is known.
    Finished(HttpResult),
}

/// What the transport reports back after each step.
pub enum ExchangeEvent {
    ResponseArrived(ResponseHead),
    BodyArrived(Vec<u8>),
    Failed(TransportFault),
}

/// What the transport is to do next.
#[derive(Clone, Copy, Debug, PartialEq, Eq, Structural)]
pub enum NextStep {
    Send,
    ReadBody,
    Deliver,
}

/// Detail prefix of a failure while sending.
pub const SEND_PREFIX: &'static str = "Request error: ";

/// Detail prefix of a failure while reading the body.
pub const BODY_PREFIX: &'static str = "Body error: ";

/// Whether `r` is the failure that `fault` becomes at the step whose detail
/// prefix is `prefix`.
pub open spec fn is_fault_result(r: HttpResult, fault: TransportFault, prefix: Seq<char>) -> bool {
    &&& r matches HttpResult::Failure(f)
    &&& f.kind == fault_kind(fault.timed_out, fault.connect_failed)
    &&& f.detail@ == prefix + fault.message@
}

/// Whether `r` is the success made of `head` and `body`.
pub open spec fn is_success_of(r: HttpResult, head: ResponseHead, body: Vec<u8>) -> bool {
    &&& r matches HttpResult::Success(resp)
    &&& resp.status == head.status
    &&& resp.headers@ == head.headers@
    &&& resp.body@ == body@
}

/// Whether `next` is where `current` goes on `event`. An event that does not
/// fit the current step leaves the exchange as it was.
pub open spec fn advances_to(current: Exchange, event: ExchangeEvent, next: Exchange) -> bool {
    match current {
        Exchange::AwaitingResponse => match event {
            ExchangeEvent::ResponseArrived(head) => next == Exchange::AwaitingBody(head),
            ExchangeEvent::Failed(fault) => next matches Exchange::Finished(r) && is_fault_result(
                r,
                fault,
                SEND_PREFIX@,
            ),
            ExchangeEvent::BodyArrived(_) => next == current,
        },
        Exchange::AwaitingBody(head) => match event {
            ExchangeEvent::BodyArrived(body) => next matches Exchange::Finished(r)
                && is_success_of(r, head, body),
            ExchangeEvent::Failed(fault) => next matches Exchange::Finished(r) && is_fault_result(
                r,
                fault,
                BODY_PREFIX@,
            ),
            ExchangeEvent::ResponseArrived(_) => next == current,
        },
        Exchange::Finished(_) => next == current,
    }
}

/// The step that an exchange asks for.
pub open spec fn step_of(e: Exchange) -> NextStep {
    match e {
        Exchange::AwaitingResponse => NextStep::Send,
        Exchange::AwaitingBody(_) => NextStep::ReadBody,
        Exchange::Finished(_) => NextStep::Deliver,
    }
}

impl Exchange {
    /// A fresh exchange: nothing sent yet.
    pub fn start() -> (r: Exchange)
        ensures
            r == Exchange::AwaitingResponse,
    {
        Exchange::AwaitingResponse
    }

    /// The step the transport is to take next.
    pub fn next_step(&self) -> (r: NextStep)
        ensures
            r == step_of(*self),
    {
        match self {
            Exchange::AwaitingResponse => NextStep::Send,
            Exchange::AwaitingBody(_) => NextStep::ReadBody,
            Exchange::Finished(_) => NextStep::Deliver,
        }
    }

    /// Takes the transport's report of the last step into account.
    pub fn advance(self, event: ExchangeEvent) -> (r: Exchange)
        ensures
            advances_to(self, event, r),
    {
        match self {
            Exchange::AwaitingResponse => match event {
                ExchangeEvent::ResponseArrived(head) => Exchange::AwaitingBody(head),
                ExchangeEvent::Failed(fault) => {
                    let kind = classify(&fault);
                    Exchange::Finished(
                        HttpResult::Failure(failure_with(kind, SEND_PREFIX, fault.message.as_str())),
                    )
                },
                ExchangeEvent::BodyArrived(_) => Exchange::AwaitingResponse,
            },
            Exchange::AwaitingBody(head) => match event {
                ExchangeEvent::BodyArrived(body) => Exchange::Finished(
                    HttpResult::Success(
                        HttpResponse { status: head.status, headers: head.headers, body },
                    ),
                ),
                ExchangeEvent::Failed(fault) => {
                    let kind = classify(&fault);
                    Exchange::Finished(
                        HttpResult::Failure(failure_with(kind, BODY_PREFIX, fault.message.as_str())),
                    )
                },
                ExchangeEvent::ResponseArrived(_) => Exchange::AwaitingBody(head),
            },
            Exchange::Finished(r) => Exchange::Finished(r),
        }
    }

    /// The outcome, once the exchange has finished.
    pub fn outcome(self) -> (r: Option<HttpResult>)
        ensures
            self matches Exchange::Finished(x) ==> r == Some(x),
            !(self is Finished) ==> r is None,
    {
        match self {
            Exchange::Finished(x) => Some(x),
            _ => None,
        }
    }
}

/// Whatever status the server answers with, a response whose body is read
/// in full is a success carrying that status, those headers and that body.
pub proof fn answered_exchange_succeeds(
    head: ResponseHead,
    body: Vec<u8>,
    after_head: Exchange,
    done: Exchange,
)
    requires
        advances_to(Exchange::AwaitingResponse, ExchangeEvent::ResponseArrived(head), after_head),
        advances_to(after_head, ExchangeEvent::BodyArrived(body), done),
    ensures
        step_of(done) == NextStep::Deliver,
        done matches Exchange::Finished(r) && is_success_of(r, head, body),
{
}

/// A transport failure at either step ends the exchange in a failure of the
/// classified kind, never a success: a timeout is a timeout, a failed
/// connection a network error, and no failure is an invalid proxy or a
/// runtime error.
pub proof fn transport_failure_is_classified(
    current: Exchange,
    fault: TransportFault,
    done: Exchange,
)
    requires
        !(current is Finished),
        advances_to(current, ExchangeEvent::Failed(fault), done),
    ensures
        done matches Exchange::Finished(r) && (r matches HttpResult::Failure(f) && f.kind
            == fault_kind(fault.timed_out, fault.connect_failed)),
        fault.timed_out ==> (done matches Exchange::Finished(r) && (r matches HttpResult::Failure(
            f,
        ) && f.kind == ErrorKind::Timeout)),
        (!fault.timed_out && fault.connect_failed) ==> (done matches Exchange::Finished(r) && (r matches HttpResult::Failure(
            f,
        ) && f.kind == ErrorKind::NetworkError)),
{
}

} // verus!
