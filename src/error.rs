use vstd::prelude::*;

verus! {

/// The failure taxonomy, the same in every execution mode.
#[derive(Clone, Copy, Debug, PartialEq, Eq, Structural)]
pub enum ErrorKind {
    /// The proxy URL could not be used; fatal to that client build.
    InvalidProxy,
    /// The exchange did not complete within the policy's timeout.
    Timeout,
    /// The exchange failed before or while a connection was made.
    NetworkError,
    /// Any other transport failure.
    RequestError,
    /// The execution substrate could not schedule the work; fatal to the whole call.
    RuntimeError,
}

/// What the transport reports of a failure: whether it was a timeout,
/// whether it happened while connecting, and its text.
pub struct TransportFault {
    pub timed_out: bool,
    pub connect_failed: bool,
    pub message: String,
}

/// A failure as handed to the caller.
pub struct HttpFailure {
    pub kind: ErrorKind,
    pub detail: String,
}

/// The kind of a transport failure, checked in order: a timeout first, then
/// a connection failure, then anything else.
pub open spec fn fault_kind(timed_out: bool, connect_failed: bool) -> ErrorKind {
    if timed_out {
        ErrorKind::Timeout
    } else if connect_failed {
        ErrorKind::NetworkError
    } else {
        ErrorKind::RequestError
    }
}

/// The one classification applied to every transport failure.
pub fn classify(fault: &TransportFault) -> (k: ErrorKind)
    ensures
        k == fault_kind(fault.timed_out, fault.connect_failed),
        k == ErrorKind::Timeout || k == ErrorKind::NetworkError || k == ErrorKind::RequestError,
{
    if fault.timed_out {
        ErrorKind::Timeout
    } else if fault.connect_failed {
        ErrorKind::NetworkError
    } else {
        ErrorKind::RequestError
    }
}

/// A failure whose detail is `prefix` followed by `text`.
pub fn failure_with(kind: ErrorKind, prefix: &str, text: &str) -> (r: HttpFailure)
    ensures
        r.kind == kind,
        r.detail@ == prefix@ + text@,
{
    let detail = String::from_str(prefix).concat(text);
    HttpFailure { kind, detail }
}

} // verus!
