//! The envelope exchanged over the wire: a request from a client or a
//! response from the daemon. Its serialized form travels as the payload of a
//! frame.

use vstd::prelude::*;
use crate::span::Span;

verus! {

/// A message on the wire.
#[derive(Debug, Clone, PartialEq, Eq)]
pub enum Protocol {
    Request(Request),
    Response(Response),
}

/// What a client asks of the daemon.
#[derive(Debug, Clone, Copy, PartialEq, Eq, Structural)]
pub enum Request {
    Pause,
    Resume,
    Query,
    Skip,
}

/// What the daemon answers.
#[derive(Debug, Clone, PartialEq, Eq)]
pub enum Response {
    Pause,
    Resume,
    Query { stage: String, total: Span, remaining: Span, past: Span },
    Skip,
}

/// `response` is of the kind that answers `request`.
pub open spec fn answers(request: Request, response: Response) -> bool {
    match request {
        Request::Pause => response is Pause,
        Request::Resume => response is Resume,
        Request::Query => response is Query,
        Request::Skip => response is Skip,
    }
}

} // verus!
