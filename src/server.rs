//! The daemon's side of one connection: which envelopes it serves, and the
//! response it sends for each request. Accepting connections, reading and
//! writing them, and handing requests to the worker are left to the caller.

use vstd::prelude::*;
use crate::connection::{ReceiveFrameError, SendFrameError};
use crate::protocol::{Protocol, Request, Response};
use crate::span::Span;
use crate::stage::stage_name;
use crate::worker::{self, Command};

verus! {

/// What the daemon reports of the timer: the stage's name, its full length,
/// what is left of it and what has been spent.
#[derive(Debug, Clone, PartialEq, Eq)]
pub struct QueryResponse {
    pub stage: String,
    pub total: Span,
    pub remaining: Span,
    pub past: Span,
}

impl QueryResponse {
    /// The report on what the worker found: what is left is the full length
    /// less what has been spent, or nothing where more has been spent.
    pub fn from_snapshot(snapshot: worker::QueryResponse) -> (r: QueryResponse)
        requires
            snapshot.total.wf(),
            snapshot.past.wf(),
        ensures
            r.stage@ == stage_name(snapshot.stage),
            r.total == snapshot.total,
            r.past == snapshot.past,
            r.remaining.wf(),
            r.remaining@ == if snapshot.past@ <= snapshot.total@ {
                snapshot.total@ - snapshot.past@
            } else {
                0
            },
    {
        QueryResponse {
            stage: snapshot.stage.to_string(),
            total: snapshot.total,
            remaining: snapshot.total.saturating_sub(&snapshot.past),
            past: snapshot.past,
        }
    }
}

impl From<QueryResponse> for Response {
    fn from(q: QueryResponse) -> (r: Response) {
        Response::Query { stage: q.stage, total: q.total, remaining: q.remaining, past: q.past }
    }
}

impl vstd::std_specs::convert::FromSpecImpl<QueryResponse> for Response {
    open spec fn obeys_from_spec() -> bool {
        true
    }

    open spec fn from_spec(q: QueryResponse) -> Response {
        Response::Query { stage: q.stage, total: q.total, remaining: q.remaining, past: q.past }
    }
}

/// Why a connection was not served.
#[derive(Debug, Clone, PartialEq, Eq)]
pub enum ServerError {
    /// No connection could be accepted; the server stops.
    Listen { message: String },
    /// No request could be received.
    Receive { source: ReceiveFrameError },
    /// What was received is not a request; it is dropped unanswered.
    BadRequest { protocol: Protocol },
    /// The response could not be sent.
    Send { source: SendFrameError },
}

/// The serving side of the protocol.
pub struct Server;

impl Server {
    /// The request that a received envelope carries; a response is refused.
    pub fn request_of(protocol: Protocol) -> (r: Result<Request, ServerError>)
        ensures
            match protocol {
                Protocol::Request(q) => r == Ok::<Request, ServerError>(q),
                Protocol::Response(_) => r == Err::<Request, ServerError>(
                    ServerError::BadRequest { protocol },
                ),
            },
    {
        match protocol {
            Protocol::Request(request) => Ok(request),
            protocol => Err(ServerError::BadRequest { protocol }),
        }
    }

    /// The worker command that carries out `request`.
    pub fn command_for(request: Request) -> (r: Command)
        ensures
            r == match request {
                Request::Pause => Command::Pause,
                Request::Resume => Command::Resume,
                Request::Query => Command::Query,
                Request::Skip => Command::Skip,
            },
    {
        match request {
            Request::Pause => Command::Pause,
            Request::Resume => Command::Resume,
            Request::Query => Command::Query,
            Request::Skip => Command::Skip,
        }
    }

    /// The response to `request`, once it has been carried out; a query is
    /// answered with its report `query`.
    pub fn respond(request: Request, query: Option<QueryResponse>) -> (r: Protocol)
        requires
            request == Request::Query <==> query is Some,
        ensures
            r matches Protocol::Response(resp) && crate::protocol::answers(request, resp),
            query matches Some(q) ==> r == Protocol::Response(
                Response::Query { stage: q.stage, total: q.total, remaining: q.remaining, past: q.past },
            ),
    {
        match request {
            Request::Pause => Protocol::Response(Response::Pause),
            Request::Resume => Protocol::Response(Response::Resume),
            Request::Skip => Protocol::Response(Response::Skip),
            Request::Query => match query {
                Some(q) => Protocol::Response(Response::from(q)),
                // A query always comes with its report.
                None => Protocol::Response(Response::Skip),
            },
        }
    }
}

} // verus!
