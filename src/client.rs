//! The client's side of the protocol: how a failed connection and the
//! daemon's response become the result of a command.

use vstd::prelude::*;
use crate::protocol::{answers, Protocol, Request, Response};
use crate::server::QueryResponse;

verus! {

/// Why the daemon could not be reached.
#[derive(Debug, Clone, PartialEq, Eq)]
pub enum ConnectError {
    /// Nothing listens at the endpoint: the daemon does not run.
    Unavailable { endpoint: String },
    /// The system refused the connection for another reason.
    System { message: String },
}

/// Why a request to the daemon failed.
#[derive(Debug, Clone, PartialEq, Eq)]
pub enum RequestDaemonError {
    /// Nothing listens at the endpoint.
    Unavailable { endpoint: String },
    /// The daemon answered with a response that does not fit the request.
    BadResponse,
    /// Anything else went wrong.
    Unknown { message: String },
}

/// Why the daemon could not be launched.
#[derive(Debug, Clone, PartialEq, Eq)]
pub enum InitDaemonError {
    /// The daemon's executable was not found.
    NotFound,
    /// A daemon runs already.
    AlreadyRunning,
    /// Anything else went wrong.
    Unknown { message: String },
}

impl RequestDaemonError {
    /// The failure of a request whose connection failed with `err`: an
    /// endpoint where nothing listens stays a distinct failure.
    pub fn from_connect(err: ConnectError) -> (r: RequestDaemonError)
        ensures
            match err {
                ConnectError::Unavailable { endpoint } => r == RequestDaemonError::Unavailable {
                    endpoint,
                },
                ConnectError::System { .. } => r is Unknown,
            },
    {
        match err {
            ConnectError::Unavailable { endpoint } => RequestDaemonError::Unavailable { endpoint },
            ConnectError::System { message } => RequestDaemonError::Unknown { message },
        }
    }
}

/// The response that the daemon sent to `request`: accepted where it is a
/// response of the same kind, refused as a bad response otherwise.
pub fn check_response(request: Request, received: Protocol) -> (r: Result<
    Response,
    RequestDaemonError,
>)
    ensures
        match received {
            Protocol::Response(resp) => if answers(request, resp) {
                r == Ok::<Response, RequestDaemonError>(resp)
            } else {
                r == Err::<Response, RequestDaemonError>(RequestDaemonError::BadResponse)
            },
            Protocol::Request(_) => r == Err::<Response, RequestDaemonError>(
                RequestDaemonError::BadResponse,
            ),
        },
{
    match received {
        Protocol::Response(resp) => {
            let fits = match (request, &resp) {
                (Request::Pause, Response::Pause) => true,
                (Request::Resume, Response::Resume) => true,
                (Request::Query, Response::Query { .. }) => true,
                (Request::Skip, Response::Skip) => true,
                _ => false,
            };
            if fits {
                Ok(resp)
            } else {
                Err(RequestDaemonError::BadResponse)
            }
        },
        Protocol::Request(_) => Err(RequestDaemonError::BadResponse),
    }
}

/// The report in the daemon's answer to a query; any other answer is a bad
/// response.
pub fn query_result(received: Protocol) -> (r: Result<QueryResponse, RequestDaemonError>)
    ensures
        match received {
            Protocol::Response(Response::Query { stage, total, remaining, past }) => r == Ok::<
                QueryResponse,
                RequestDaemonError,
            >(QueryResponse { stage, total, remaining, past }),
            _ => r == Err::<QueryResponse, RequestDaemonError>(RequestDaemonError::BadResponse),
        },
{
    match check_response(Request::Query, received) {
        Ok(Response::Query { stage, total, remaining, past }) => Ok(
            QueryResponse { stage, total, remaining, past },
        ),
        _ => Err(RequestDaemonError::BadResponse),
    }
}

/// Which parts of the daemon's report a query shows; with none chosen, it
/// shows them all.
#[derive(Debug, Clone, Copy, PartialEq, Eq, Structural)]
pub struct QueryArguments {
    /// The current stage's name.
    pub stage: bool,
    /// The full length of the current stage.
    pub total: bool,
    /// What is left of the current stage.
    pub remaining: bool,
    /// What has been spent in the current stage.
    pub past: bool,
}

/// What the user asks the client to do.
#[derive(Debug, Clone, Copy, PartialEq, Eq, Structural)]
pub enum Command {
    /// Launch and initialize the daemon.
    Init,
    /// Pause the timer.
    Pause,
    /// Resume the timer.
    Resume,
    /// Show the timer's status.
    Query(QueryArguments),
    /// Skip the current stage.
    Skip,
}

impl Command {
    /// The request that the command sends to the daemon; launching the
    /// daemon sends none.
    pub fn request(&self) -> (r: Option<Request>)
        ensures
            r == match *self {
                Command::Init => None,
                Command::Pause => Some(Request::Pause),
                Command::Resume => Some(Request::Resume),
                Command::Query(_) => Some(Request::Query),
                Command::Skip => Some(Request::Skip),
            },
    {
        match self {
            Command::Init => None,
            Command::Pause => Some(Request::Pause),
            Command::Resume => Some(Request::Resume),
            Command::Query(_) => Some(Request::Query),
            Command::Skip => Some(Request::Skip),
        }
    }
}

/// One part of the daemon's report, as a query shows it.
#[derive(Debug, Clone, Copy, PartialEq, Eq, Structural)]
pub enum QueryField {
    Stage,
    Total,
    Remaining,
    Past,
}

/// The label of a part of the report.
pub open spec fn field_label(f: QueryField) -> Seq<char> {
    match f {
        QueryField::Stage => seq!['S', 't', 'a', 'g', 'e'],
        QueryField::Total => seq!['T', 'o', 't', 'a', 'l'],
        QueryField::Remaining => seq!['R', 'e', 'm', 'a', 'i', 'n', 'i', 'n', 'g'],
        QueryField::Past => seq!['P', 'a', 's', 't'],
    }
}

/// The parts that `args` shows, in the order of the report.
pub open spec fn shown_fields(args: QueryArguments) -> Seq<QueryField> {
    let all = !args.stage && !args.total && !args.remaining && !args.past;
    let s1 = if all || args.stage { seq![QueryField::Stage] } else { Seq::empty() };
    let s2 = if all || args.total { s1.push(QueryField::Total) } else { s1 };
    let s3 = if all || args.remaining { s2.push(QueryField::Remaining) } else { s2 };
    if all || args.past { s3.push(QueryField::Past) } else { s3 }
}

impl QueryField {
    /// The label shown before the value.
    pub fn label(&self) -> (r: &'static str)
        ensures
            r@ == field_label(*self),
    {
        proof {
            reveal_strlit("Stage");
            reveal_strlit("Total");
            reveal_strlit("Remaining");
            reveal_strlit("Past");
        }
        match self {
            QueryField::Stage => "Stage",
            QueryField::Total => "Total",
            QueryField::Remaining => "Remaining",
            QueryField::Past => "Past",
        }
    }

    /// The number of characters of the label.
    pub fn label_len(&self) -> (r: usize)
        ensures
            r == field_label(*self).len(),
    {
        match self {
            QueryField::Stage => 5,
            QueryField::Total => 5,
            QueryField::Remaining => 9,
            QueryField::Past => 4,
        }
    }
}

impl QueryArguments {
    /// The parts of the report to show, in order.
    pub fn fields(&self) -> (r: Vec<QueryField>)
        ensures
            r@ == shown_fields(*self),
    {
        let all = !self.stage && !self.total && !self.remaining && !self.past;
        let mut out: Vec<QueryField> = Vec::new();
        if all || self.stage {
            out.push(QueryField::Stage);
        }
        if all || self.total {
            out.push(QueryField::Total);
        }
        if all || self.remaining {
            out.push(QueryField::Remaining);
        }
        if all || self.past {
            out.push(QueryField::Past);
        }
        assert(out@ =~= shown_fields(*self));
        out
    }
}

/// The width that labels are padded to so that the values line up: the
/// longest label among `fields`, or zero where there is none.
pub fn label_width(fields: &Vec<QueryField>) -> (r: usize)
    ensures
        forall|i: int| 0 <= i < fields@.len() ==> field_label(#[trigger] fields@[i]).len() <= r,
        fields@.len() == 0 ==> r == 0,
        fields@.len() > 0 ==> exists|i: int|
            0 <= i < fields@.len() && field_label(#[trigger] fields@[i]).len() == r,
{
    let mut width: usize = 0;
    let mut i: usize = 0;
    while i < fields.len()
        invariant
            i <= fields@.len(),
            forall|j: int| 0 <= j < i ==> field_label(#[trigger] fields@[j]).len() <= width,
            i == 0 ==> width == 0,
            i > 0 ==> exists|j: int| 0 <= j < i && field_label(#[trigger] fields@[j]).len() == width,
        decreases fields@.len() - i,
    {
        let len = fields[i].label_len();
        if len > width {
            width = len;
        }
        i = i + 1;
    }
    width
}

} // verus!
