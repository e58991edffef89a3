//! The per-stage settings of the timer: how long a stage lasts and what the
//! notification at its end says.

use vstd::prelude::*;
use crate::span::Span;

verus! {

/// The length of a stage, a positive number of seconds.
#[derive(Debug, Clone, Copy, PartialEq, Eq, Structural)]
pub struct StageDuration {
    secs: u64,
}

/// Why a [`StageDuration`] could not be made.
#[derive(Debug, Clone, Copy, PartialEq, Eq, Structural)]
pub enum TryNewStageDurationError {
    /// A stage cannot last zero seconds.
    Zero,
}

impl StageDuration {
    /// The length in seconds.
    pub closed spec fn secs(self) -> u64 {
        self.secs
    }

    /// A stage lasts at least one second.
    pub closed spec fn wf(self) -> bool {
        self.secs > 0
    }

    /// A duration of `seconds` seconds, refused where `seconds` is zero.
    pub fn try_new(seconds: u64) -> (r: Result<Self, TryNewStageDurationError>)
        ensures
            seconds == 0 <==> r is Err,
            r matches Err(e) ==> e == TryNewStageDurationError::Zero,
            r matches Ok(d) ==> d.wf() && d.secs() == seconds,
    {
        if seconds == 0 {
            Err(TryNewStageDurationError::Zero)
        } else {
            Ok(StageDuration { secs: seconds })
        }
    }

    /// The length as a span of time.
    pub fn inner(&self) -> (r: Span)
        ensures
            r.wf(),
            r@ == self.secs() as nat * 1_000_000_000,
            r.secs == self.secs(),
            r.nanos == 0,
    {
        Span::from_secs(self.secs)
    }
}

/// The text of a desktop notification: a non-empty summary and an optional
/// body.
#[derive(Debug, Clone, PartialEq, Eq)]
pub struct NotificationMessage {
    summary: String,
    body: Option<String>,
}

/// Why a [`NotificationMessage`] could not be made.
#[derive(Debug, Clone, Copy, PartialEq, Eq, Structural)]
pub enum TryNewNotificationMessageError {
    /// The summary of a notification cannot be empty.
    EmptySummary,
}

impl NotificationMessage {
    /// The summary's characters.
    pub closed spec fn summary_view(self) -> Seq<char> {
        self.summary@
    }

    /// The body's characters, if there is a body.
    pub closed spec fn body_view(self) -> Option<Seq<char>> {
        match self.body {
            Some(b) => Some(b@),
            None => None,
        }
    }

    /// The summary is not empty.
    pub open spec fn wf(self) -> bool {
        self.summary_view().len() > 0
    }

    /// A message with this summary and body, refused where the summary is
    /// empty.
    pub fn try_new(summary: String, body: Option<String>) -> (r: Result<
        Self,
        TryNewNotificationMessageError,
    >)
        ensures
            summary@.len() == 0 <==> r is Err,
            r matches Err(e) ==> e == TryNewNotificationMessageError::EmptySummary,
            r matches Ok(m) ==> m.wf() && m.summary_view() == summary@ && m.body_view() == (
            match body {
                Some(b) => Some(b@),
                None => None::<Seq<char>>,
            }),
    {
        if summary.as_str().is_empty() {
            Err(TryNewNotificationMessageError::EmptySummary)
        } else {
            Ok(NotificationMessage { summary, body })
        }
    }

    /// The summary.
    pub fn summary(&self) -> (r: &str)
        ensures
            r@ == self.summary_view(),
    {
        self.summary.as_str()
    }

    /// The body, if there is one.
    pub fn body(&self) -> (r: Option<&str>)
        ensures
            match r {
                Some(b) => self.body_view() == Some(b@),
                None => self.body_view() is None,
            },
    {
        match &self.body {
            Some(b) => Some(b.as_str()),
            None => None,
        }
    }
}

impl From<NotificationMessage> for (String, Option<String>) {
    fn from(m: NotificationMessage) -> (r: (String, Option<String>)) {
        (m.summary, m.body)
    }
}

impl vstd::std_specs::convert::FromSpecImpl<NotificationMessage> for (String, Option<String>) {
    open spec fn obeys_from_spec() -> bool {
        true
    }

    closed spec fn from_spec(m: NotificationMessage) -> (String, Option<String>) {
        (m.summary, m.body)
    }
}

} // verus!
