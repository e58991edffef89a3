//! The daemon's settings as read from its configuration, and how the
//! worker's settings are drawn from them. Reading and parsing the file is
//! left to the caller.

use vstd::prelude::*;
use std::sync::Arc;
use crate::entity::{
    NotificationMessage, StageDuration, TryNewNotificationMessageError, TryNewStageDurationError,
};
use crate::stage::StageState;
use crate::worker::WorkerConfig;

verus! {

/// The whole configuration.
#[derive(Debug, Clone, PartialEq, Eq)]
pub struct Configuration {
    pub duration: DurationSection,
    pub notification: NotificationSection,
}

/// The length of each stage, in seconds.
#[derive(Debug, Clone, Copy, PartialEq, Eq, Structural)]
pub struct DurationSection {
    pub preparation: u64,
    pub concentration: u64,
    pub relaxation: u64,
}

/// The notification shown at the end of each stage.
#[derive(Debug, Clone, PartialEq, Eq)]
pub struct NotificationSection {
    pub preparation: MessageSection,
    pub concentration: MessageSection,
    pub relaxation: MessageSection,
}

/// The text of one notification.
#[derive(Debug, Clone, PartialEq, Eq)]
pub struct MessageSection {
    pub summary: String,
    pub body: Option<String>,
}

/// Why a stage's duration could not be had.
#[derive(Debug, Clone, PartialEq, Eq)]
pub enum GetDurationError {
    /// The configured value is not a valid duration.
    Invalid { source: TryNewStageDurationError },
}

/// Why a stage's notification could not be had.
#[derive(Debug, Clone, PartialEq, Eq)]
pub enum GetNotificationError {
    /// The configured text is not a valid notification.
    Invalid { source: TryNewNotificationMessageError },
}

/// Why the worker could not be set up.
#[derive(Debug, Clone, PartialEq, Eq)]
pub enum SpawnWorkerError {
    /// The duration of stage `key` is invalid.
    DurationConfig { key: StageState, source: GetDurationError },
    /// The notification of stage `key` is invalid.
    NotificationConfig { key: StageState, source: GetNotificationError },
}

/// The configured seconds of `stage`.
pub open spec fn configured_secs(c: Configuration, stage: StageState) -> u64 {
    match stage {
        StageState::Preparation => c.duration.preparation,
        StageState::Concentration => c.duration.concentration,
        StageState::Relaxation => c.duration.relaxation,
    }
}

/// The configured notification text of `stage`.
pub open spec fn configured_message(c: Configuration, stage: StageState) -> MessageSection {
    match stage {
        StageState::Preparation => c.notification.preparation,
        StageState::Concentration => c.notification.concentration,
        StageState::Relaxation => c.notification.relaxation,
    }
}

/// The characters of an optional string.
pub open spec fn opt_view(s: Option<String>) -> Option<Seq<char>> {
    match s {
        Some(b) => Some(b@),
        None => None,
    }
}

/// The first flaw of a configuration, checking the durations of the three
/// stages in order and then their notifications: a zero duration or an empty
/// summary.
pub open spec fn first_flaw(c: Configuration) -> Option<SpawnWorkerError> {
    let zero = GetDurationError::Invalid { source: TryNewStageDurationError::Zero };
    let empty = GetNotificationError::Invalid {
        source: TryNewNotificationMessageError::EmptySummary,
    };
    if c.duration.preparation == 0 {
        Some(SpawnWorkerError::DurationConfig { key: StageState::Preparation, source: zero })
    } else if c.duration.concentration == 0 {
        Some(SpawnWorkerError::DurationConfig { key: StageState::Concentration, source: zero })
    } else if c.duration.relaxation == 0 {
        Some(SpawnWorkerError::DurationConfig { key: StageState::Relaxation, source: zero })
    } else if c.notification.preparation.summary@.len() == 0 {
        Some(SpawnWorkerError::NotificationConfig { key: StageState::Preparation, source: empty })
    } else if c.notification.concentration.summary@.len() == 0 {
        Some(
            SpawnWorkerError::NotificationConfig { key: StageState::Concentration, source: empty },
        )
    } else if c.notification.relaxation.summary@.len() == 0 {
        Some(SpawnWorkerError::NotificationConfig { key: StageState::Relaxation, source: empty })
    } else {
        None
    }
}

/// `w` holds the durations and notifications that `c` configures.
pub open spec fn drawn_from(w: WorkerConfig, c: Configuration) -> bool {
    forall|s: StageState|
        {
            &&& #[trigger] w.duration_of(s).secs() == configured_secs(c, s)
            &&& w.notification_of(s).summary_view() == configured_message(c, s).summary@
            &&& w.notification_of(s).body_view() == opt_view(configured_message(c, s).body)
        }
}

/// Copies an optional string.
fn copy_body(body: &Option<String>) -> (r: Option<String>)
    ensures
        opt_view(r) == opt_view(*body),
{
    match body {
        Some(b) => Some(b.clone()),
        None => None,
    }
}

/// The stage durations that a configuration holds.
pub struct DurationConfiguration {
    config: Arc<Configuration>,
}

impl DurationConfiguration {
    /// The configuration read from.
    pub closed spec fn source(self) -> Configuration {
        *self.config
    }

    /// Reads durations from `config`.
    pub fn new(config: Arc<Configuration>) -> (r: Self)
        ensures
            r.source() == *config,
    {
        DurationConfiguration { config }
    }

    fn get(&self, stage: StageState) -> (r: Result<StageDuration, GetDurationError>)
        ensures
            configured_secs(self.source(), stage) == 0 <==> r is Err,
            r matches Err(e) ==> e == (GetDurationError::Invalid {
                source: TryNewStageDurationError::Zero,
            }),
            r matches Ok(d) ==> d.wf() && d.secs() == configured_secs(self.source(), stage),
    {
        let raw = match stage {
            StageState::Preparation => self.config.duration.preparation,
            StageState::Concentration => self.config.duration.concentration,
            StageState::Relaxation => self.config.duration.relaxation,
        };
        match StageDuration::try_new(raw) {
            Ok(d) => Ok(d),
            Err(err) => Err(GetDurationError::Invalid { source: err }),
        }
    }

    /// The duration of the preparation stage; zero is refused.
    pub fn preparation_duration(&self) -> (r: Result<StageDuration, GetDurationError>)
        ensures
            self.source().duration.preparation == 0 <==> r is Err,
            r matches Err(e) ==> e == (GetDurationError::Invalid {
                source: TryNewStageDurationError::Zero,
            }),
            r matches Ok(d) ==> d.wf() && d.secs() == self.source().duration.preparation,
    {
        self.get(StageState::Preparation)
    }

    /// The duration of the concentration stage; zero is refused.
    pub fn concentration_duration(&self) -> (r: Result<StageDuration, GetDurationError>)
        ensures
            self.source().duration.concentration == 0 <==> r is Err,
            r matches Err(e) ==> e == (GetDurationError::Invalid {
                source: TryNewStageDurationError::Zero,
            }),
            r matches Ok(d) ==> d.wf() && d.secs() == self.source().duration.concentration,
    {
        self.get(StageState::Concentration)
    }

    /// The duration of the relaxation stage; zero is refused.
    pub fn relaxation_duration(&self) -> (r: Result<StageDuration, GetDurationError>)
        ensures
            self.source().duration.relaxation == 0 <==> r is Err,
            r matches Err(e) ==> e == (GetDurationError::Invalid {
                source: TryNewStageDurationError::Zero,
            }),
            r matches Ok(d) ==> d.wf() && d.secs() == self.source().duration.relaxation,
    {
        self.get(StageState::Relaxation)
    }
}

/// The stage notifications that a configuration holds.
pub struct NotificationConfiguration {
    config: Arc<Configuration>,
}

impl NotificationConfiguration {
    /// The configuration read from.
    pub closed spec fn source(self) -> Configuration {
        *self.config
    }

    /// Reads notifications from `config`.
    pub fn new(config: Arc<Configuration>) -> (r: Self)
        ensures
            r.source() == *config,
    {
        NotificationConfiguration { config }
    }

    fn get(&self, stage: StageState) -> (r: Result<NotificationMessage, GetNotificationError>)
        ensures
            configured_message(self.source(), stage).summary@.len() == 0 <==> r is Err,
            r matches Err(e) ==> e == (GetNotificationError::Invalid {
                source: TryNewNotificationMessageError::EmptySummary,
            }),
            r matches Ok(m) ==> m.wf() && m.summary_view() == configured_message(
                self.source(),
                stage,
            ).summary@ && m.body_view() == opt_view(configured_message(self.source(), stage).body),
    {
        let section = match stage {
            StageState::Preparation => &self.config.notification.preparation,
            StageState::Concentration => &self.config.notification.concentration,
            StageState::Relaxation => &self.config.notification.relaxation,
        };
        match NotificationMessage::try_new(section.summary.clone(), copy_body(&section.body)) {
            Ok(m) => Ok(m),
            Err(err) => Err(GetNotificationError::Invalid { source: err }),
        }
    }

    /// The notification of the preparation stage; an empty summary is
    /// refused.
    pub fn preparation_notification(&self) -> (r: Result<NotificationMessage, GetNotificationError>)
        ensures
            configured_message(self.source(), StageState::Preparation).summary@.len() == 0
                <==> r is Err,
            r matches Ok(m) ==> m.wf() && m.summary_view() == configured_message(
                self.source(),
                StageState::Preparation,
            ).summary@,
    {
        self.get(StageState::Preparation)
    }

    /// The notification of the concentration stage; an empty summary is
    /// refused.
    pub fn concentration_notification(&self) -> (r: Result<
        NotificationMessage,
        GetNotificationError,
    >)
        ensures
            configured_message(self.source(), StageState::Concentration).summary@.len() == 0
                <==> r is Err,
            r matches Ok(m) ==> m.wf() && m.summary_view() == configured_message(
                self.source(),
                StageState::Concentration,
            ).summary@,
    {
        self.get(StageState::Concentration)
    }

    /// The notification of the relaxation stage; an empty summary is refused.
    pub fn relaxation_notification(&self) -> (r: Result<NotificationMessage, GetNotificationError>)
        ensures
            configured_message(self.source(), StageState::Relaxation).summary@.len() == 0
                <==> r is Err,
            r matches Ok(m) ==> m.wf() && m.summary_view() == configured_message(
                self.source(),
                StageState::Relaxation,
            ).summary@,
    {
        self.get(StageState::Relaxation)
    }
}

/// The worker's settings, drawn once from the configuration: each stage's
/// duration, then each stage's notification. The first invalid one, in that
/// order, is reported with its stage.
pub fn load_config(durations: &DurationConfiguration, notifications: &NotificationConfiguration) -> (r:
    Result<WorkerConfig, SpawnWorkerError>)
    requires
        durations.source() == notifications.source(),
    ensures
        match first_flaw(durations.source()) {
            Some(e) => r == Err::<WorkerConfig, SpawnWorkerError>(e),
            None => r matches Ok(w) && w.wf() && drawn_from(w, durations.source()),
        },
{
    let preparation_duration = match durations.get(StageState::Preparation) {
        Ok(d) => d,
        Err(source) => {
            return Err(SpawnWorkerError::DurationConfig { key: StageState::Preparation, source });
        },
    };
    let concentration_duration = match durations.get(StageState::Concentration) {
        Ok(d) => d,
        Err(source) => {
            return Err(SpawnWorkerError::DurationConfig { key: StageState::Concentration, source });
        },
    };
    let relaxation_duration = match durations.get(StageState::Relaxation) {
        Ok(d) => d,
        Err(source) => {
            return Err(SpawnWorkerError::DurationConfig { key: StageState::Relaxation, source });
        },
    };
    let preparation_notification = match notifications.get(StageState::Preparation) {
        Ok(m) => m,
        Err(source) => {
            return Err(SpawnWorkerError::NotificationConfig { key: StageState::Preparation, source });
        },
    };
    let concentration_notification = match notifications.get(StageState::Concentration) {
        Ok(m) => m,
        Err(source) => {
            return Err(
                SpawnWorkerError::NotificationConfig { key: StageState::Concentration, source },
            );
        },
    };
    let relaxation_notification = match notifications.get(StageState::Relaxation) {
        Ok(m) => m,
        Err(source) => {
            return Err(SpawnWorkerError::NotificationConfig { key: StageState::Relaxation, source });
        },
    };
    let w = WorkerConfig {
        preparation_duration,
        concentration_duration,
        relaxation_duration,
        preparation_notification,
        concentration_notification,
        relaxation_notification,
    };
    assert forall|s: StageState| {
        &&& #[trigger] w.duration_of(s).secs() == configured_secs(durations.source(), s)
        &&& w.notification_of(s).summary_view() == configured_message(durations.source(), s).summary@
        &&& w.notification_of(s).body_view() == opt_view(
            configured_message(durations.source(), s).body,
        )
    } by {
        match s {
            StageState::Preparation => {},
            StageState::Concentration => {},
            StageState::Relaxation => {},
        }
    }
    Ok(w)
}

} // verus!
