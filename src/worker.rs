//! The worker: the one state machine that owns the timer. It is driven from
//! outside, one event at a time (the stage timer fired, a command arrived),
//! and answers each event with its next state and the effects to perform:
//! which timer to run, which notification to show, what to reply to a query.
//! Instants are spans since a fixed origin of a monotonic clock.

use vstd::prelude::*;
use crate::entity::{NotificationMessage, StageDuration};
use crate::span::{max_span, Span};
use crate::stage::{next_stage, StageState};

verus! {

/// The settings the worker is started with: a duration and a notification
/// for each stage. They do not change while the worker lives.
#[derive(Debug, Clone, PartialEq, Eq)]
pub struct WorkerConfig {
    pub preparation_duration: StageDuration,
    pub concentration_duration: StageDuration,
    pub relaxation_duration: StageDuration,
    pub preparation_notification: NotificationMessage,
    pub concentration_notification: NotificationMessage,
    pub relaxation_notification: NotificationMessage,
}

impl WorkerConfig {
    /// Every duration is positive and every summary non-empty.
    pub open spec fn wf(self) -> bool {
        &&& self.preparation_duration.wf()
        &&& self.concentration_duration.wf()
        &&& self.relaxation_duration.wf()
        &&& self.preparation_notification.wf()
        &&& self.concentration_notification.wf()
        &&& self.relaxation_notification.wf()
    }

    /// The duration configured for `stage`.
    pub open spec fn duration_of(self, stage: StageState) -> StageDuration {
        match stage {
            StageState::Preparation => self.preparation_duration,
            StageState::Concentration => self.concentration_duration,
            StageState::Relaxation => self.relaxation_duration,
        }
    }

    /// The notification configured for `stage`.
    pub open spec fn notification_of(self, stage: StageState) -> NotificationMessage {
        match stage {
            StageState::Preparation => self.preparation_notification,
            StageState::Concentration => self.concentration_notification,
            StageState::Relaxation => self.relaxation_notification,
        }
    }

    /// The full length of `stage` as a span.
    pub open spec fn total_of(self, stage: StageState) -> Span {
        Span { secs: self.duration_of(stage).secs(), nanos: 0 }
    }

    /// The duration configured for `stage`.
    pub fn duration(&self, stage: StageState) -> (r: &StageDuration)
        ensures
            *r == self.duration_of(stage),
    {
        match stage {
            StageState::Preparation => &self.preparation_duration,
            StageState::Concentration => &self.concentration_duration,
            StageState::Relaxation => &self.relaxation_duration,
        }
    }

    /// The notification configured for `stage`.
    pub fn notification(&self, stage: StageState) -> (r: &NotificationMessage)
        ensures
            *r == self.notification_of(stage),
    {
        match stage {
            StageState::Preparation => &self.preparation_notification,
            StageState::Concentration => &self.concentration_notification,
            StageState::Relaxation => &self.relaxation_notification,
        }
    }
}

/// What a query of the worker finds: the full length of the current stage,
/// the time spent in it so far, and the stage.
#[derive(Debug, Clone, Copy, PartialEq, Eq)]
pub struct QueryResponse {
    pub total: Span,
    pub past: Span,
    pub stage: StageState,
}

/// A command sent to the worker.
#[derive(Debug, Clone, Copy, PartialEq, Eq)]
pub enum Command {
    Pause,
    Resume,
    Skip,
    Query,
    Stop,
}

/// What the worker reacts to.
#[derive(Debug, Clone, Copy, PartialEq, Eq)]
pub enum Event {
    /// The worker is run for the first time; it waited for nothing.
    Start,
    /// The stage timer fired.
    Tick,
    /// A command arrived.
    Command(Command),
    /// The command queue was closed.
    Closed,
}

/// What the worker waits for in its current state.
#[derive(Debug, Clone, Copy, PartialEq, Eq)]
pub enum Wait {
    /// Nothing: it is run at once, with [`Event::Start`].
    Nothing,
    /// The stage timer or the next command, whichever comes first.
    TimerOrCommand,
    /// The next command only; no timer runs.
    Command,
    /// Nothing any more: the worker has stopped.
    Exit,
}

/// What becomes of the stage timer.
#[derive(Debug, Clone, Copy, PartialEq, Eq)]
pub enum TimerAction {
    /// The running timer, if any, goes on.
    Keep,
    /// A new timer replaces the old one and fires after this span.
    Start(Span),
    /// The timer is dropped.
    Cancel,
}

/// The effects of one step of the worker.
#[derive(Debug, Clone, Copy, PartialEq, Eq)]
pub struct Effect {
    pub timer: TimerAction,
    /// Show the notification configured for this stage.
    pub notify: Option<StageState>,
    /// Answer the query with this.
    pub reply: Option<QueryResponse>,
}

/// The worker runs a timer for `stage`, started at `start`, after `past`
/// had already been spent in the stage.
#[derive(Debug, Clone, Copy, PartialEq, Eq)]
pub struct RunningState {
    pub start: Span,
    pub past: Span,
    pub stage: StageState,
}

/// The worker is paused in `stage` after `past` was spent in it.
#[derive(Debug, Clone, Copy, PartialEq, Eq)]
pub struct PausedState {
    pub past: Span,
    pub stage: StageState,
}

/// The states of the worker.
#[derive(Debug, Clone, Copy, PartialEq, Eq)]
pub enum WorkerStateInner {
    Ready,
    Running(RunningState),
    Paused(PausedState),
    Stopped,
}

/// The empty span, as a value.
pub open spec fn no_time() -> Span {
    Span { secs: 0, nanos: 0 }
}

/// The effect that leaves everything as it is.
pub open spec fn no_effect() -> Effect {
    Effect { timer: TimerAction::Keep, notify: None, reply: None }
}

/// The time spent in the stage of `r` at instant `now`.
pub open spec fn elapsed(r: RunningState, now: Span) -> int {
    r.past@ + (now@ - r.start@)
}

/// `t` runs `stage` from its start at `now`, and `fx` starts a timer for its
/// full length, notifying of `notified` if that is given.
pub open spec fn begins_stage(
    c: WorkerConfig,
    stage: StageState,
    now: Span,
    t: WorkerStateInner,
    fx: Effect,
    notified: Option<StageState>,
) -> bool {
    &&& t == WorkerStateInner::Running(RunningState { start: now, past: no_time(), stage })
    &&& fx == Effect { timer: TimerAction::Start(c.total_of(stage)), notify: notified, reply: None }
}

impl WorkerStateInner {
    /// The spans held are well formed.
    pub open spec fn wf(self) -> bool {
        match self {
            WorkerStateInner::Running(r) => r.start.wf() && r.past.wf(),
            WorkerStateInner::Paused(p) => p.past.wf(),
            _ => true,
        }
    }

    /// `now` is a valid instant for this state: the clock has not gone back
    /// since the timer started, and the time spent in the stage fits a span.
    pub open spec fn accepts_time(self, now: Span) -> bool {
        &&& now.wf()
        &&& self matches WorkerStateInner::Running(r) ==> r.start@ <= now@ && elapsed(r, now)
            <= max_span()
    }

    /// The state that a fresh worker starts in.
    pub fn new() -> (r: Self)
        ensures
            r == WorkerStateInner::Ready,
    {
        WorkerStateInner::Ready
    }
}

/// One step of the worker: in state `s`, on event `e` at instant `now`, it
/// goes to state `t` with effects `fx`.
pub open spec fn steps_to(
    c: WorkerConfig,
    s: WorkerStateInner,
    e: Event,
    now: Span,
    t: WorkerStateInner,
    fx: Effect,
) -> bool {
    match s {
        WorkerStateInner::Ready => begins_stage(c, StageState::Preparation, now, t, fx, None),
        WorkerStateInner::Running(r) => match e {
            Event::Tick => begins_stage(c, next_stage(r.stage), now, t, fx, Some(r.stage)),
            Event::Command(Command::Pause) => {
                &&& t matches WorkerStateInner::Paused(p) && p.stage == r.stage && p.past.wf()
                    && p.past@ == elapsed(r, now)
                &&& fx == Effect { timer: TimerAction::Cancel, notify: None, reply: None }
            },
            Event::Command(Command::Skip) => begins_stage(
                c,
                next_stage(r.stage),
                now,
                t,
                fx,
                None,
            ),
            Event::Command(Command::Query) => {
                &&& t == s
                &&& fx.timer == TimerAction::Keep && fx.notify is None
                &&& fx.reply matches Some(q) && q.total == c.total_of(r.stage) && q.stage
                    == r.stage && q.past.wf() && q.past@ == elapsed(r, now)
            },
            Event::Command(Command::Stop) => t == WorkerStateInner::Stopped && fx == Effect {
                timer: TimerAction::Cancel,
                notify: None,
                reply: None,
            },
            _ => t == s && fx == no_effect(),
        },
        WorkerStateInner::Paused(p) => match e {
            Event::Command(Command::Resume) => {
                &&& t == WorkerStateInner::Running(
                    RunningState { start: now, past: p.past, stage: p.stage },
                )
                &&& fx.notify is None && fx.reply is None
                &&& fx.timer matches TimerAction::Start(d) && d.wf() && d@ == if p.past@
                    <= c.total_of(p.stage)@ {
                    c.total_of(p.stage)@ - p.past@
                } else {
                    0
                }
            },
            Event::Command(Command::Skip) => begins_stage(
                c,
                next_stage(p.stage),
                now,
                t,
                fx,
                None,
            ),
            Event::Command(Command::Query) => t == s && fx == Effect {
                timer: TimerAction::Keep,
                notify: None,
                reply: Some(QueryResponse { total: c.total_of(p.stage), past: p.past, stage: p.stage }),
            },
            Event::Command(Command::Stop) => t == WorkerStateInner::Stopped && fx == Effect {
                timer: TimerAction::Cancel,
                notify: None,
                reply: None,
            },
            _ => t == s && fx == no_effect(),
        },
        WorkerStateInner::Stopped => t == s && fx == no_effect(),
    }
}

/// Starts `stage` at `now` with a timer of its full length.
fn begin_stage(config: &WorkerConfig, stage: StageState, now: Span, notify: Option<StageState>) -> (r: (
    WorkerStateInner,
    Effect,
))
    requires
        now.wf(),
    ensures
        begins_stage(*config, stage, now, r.0, r.1, notify),
        r.0.wf(),
{
    let total = config.duration(stage).inner();
    (
        WorkerStateInner::Running(RunningState { start: now, past: Span::zero(), stage }),
        Effect { timer: TimerAction::Start(total), notify, reply: None },
    )
}

/// The worker before its first run.
pub struct ReadyState;

impl ReadyState {
    /// Starts the initial stage: a timer of its full length, and nothing
    /// spent in it yet.
    pub fn run(self, config: &WorkerConfig, now: Span) -> (r: (WorkerStateInner, Effect))
        requires
            now.wf(),
        ensures
            begins_stage(*config, StageState::Preparation, now, r.0, r.1, None),
            r.0.wf(),
    {
        begin_stage(config, StageState::initial(), now, None)
    }
}

impl RunningState {
    /// The timer fired: notify of the stage that ended and start the next
    /// one.
    pub fn handle_tick(self, config: &WorkerConfig, now: Span) -> (r: (WorkerStateInner, Effect))
        requires
            now.wf(),
        ensures
            begins_stage(*config, next_stage(self.stage), now, r.0, r.1, Some(self.stage)),
            r.0.wf(),
    {
        begin_stage(config, self.stage.next(), now, Some(self.stage))
    }

    /// Already running: nothing changes.
    pub fn handle_resume(self) -> (r: (WorkerStateInner, Effect))
        ensures
            r.0 == WorkerStateInner::Running(self),
            r.1 == no_effect(),
    {
        (WorkerStateInner::Running(self), Effect { timer: TimerAction::Keep, notify: None, reply: None })
    }

    /// The time spent in the stage so far.
    fn past_at(&self, now: Span) -> (r: Span)
        requires
            self.start.wf(),
            self.past.wf(),
            now.wf(),
            self.start@ <= now@,
            elapsed(*self, now) <= max_span(),
        ensures
            r.wf(),
            r@ == elapsed(*self, now),
    {
        self.past.add(&now.saturating_sub(&self.start))
    }

    /// Freeze the time spent in the stage and drop the timer.
    pub fn handle_pause(self, now: Span) -> (r: (WorkerStateInner, Effect))
        requires
            WorkerStateInner::Running(self).wf(),
            WorkerStateInner::Running(self).accepts_time(now),
        ensures
            r.0 matches WorkerStateInner::Paused(p) && p.stage == self.stage && p.past.wf()
                && p.past@ == elapsed(self, now),
            r.1 == (Effect { timer: TimerAction::Cancel, notify: None, reply: None }),
    {
        let past = self.past_at(now);
        (
            WorkerStateInner::Paused(PausedState { past, stage: self.stage }),
            Effect { timer: TimerAction::Cancel, notify: None, reply: None },
        )
    }

    /// Move on to the next stage at once, without a notification.
    pub fn handle_skip(self, config: &WorkerConfig, now: Span) -> (r: (WorkerStateInner, Effect))
        requires
            now.wf(),
        ensures
            begins_stage(*config, next_stage(self.stage), now, r.0, r.1, None),
            r.0.wf(),
    {
        begin_stage(config, self.stage.next(), now, None)
    }

    /// Report the stage, its full length and the time spent in it.
    pub fn handle_query(self, config: &WorkerConfig, now: Span) -> (r: (WorkerStateInner, Effect))
        requires
            WorkerStateInner::Running(self).wf(),
            WorkerStateInner::Running(self).accepts_time(now),
        ensures
            r.0 == WorkerStateInner::Running(self),
            r.1.timer == TimerAction::Keep,
            r.1.notify is None,
            r.1.reply matches Some(q) && q.total == config.total_of(self.stage) && q.stage
                == self.stage && q.past.wf() && q.past@ == elapsed(self, now),
    {
        let reply = QueryResponse {
            total: config.duration(self.stage).inner(),
            past: self.past_at(now),
            stage: self.stage,
        };
        (
            WorkerStateInner::Running(self),
            Effect { timer: TimerAction::Keep, notify: None, reply: Some(reply) },
        )
    }

    /// Stop the worker.
    pub fn handle_stop(self) -> (r: (WorkerStateInner, Effect))
        ensures
            r.0 == WorkerStateInner::Stopped,
            r.1 == (Effect { timer: TimerAction::Cancel, notify: None, reply: None }),
    {
        (WorkerStateInner::Stopped, Effect { timer: TimerAction::Cancel, notify: None, reply: None })
    }

    /// React to one event.
    pub fn run(self, config: &WorkerConfig, event: Event, now: Span) -> (r: (
        WorkerStateInner,
        Effect,
    ))
        requires
            WorkerStateInner::Running(self).wf(),
            WorkerStateInner::Running(self).accepts_time(now),
        ensures
            steps_to(*config, WorkerStateInner::Running(self), event, now, r.0, r.1),
            r.0.wf(),
    {
        match event {
            Event::Tick => self.handle_tick(config, now),
            Event::Command(Command::Pause) => self.handle_pause(now),
            Event::Command(Command::Resume) => self.handle_resume(),
            Event::Command(Command::Skip) => self.handle_skip(config, now),
            Event::Command(Command::Query) => self.handle_query(config, now),
            Event::Command(Command::Stop) => self.handle_stop(),
            _ => (
                WorkerStateInner::Running(self),
                Effect { timer: TimerAction::Keep, notify: None, reply: None },
            ),
        }
    }
}

impl PausedState {
    /// Already paused: nothing changes.
    pub fn handle_pause(self) -> (r: (WorkerStateInner, Effect))
        ensures
            r.0 == WorkerStateInner::Paused(self),
            r.1 == no_effect(),
    {
        (WorkerStateInner::Paused(self), Effect { timer: TimerAction::Keep, notify: None, reply: None })
    }

    /// Run again from `now`, with a timer for what is left of the stage.
    pub fn handle_resume(self, config: &WorkerConfig, now: Span) -> (r: (WorkerStateInner, Effect))
        requires
            self.past.wf(),
        ensures
            r.0 == WorkerStateInner::Running(
                RunningState { start: now, past: self.past, stage: self.stage },
            ),
            r.1.notify is None,
            r.1.reply is None,
            r.1.timer matches TimerAction::Start(d) && d.wf() && d@ == if self.past@
                <= config.total_of(self.stage)@ {
                config.total_of(self.stage)@ - self.past@
            } else {
                0
            },
    {
        let total = config.duration(self.stage).inner();
        let left = total.saturating_sub(&self.past);
        (
            WorkerStateInner::Running(RunningState { start: now, past: self.past, stage: self.stage }),
            Effect { timer: TimerAction::Start(left), notify: None, reply: None },
        )
    }

    /// Move on to the next stage and run it, without a notification.
    pub fn handle_skip(self, config: &WorkerConfig, now: Span) -> (r: (WorkerStateInner, Effect))
        requires
            now.wf(),
        ensures
            begins_stage(*config, next_stage(self.stage), now, r.0, r.1, None),
            r.0.wf(),
    {
        begin_stage(config, self.stage.next(), now, None)
    }

    /// Report the stage, its full length and the time spent in it.
    pub fn handle_query(self, config: &WorkerConfig) -> (r: (WorkerStateInner, Effect))
        ensures
            r.0 == WorkerStateInner::Paused(self),
            r.1 == (Effect {
                timer: TimerAction::Keep,
                notify: None,
                reply: Some(
                    QueryResponse {
                        total: config.total_of(self.stage),
                        past: self.past,
                        stage: self.stage,
                    },
                ),
            }),
    {
        let reply = QueryResponse {
            total: config.duration(self.stage).inner(),
            past: self.past,
            stage: self.stage,
        };
        (
            WorkerStateInner::Paused(self),
            Effect { timer: TimerAction::Keep, notify: None, reply: Some(reply) },
        )
    }

    /// Stop the worker.
    pub fn handle_stop(self) -> (r: (WorkerStateInner, Effect))
        ensures
            r.0 == WorkerStateInner::Stopped,
            r.1 == (Effect { timer: TimerAction::Cancel, notify: None, reply: None }),
    {
        (WorkerStateInner::Stopped, Effect { timer: TimerAction::Cancel, notify: None, reply: None })
    }

    /// React to one event.
    pub fn run(self, config: &WorkerConfig, event: Event, now: Span) -> (r: (
        WorkerStateInner,
        Effect,
    ))
        requires
            self.past.wf(),
            now.wf(),
        ensures
            steps_to(*config, WorkerStateInner::Paused(self), event, now, r.0, r.1),
            r.0.wf(),
    {
        match event {
            Event::Command(Command::Pause) => self.handle_pause(),
            Event::Command(Command::Resume) => self.handle_resume(config, now),
            Event::Command(Command::Skip) => self.handle_skip(config, now),
            Event::Command(Command::Query) => self.handle_query(config),
            Event::Command(Command::Stop) => self.handle_stop(),
            _ => (
                WorkerStateInner::Paused(self),
                Effect { timer: TimerAction::Keep, notify: None, reply: None },
            ),
        }
    }
}

/// The state of the worker, which it alone owns and changes.
#[derive(Debug)]
pub struct WorkerState {
    inner: WorkerStateInner,
}

impl View for WorkerState {
    type V = WorkerStateInner;

    closed spec fn view(&self) -> WorkerStateInner {
        self.inner
    }
}

impl WorkerState {
    /// A worker that has not run yet.
    pub fn new() -> (r: Self)
        ensures
            r@ == WorkerStateInner::Ready,
    {
        WorkerState { inner: WorkerStateInner::new() }
    }

    /// The current state.
    pub fn inner(&self) -> (r: WorkerStateInner)
        ensures
            r == self@,
    {
        self.inner
    }

    /// Whether the worker has stopped for good.
    pub fn is_stopped(&self) -> (r: bool)
        ensures
            r == (self@ == WorkerStateInner::Stopped),
    {
        match self.inner {
            WorkerStateInner::Stopped => true,
            _ => false,
        }
    }

    /// Whether the state is well formed and `now` a valid instant for the
    /// next step: the condition under which [`WorkerState::run`] may be
    /// called.
    pub fn accepts(&self, now: Span) -> (r: bool)
        ensures
            r == (self@.wf() && self@.accepts_time(now)),
    {
        if now.nanos >= crate::span::NANOS_PER_SEC {
            return false;
        }
        match self.inner {
            WorkerStateInner::Running(r) => {
                if r.start.nanos >= crate::span::NANOS_PER_SEC || r.past.nanos
                    >= crate::span::NANOS_PER_SEC || !r.start.le(&now) {
                    false
                } else {
                    r.past.checked_add(&now.saturating_sub(&r.start)).is_some()
                }
            },
            WorkerStateInner::Paused(p) => p.past.nanos < crate::span::NANOS_PER_SEC,
            _ => true,
        }
    }

    /// What the worker waits for before its next step.
    pub fn waits_for(&self) -> (r: Wait)
        ensures
            r == match self@ {
                WorkerStateInner::Ready => Wait::Nothing,
                WorkerStateInner::Running(_) => Wait::TimerOrCommand,
                WorkerStateInner::Paused(_) => Wait::Command,
                WorkerStateInner::Stopped => Wait::Exit,
            },
    {
        match self.inner {
            WorkerStateInner::Ready => Wait::Nothing,
            WorkerStateInner::Running(_) => Wait::TimerOrCommand,
            WorkerStateInner::Paused(_) => Wait::Command,
            WorkerStateInner::Stopped => Wait::Exit,
        }
    }

    /// Takes one step: reacts to `event`, which happened at `now`, and
    /// returns the effects to perform.
    pub fn run(&mut self, config: &WorkerConfig, event: Event, now: Span) -> (r: Effect)
        requires
            old(self)@.wf(),
            old(self)@.accepts_time(now),
        ensures
            steps_to(*config, old(self)@, event, now, final(self)@, r),
            final(self)@.wf(),
    {
        let (inner, effect) = match self.inner {
            WorkerStateInner::Ready => ReadyState.run(config, now),
            WorkerStateInner::Running(r) => r.run(config, event, now),
            WorkerStateInner::Paused(p) => p.run(config, event, now),
            WorkerStateInner::Stopped => (
                WorkerStateInner::Stopped,
                Effect { timer: TimerAction::Keep, notify: None, reply: None },
            ),
        };
        self.inner = inner;
        effect
    }
}

/// A fresh worker, run once and then queried at the same instant, is in the
/// preparation stage with its full length ahead and nothing spent, and its
/// first step started a timer for that full length.
pub proof fn lemma_fresh_worker_query(
    c: WorkerConfig,
    first: Event,
    now: Span,
    s1: WorkerStateInner,
    fx1: Effect,
    s2: WorkerStateInner,
    fx2: Effect,
)
    requires
        now.wf(),
        steps_to(c, WorkerStateInner::Ready, first, now, s1, fx1),
        steps_to(c, s1, Event::Command(Command::Query), now, s2, fx2),
    ensures
        fx1.timer == TimerAction::Start(c.total_of(StageState::Preparation)),
        fx2.reply matches Some(q) && q.stage == StageState::Preparation && q.total == c.total_of(
            StageState::Preparation,
        ) && q.past@ == 0,
        fx1.notify is None && fx2.notify is None,
{
}

/// Pausing a running worker freezes the time spent in the stage: a later
/// query, at any instant, reports what had been spent when the pause came,
/// in the same stage, and neither step shows a notification.
pub proof fn lemma_pause_then_query(
    c: WorkerConfig,
    r: RunningState,
    paused_at: Span,
    s1: WorkerStateInner,
    fx1: Effect,
    queried_at: Span,
    s2: WorkerStateInner,
    fx2: Effect,
)
    requires
        steps_to(c, WorkerStateInner::Running(r), Event::Command(Command::Pause), paused_at, s1, fx1),
        steps_to(c, s1, Event::Command(Command::Query), queried_at, s2, fx2),
    ensures
        fx2.reply matches Some(q) && q.stage == r.stage && q.past@ == r.past@ + (paused_at@
            - r.start@),
        fx1.notify is None && fx2.notify is None,
        s2 == s1,
{
}

/// Resuming a paused worker starts a timer for what is left of the stage;
/// when it fires, exactly the notification of that stage is shown and the
/// next stage runs from its start.
pub proof fn lemma_resume_then_tick(
    c: WorkerConfig,
    p: PausedState,
    resumed_at: Span,
    s1: WorkerStateInner,
    fx1: Effect,
    fired_at: Span,
    s2: WorkerStateInner,
    fx2: Effect,
)
    requires
        p.past@ <= c.total_of(p.stage)@,
        steps_to(c, WorkerStateInner::Paused(p), Event::Command(Command::Resume), resumed_at, s1, fx1),
        steps_to(c, s1, Event::Tick, fired_at, s2, fx2),
    ensures
        fx1.timer matches TimerAction::Start(d) && d@ == c.total_of(p.stage)@ - p.past@,
        fx1.notify is None,
        fx2.notify == Some(p.stage),
        s2 == WorkerStateInner::Running(
            RunningState { start: fired_at, past: no_time(), stage: next_stage(p.stage) },
        ),
        fx2.timer == TimerAction::Start(c.total_of(next_stage(p.stage))),
{
}

/// The stage of a running or paused worker.
pub open spec fn current_stage(s: WorkerStateInner) -> StageState {
    match s {
        WorkerStateInner::Running(r) => r.stage,
        WorkerStateInner::Paused(p) => p.stage,
        _ => StageState::Preparation,
    }
}

/// Skipping, whether running or paused, moves to the next stage with nothing
/// spent in it, starts its full timer, and shows no notification.
pub proof fn lemma_skip(c: WorkerConfig, s: WorkerStateInner, now: Span, t: WorkerStateInner, fx: Effect)
    requires
        s is Running || s is Paused,
        steps_to(c, s, Event::Command(Command::Skip), now, t, fx),
    ensures
        t == WorkerStateInner::Running(
            RunningState { start: now, past: no_time(), stage: next_stage(current_stage(s)) },
        ),
        fx.notify is None,
        fx.timer == TimerAction::Start(c.total_of(next_stage(current_stage(s)))),
{
}

} // verus!
