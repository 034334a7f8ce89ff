//! A scripted shaping session: enable, replay the timeline, and always clean
//! up.
//!
//! The session is a machine. `start` and `resume` name the next thing for
//! the caller to do: perform a backend command, read the clock, sleep, or stop
//! with the session's result. The caller does it and hands back what came of
//! it: the outcome of the command, or the clock reading.

use crate::backend::{
    error_of,
    failure_of,
    local_time_stamp,
    unexpected_reply,
    Command,
    CommandView,
    Outcome,
    OutcomeView,
    Step,
    StepView,
};
use crate::config::{ApplyConfig, ErrorView, TrafficConfig, TrafficShapingError};
use crate::driver::{change_of, Decision, Driver, DriverView};
use crate::models::{Events, Manifest};
use crate::shaper::{
    failure_view,
    SessionState,
    ShaperView,
    Stage,
    TrafficShaper,
};
use vstd::prelude::*;
use vstd::std_specs::convert::FromSpec;

verus! {

/// Why a session failed.
#[derive(Debug, Clone, PartialEq, Eq)]
pub enum SimulationError {
    SystemError(TrafficShapingError),
}

impl View for SimulationError {
    type V = ErrorView;

    /// The error that the session surfaced.
    open spec fn view(&self) -> ErrorView {
        match self {
            SimulationError::SystemError(error) => error@,
        }
    }
}

/// What the caller of a session is to do next.
#[derive(Debug, PartialEq, Eq)]
pub enum Action {
    /// Perform the command and resume with its outcome.
    Backend(Command),
    /// Read the clock and resume with the reading.
    ReadClock,
    /// Sleep until the clock reads `deadline`, then resume with the reading.
    Sleep { deadline: u128 },
    /// Stop: the session is over, with this result.
    Finish(Result<(), SimulationError>),
}

/// `Action` with its texts as sequences of characters. A finish holds the
/// error, if there was one.
pub enum ActionView {
    Backend(CommandView),
    ReadClock,
    Sleep { deadline: u128 },
    Finish(Option<ErrorView>),
}

impl View for Action {
    type V = ActionView;

    open spec fn view(&self) -> ActionView {
        match self {
            Action::Backend(command) => ActionView::Backend(command@),
            Action::ReadClock => ActionView::ReadClock,
            Action::Sleep { deadline } => ActionView::Sleep { deadline: *deadline },
            Action::Finish(Ok(_)) => ActionView::Finish(None),
            Action::Finish(Err(error)) => ActionView::Finish(Some(error@)),
        }
    }
}

/// What came of an action.
#[derive(Debug, Clone, PartialEq, Eq)]
pub enum Event {
    /// The outcome of a backend command.
    Reply(Outcome),
    /// The clock reading, in nanoseconds since the clock's origin: the answer
    /// to `ReadClock`, and the reading on waking from a `Sleep`.
    Time(u64),
}

/// `Event` with its texts as sequences of characters.
pub enum EventView {
    Reply(OutcomeView),
    Time(u64),
}

impl View for Event {
    type V = EventView;

    open spec fn view(&self) -> EventView {
        match self {
            Event::Reply(outcome) => EventView::Reply(outcome@),
            Event::Time(now) => EventView::Time(*now),
        }
    }
}

/// How far a session has come.
#[derive(Debug, Clone, Copy, PartialEq, Eq, Structural)]
pub enum Phase {
    /// `start` has not been called.
    NotStarted,
    /// The configuration was refused; nothing was done to the backend.
    Rejected,
    /// The shaper is being enabled.
    Enabling,
    /// The clock is being read for the epoch.
    Starting,
    /// A due event's change is being applied.
    Applying,
    /// The session sleeps until the next event is due.
    Sleeping,
    /// The shaper is being cleaned up.
    Cleaning,
    /// The session is over.
    Finished,
}

/// The error that stands for an event of the wrong kind.
pub open spec fn unexpected() -> ErrorView {
    ErrorView::CommandError(unexpected_reply())
}

/// The outcome that an event hands to the shaper. A clock reading where an
/// outcome was awaited counts as a failure of the command.
pub open spec fn reply_of(event: EventView) -> OutcomeView {
    match event {
        EventView::Reply(outcome) => outcome,
        EventView::Time(_) => OutcomeView::Failed(unexpected()),
    }
}

/// Whether the stage is one of enabling.
pub open spec fn enabling(stage: Stage) -> bool {
    stage is Activating || stage is Querying || stage is Configuring || stage is ReadingBase
        || stage is InstallingAnchor || stage is InstallingRules || stage is OpeningReport
}

/// Whether the stage is one of applying a change.
pub open spec fn applying(stage: Stage) -> bool {
    stage is Updating || stage is Reporting
}

/// Whether the stage is one of cleaning up.
pub open spec fn cleaning(stage: Stage) -> bool {
    stage is Flushing || stage is Restoring || stage is Deactivating
}

/// A session's state.
pub struct SimulationView {
    pub shaper: ShaperView,
    pub driver: DriverView,
    pub phase: Phase,
    /// The clock reading of the wake-up under way.
    pub now: u64,
    /// The error that the session will surface.
    pub error: Option<ErrorView>,
}

impl SimulationView {
    /// A session that has not started.
    pub open spec fn initial(config: TrafficConfig, events: Seq<Events>, epoch: u64) -> Self {
        SimulationView {
            shaper: ShaperView {
                config,
                state: SessionState::Inactive,
                report_open: false,
                stage: Stage::Idle,
                failure: None,
            },
            driver: DriverView { pos: 0, events, epoch },
            phase: Phase::NotStarted,
            now: epoch,
            error: None,
        }
    }

    /// What holds of every session: the scheduler is within its timeline, and
    /// at an event while the change of one is applied; and the shaper is at a
    /// stage of the operation that the phase names, and active while the
    /// timeline is replayed.
    pub open spec fn wf(self) -> bool {
        &&& self.driver.pos <= self.driver.events.len()
        &&& match self.phase {
            Phase::NotStarted | Phase::Rejected | Phase::Finished => true,
            Phase::Enabling => enabling(self.shaper.stage),
            Phase::Starting | Phase::Sleeping => self.shaper.state == SessionState::Active,
            Phase::Applying => self.shaper.state == SessionState::Active && applying(
                self.shaper.stage,
            ) && self.driver.pos < self.driver.events.len(),
            Phase::Cleaning => cleaning(self.shaper.stage),
        }
    }

    /// The session begins to clean up, and will surface `error`.
    pub open spec fn clean_up(self, error: Option<ErrorView>) -> (SimulationView, ActionView) {
        let (shaper, command) = self.shaper.begin_cleanup();
        (
            SimulationView { shaper, phase: Phase::Cleaning, error, ..self },
            ActionView::Backend(command),
        )
    }

    /// One decision of the scheduler at the wake-up under way: the change of
    /// the next event begins to be applied if the event is due, the session
    /// sleeps if it is not, and cleans up when no event is left. The scheduler
    /// stays where it is.
    pub open spec fn wake(self) -> (SimulationView, ActionView) {
        match self.driver.poll(self.now) {
            Decision::Apply(change) => {
                let (shaper, command) = self.shaper.begin_apply(change);
                (
                    SimulationView { shaper, phase: Phase::Applying, ..self },
                    ActionView::Backend(command),
                )
            },
            Decision::Sleep { deadline } => (
                SimulationView { phase: Phase::Sleeping, ..self },
                ActionView::Sleep { deadline },
            ),
            Decision::Complete => self.clean_up(None),
        }
    }

    /// The change of the event that the scheduler is at has been applied: the
    /// scheduler moves on to the next event, and decides again at the same
    /// wake-up.
    pub open spec fn applied(self) -> (SimulationView, ActionView) {
        (SimulationView { driver: self.driver.advance(), ..self }).wake()
    }

    /// Whether the session has begun and is not over: something may be
    /// installed on the backend that is not cleaned up yet.
    pub open spec fn under_way(self) -> bool {
        self.phase is Enabling || self.phase is Starting || self.phase is Applying
            || self.phase is Sleeping || self.phase is Cleaning
    }

    /// A session that is given up: if it is under way, it stops where it is
    /// and cleans up, whatever action it was waiting on; a cleanup that was
    /// under way starts over. A session that was replaying its timeline
    /// finishes without an error, and one that was cleaning up with the error
    /// that it had. A session that is not under way has nothing to give up.
    pub open spec fn cancel(self) -> (SimulationView, ActionView) {
        if !self.under_way() {
            (self, ActionView::Finish(self.error))
        } else if self.phase is Cleaning {
            self.clean_up(self.error)
        } else {
            self.clean_up(None)
        }
    }

    /// The start of a session. A session that is under way already is given
    /// up first, so that nothing stays behind without a cleanup. Otherwise a
    /// configuration that construction would refuse ends the session at once,
    /// before anything is done to the backend, and any other has the shaper
    /// enabled.
    pub open spec fn begin(self) -> (SimulationView, ActionView) {
        if self.under_way() {
            self.cancel()
        } else {
            match self.shaper.config.rejection() {
                Some(error) => (
                    SimulationView { phase: Phase::Rejected, error: Some(error), ..self },
                    ActionView::Finish(Some(error)),
                ),
                None => {
                    let (shaper, command) = self.shaper.begin_enable();
                    (
                        SimulationView { shaper, phase: Phase::Enabling, error: None, ..self },
                        ActionView::Backend(command),
                    )
                },
            }
        }
    }

    /// Whether the event has the session write a record next.
    pub open spec fn records(self, event: EventView) -> bool {
        self.phase is Applying && self.shaper.records(reply_of(event))
    }

    /// What the session does with what came of its last action.
    pub open spec fn resume(self, event: EventView) -> (SimulationView, ActionView) {
        match self.phase {
            Phase::NotStarted | Phase::Rejected | Phase::Finished => (
                self,
                ActionView::Finish(self.error),
            ),
            Phase::Enabling => {
                let (shaper, step) = self.shaper.step(reply_of(event));
                let next = SimulationView { shaper, ..self };
                match step {
                    StepView::Run(command) => (next, ActionView::Backend(command)),
                    StepView::Finished(None) => (
                        SimulationView { phase: Phase::Starting, ..next },
                        ActionView::ReadClock,
                    ),
                    StepView::Finished(Some(error)) => next.clean_up(Some(error)),
                }
            },
            Phase::Starting => match event {
                EventView::Time(now) => (SimulationView {
                    driver: DriverView { pos: 0, epoch: now, ..self.driver },
                    now,
                    ..self
                }).wake(),
                EventView::Reply(outcome) => self.clean_up(Some(failure_of(outcome))),
            },
            Phase::Applying => {
                let (shaper, step) = self.shaper.step(reply_of(event));
                let next = SimulationView { shaper, ..self };
                match step {
                    StepView::Run(command) => (next, ActionView::Backend(command)),
                    StepView::Finished(None) => next.applied(),
                    StepView::Finished(Some(error)) => next.clean_up(Some(error)),
                }
            },
            Phase::Sleeping => match event {
                EventView::Time(now) => (SimulationView { now, ..self }).wake(),
                EventView::Reply(outcome) => self.clean_up(Some(failure_of(outcome))),
            },
            Phase::Cleaning => {
                let (shaper, step) = self.shaper.step(reply_of(event));
                let next = SimulationView { shaper, ..self };
                match step {
                    StepView::Run(command) => (next, ActionView::Backend(command)),
                    StepView::Finished(_) => (
                        SimulationView { phase: Phase::Finished, ..next },
                        ActionView::Finish(self.error),
                    ),
                }
            },
        }
    }
}

impl SimulationView {
    /// The actions that the session names when it is resumed with each of
    /// `events` in turn, and its state after the last.
    pub open spec fn run(self, events: Seq<EventView>) -> (SimulationView, Seq<ActionView>)
        decreases events.len(),
    {
        if events.len() == 0 {
            (self, Seq::empty())
        } else {
            let (next, action) = self.resume(events[0]);
            let (last, actions) = next.run(events.drop_first());
            (last, seq![action] + actions)
        }
    }

    /// How often the session has named `command`, one of the three of a
    /// cleanup, as far as its state tells: once the cleanup has come to it, and
    /// not before.
    pub open spec fn issued(self, command: CommandView) -> nat {
        let stage = self.shaper.stage;
        if self.phase is Finished {
            1
        } else if !(self.phase is Cleaning) {
            0
        } else if command is FlushLimiters {
            1
        } else if command is RestoreBasePolicy {
            if stage is Flushing {
                0
            } else {
                1
            }
        } else if stage is Deactivating {
            1
        } else {
            0
        }
    }

    /// Whether a session is under way or over, after a start that was not
    /// refused.
    pub open spec fn started(self) -> bool {
        !(self.phase is NotStarted) && !(self.phase is Rejected)
    }
}

/// How often `actions` names the backend command `command`.
pub open spec fn count(actions: Seq<ActionView>, command: CommandView) -> nat
    decreases actions.len(),
{
    if actions.len() == 0 {
        0
    } else if actions[0] == ActionView::Backend(command) {
        1 + count(actions.drop_first(), command)
    } else {
        count(actions.drop_first(), command)
    }
}

/// Whether the command is one of the three of a cleanup.
pub open spec fn cleanup_command(command: CommandView) -> bool {
    command is FlushLimiters || command is RestoreBasePolicy || command is Deactivate
}

/// Every session is cleaned up exactly once: however a started session runs,
/// and whatever comes of its actions, each of the three commands of a cleanup
/// is named once by the time the session is over, and never twice. The
/// session's state stays well formed throughout.
pub proof fn lemma_cleanup_exactly_once(
    session: SimulationView,
    events: Seq<EventView>,
    command: CommandView,
)
    requires
        session.wf(),
        session.started(),
        cleanup_command(command),
    ensures
        session.run(events).0.wf(),
        session.run(events).0.started(),
        session.issued(command) + count(session.run(events).1, command) == session.run(events).0.issued(
            command,
        ),
        session.run(events).0.phase is Finished ==> session.issued(command) + count(
            session.run(events).1,
            command,
        ) == 1,
    decreases events.len(),
{
    if events.len() > 0 {
        let (next, action) = session.resume(events[0]);
        let (last, actions) = next.run(events.drop_first());
        lemma_cleanup_exactly_once(next, events.drop_first(), command);
        assert((seq![action] + actions).drop_first() =~= actions);
    }
}

/// A failure ends the replay and is what the session surfaces: when enabling
/// or applying a change fails, the scheduler stays at the event whose change
/// failed, no further event is attempted, the three commands of the cleanup
/// follow whatever comes of each of them, and the session finishes with the
/// error of the operation that failed.
pub proof fn lemma_failure_then_cleanup(
    session: SimulationView,
    event: EventView,
    flushed: EventView,
    restored: EventView,
    deactivated: EventView,
)
    requires
        session.wf(),
        session.phase is Enabling || session.phase is Applying,
        session.shaper.step(reply_of(event)).1 matches StepView::Finished(Some(_)),
    ensures
        ({
            let error = session.shaper.step(reply_of(event)).1->Finished_0;
            let (last, actions) = session.run(seq![event, flushed, restored, deactivated]);
            &&& actions == seq![
                ActionView::Backend(CommandView::FlushLimiters),
                ActionView::Backend(CommandView::RestoreBasePolicy),
                ActionView::Backend(CommandView::Deactivate),
                ActionView::Finish(error),
            ]
            &&& last.phase is Finished
            &&& last.error == error
            &&& last.driver == session.driver
            &&& last.shaper.state == SessionState::Inactive
        }),
{
    let events = seq![event, flushed, restored, deactivated];
    let first = session.resume(event).0;
    let second = first.resume(flushed).0;
    let third = second.resume(restored).0;
    let e1 = events.drop_first();
    let e2 = e1.drop_first();
    let e3 = e2.drop_first();
    assert(e3.drop_first().len() == 0);
    assert(e1[0] == flushed && e2[0] == restored && e3[0] == deactivated);
    reveal_with_fuel(SimulationView::run, 5);
    let (last, actions) = session.run(events);
    let error = session.shaper.step(reply_of(event)).1->Finished_0;
    assert(actions =~= seq![
        ActionView::Backend(CommandView::FlushLimiters),
        ActionView::Backend(CommandView::RestoreBasePolicy),
        ActionView::Backend(CommandView::Deactivate),
        ActionView::Finish(error),
    ]);
}

/// A timeline that has been replayed to its end is cleaned up too, and the
/// session finishes without an error: when the last event's change has been
/// applied, or the clock has been read for a timeline without events, the
/// three commands of the cleanup follow whatever comes of each of them.
pub proof fn lemma_completion_then_cleanup(
    session: SimulationView,
    event: EventView,
    flushed: EventView,
    restored: EventView,
    deactivated: EventView,
)
    requires
        session.wf(),
        ({
            ||| session.phase is Applying && session.driver.pos == session.driver.events.len()
                && session.shaper.step(reply_of(event)).1 == StepView::Finished(None)
            ||| session.phase is Starting && session.driver.events.len() == 0 && event is Time
        }),
    ensures
        ({
            let (last, actions) = session.run(seq![event, flushed, restored, deactivated]);
            &&& actions == seq![
                ActionView::Backend(CommandView::FlushLimiters),
                ActionView::Backend(CommandView::RestoreBasePolicy),
                ActionView::Backend(CommandView::Deactivate),
                ActionView::Finish(None),
            ]
            &&& last.phase is Finished
            &&& last.shaper.state == SessionState::Inactive
        }),
{
    let events = seq![event, flushed, restored, deactivated];
    let e1 = events.drop_first();
    let e2 = e1.drop_first();
    let e3 = e2.drop_first();
    assert(e3.drop_first().len() == 0);
    assert(e1[0] == flushed && e2[0] == restored && e3[0] == deactivated);
    reveal_with_fuel(SimulationView::run, 5);
    let (last, actions) = session.run(events);
    assert(actions =~= seq![
        ActionView::Backend(CommandView::FlushLimiters),
        ActionView::Backend(CommandView::RestoreBasePolicy),
        ActionView::Backend(CommandView::Deactivate),
        ActionView::Finish(None),
    ]);
}

/// The changes that `actions` has the limiter configured with, in order.
pub open spec fn configured(actions: Seq<ActionView>) -> Seq<ApplyConfig>
    decreases actions.len(),
{
    if actions.len() == 0 {
        Seq::empty()
    } else {
        let rest = configured(actions.drop_first());
        match actions[0] {
            ActionView::Backend(
                CommandView::ConfigureLimiter { id, bandwidth, latency, packet_loss },
            ) => seq![ApplyConfig { packet_loss, latency, max_bandwidth: bandwidth }] + rest,
            _ => rest,
        }
    }
}

impl SimulationView {
    /// How many events have had their change named: those that have been
    /// applied, and the one whose change is being applied.
    pub open spec fn begun(self) -> int {
        if self.phase is Applying {
            self.driver.pos as int + 1
        } else {
            self.driver.pos as int
        }
    }
}

/// A session replays its timeline in list order, whatever the backend and
/// the clock do: once the timeline is under way, the changes that the limiter
/// is configured with are those of the events that follow the ones begun
/// before, each once and in list order, and nothing else is configured. The
/// scheduler is never moved back, and it has moved past every event whose
/// change was named, but for the last of them while its change is being
/// applied or after it has failed. Once the cleanup has begun, no change is
/// named any more.
pub proof fn lemma_replay_in_order(session: SimulationView, events: Seq<EventView>)
    requires
        session.wf(),
        session.phase is Applying || session.phase is Sleeping || session.phase is Cleaning
            || session.phase is Finished,
    ensures
        ({
            let (last, actions) = session.run(events);
            let named = configured(actions);
            let end = session.begun() + named.len();
            &&& last.driver.events == session.driver.events
            &&& session.driver.pos <= last.driver.pos <= session.driver.events.len()
            &&& end <= session.driver.events.len()
            &&& named == session.driver.changes(session.begun(), end)
            &&& last.driver.pos <= end <= last.driver.pos + 1
            &&& last.phase is Applying ==> end == last.driver.pos + 1
            &&& last.phase is Sleeping ==> end == last.driver.pos
            &&& session.phase is Cleaning || session.phase is Finished ==> named.len() == 0 && (
            last.phase is Cleaning || last.phase is Finished)
        }),
    decreases events.len(),
{
    let from = session.begun();
    if events.len() == 0 {
        assert(session.driver.changes(from, from) =~= Seq::empty());
    } else {
        let (next, action) = session.resume(events[0]);
        let (last, actions) = next.run(events.drop_first());
        lemma_replay_in_order(next, events.drop_first());
        let rest = configured(actions);
        assert((seq![action] + actions).drop_first() =~= actions);
        let named = configured(seq![action] + actions);
        let end = from + named.len();
        assert(next.driver.changes(next.begun(), next.begun() + rest.len())
            =~= session.driver.changes(next.begun(), next.begun() + rest.len()));
        if rest.len() == 0 {
            assert(session.driver.changes(next.begun(), next.begun()) =~= Seq::empty());
            assert(session.driver.changes(from, from) =~= Seq::empty());
        }
        if action is Backend && action->Backend_0 is ConfigureLimiter {
            assert(next.begun() == from + 1);
            assert(named =~= seq![change_of(session.driver.events[from])] + rest);
            assert(seq![change_of(session.driver.events[from])] + session.driver.changes(
                from + 1,
                from + 1 + rest.len(),
            ) =~= session.driver.changes(from, end));
        } else {
            assert(named =~= rest);
            assert(rest.len() > 0 ==> next.begun() == from);
            assert(next.phase is Sleeping || next.phase is Applying ==> next.begun() == from);
        }
    }
}

/// A session that is given up is cleaned up: from wherever it was under
/// way, the three commands of the cleanup follow, whatever comes of each of
/// them, and then the session is over.
pub proof fn lemma_cancel_then_cleanup(
    session: SimulationView,
    flushed: EventView,
    restored: EventView,
    deactivated: EventView,
)
    requires
        session.wf(),
        session.under_way(),
    ensures
        ({
            let (cancelled, first) = session.cancel();
            let (last, actions) = cancelled.run(seq![flushed, restored, deactivated]);
            &&& first == ActionView::Backend(CommandView::FlushLimiters)
            &&& actions == seq![
                ActionView::Backend(CommandView::RestoreBasePolicy),
                ActionView::Backend(CommandView::Deactivate),
                ActionView::Finish(cancelled.error),
            ]
            &&& last.phase is Finished
            &&& last.shaper.state == SessionState::Inactive
        }),
{
    let (cancelled, first) = session.cancel();
    let events = seq![flushed, restored, deactivated];
    let e1 = events.drop_first();
    let e2 = e1.drop_first();
    assert(e2.drop_first().len() == 0);
    assert(e1[0] == restored && e2[0] == deactivated);
    reveal_with_fuel(SimulationView::run, 4);
    let (last, actions) = cancelled.run(events);
    assert(actions =~= seq![
        ActionView::Backend(CommandView::RestoreBasePolicy),
        ActionView::Backend(CommandView::Deactivate),
        ActionView::Finish(cancelled.error),
    ]);
}

/// One scripted session.
pub struct Simulation {
    ts: TrafficShaper,
    driver: Driver,
    phase: Phase,
    now: u64,
    error: Option<TrafficShapingError>,
}

impl View for Simulation {
    type V = SimulationView;

    closed spec fn view(&self) -> SimulationView {
        SimulationView {
            shaper: self.ts@,
            driver: self.driver@,
            phase: self.phase,
            now: self.now,
            error: failure_view(self.error),
        }
    }
}

fn outcome_of(event: Event) -> (outcome: Outcome)
    ensures
        outcome@ == reply_of(event@),
{
    match event {
        Event::Reply(outcome) => outcome,
        Event::Time(_) => Outcome::Failed(
            TrafficShapingError::CommandError("unexpected reply from the backend".to_owned()),
        ),
    }
}

impl Simulation {
    /// A session for `manifest` that has not started. The epoch is a
    /// placeholder until the session reads the clock.
    pub fn new(manifest: Manifest, epoch: u64) -> (simulation: Self)
        ensures
            simulation@ == SimulationView::initial(
                TrafficConfig::from_spec(manifest.config),
                manifest.events@,
                epoch,
            ),
            simulation@.wf(),
    {
        let config = TrafficConfig::from(manifest.config);
        Simulation {
            ts: TrafficShaper::new(config),
            driver: Driver::new(manifest.events, epoch),
            phase: Phase::NotStarted,
            now: epoch,
            error: None,
        }
    }

    /// How far the session has come.
    pub fn phase(&self) -> (phase: Phase)
        ensures
            phase == self@.phase,
    {
        self.phase
    }

    /// How many events of the timeline have been applied. While a change is
    /// applied, and after it has failed, this is the place of its event.
    pub fn position(&self) -> (pos: usize)
        ensures
            pos == self@.driver.pos,
    {
        self.driver.position()
    }

    fn result(&self) -> (result: Result<(), SimulationError>)
        ensures
            match result {
                Ok(_) => self@.error is None,
                Err(error) => self@.error == Some(error@),
            },
    {
        match &self.error {
            Some(error) => Err(SimulationError::SystemError(error.duplicate())),
            None => Ok(()),
        }
    }

    fn clean_up(&mut self, error: Option<TrafficShapingError>) -> (action: Action)
        ensures
            (final(self)@, action@) == old(self)@.clean_up(failure_view(error)),
    {
        self.error = error;
        self.phase = Phase::Cleaning;
        Action::Backend(self.ts.cleanup())
    }

    fn wake(&mut self) -> (action: Action)
        requires
            old(self)@.shaper.state == SessionState::Active,
        ensures
            (final(self)@, action@) == old(self)@.wake(),
    {
        match self.driver.poll(self.now) {
            Decision::Apply(change) => {
                self.phase = Phase::Applying;
                Action::Backend(self.ts.apply(change))
            },
            Decision::Sleep { deadline } => {
                self.phase = Phase::Sleeping;
                Action::Sleep { deadline }
            },
            Decision::Complete => self.clean_up(None),
        }
    }

    fn under_way(&self) -> (under_way: bool)
        ensures
            under_way == self@.under_way(),
    {
        match self.phase {
            Phase::NotStarted | Phase::Rejected | Phase::Finished => false,
            _ => true,
        }
    }

    /// Gives the session up and names the first action of its cleanup.
    ///
    /// This is for a caller that is itself interrupted while it performs an
    /// action or sleeps: the session stops where it is and cleans up. A
    /// session that is not under way names its finish.
    pub fn cancel(&mut self) -> (action: Action)
        requires
            old(self)@.wf(),
        ensures
            (final(self)@, action@) == old(self)@.cancel(),
            final(self)@.wf(),
    {
        match self.phase {
            Phase::NotStarted | Phase::Rejected | Phase::Finished => Action::Finish(self.result()),
            Phase::Cleaning => {
                let error = self.error.take();
                self.clean_up(error)
            },
            _ => self.clean_up(None),
        }
    }

    /// Starts the session and names its first action.
    ///
    /// A configuration that is out of range ends the session at once, before
    /// anything is done to the backend. A session that is under way is not
    /// started again: it is given up, as by `cancel`.
    pub fn start(&mut self) -> (action: Action)
        requires
            old(self)@.wf(),
        ensures
            (final(self)@, action@) == old(self)@.begin(),
            final(self)@.wf(),
    {
        if self.under_way() {
            return self.cancel();
        }
        match self.ts.config().validate() {
            Err(error) => {
                let surfaced = error.duplicate();
                self.error = Some(error);
                self.phase = Phase::Rejected;
                Action::Finish(Err(SimulationError::SystemError(surfaced)))
            },
            Ok(_) => {
                self.error = None;
                self.phase = Phase::Enabling;
                Action::Backend(self.ts.enable())
            },
        }
    }

    /// Takes what came of the last action and names the next one.
    ///
    /// The scheduler moves past an event when the change of the event has
    /// been applied, and not before: a change that fails ends the replay at
    /// once, with the scheduler at the event that failed. Whatever ends the
    /// replay of the timeline, the shaper is cleaned up before the session
    /// finishes, and the session finishes with the error that ended the
    /// replay, whatever came of the cleanup. An event of the
    /// wrong kind for the action counts as a failure of the action, and so
    /// does a failure handed back where a clock reading was awaited. A record
    /// that is to be written is stamped with the local time that the clock
    /// reads during the call.
    pub fn resume(&mut self, event: Event) -> (action: Action)
        requires
            old(self)@.wf(),
        ensures
            (final(self)@, action@) == old(self)@.resume(event@),
            final(self)@.wf(),
    {
        let timestamp = if self.records(&event) {
            local_time_stamp()
        } else {
            String::new()
        };
        self.resume_stamped(event, timestamp)
    }

    fn records(&self, event: &Event) -> (records: bool)
        ensures
            records == self@.records(event@),
    {
        match (self.phase, event) {
            (Phase::Applying, Event::Reply(outcome)) => self.ts.records(outcome),
            _ => false,
        }
    }

    /// As `resume`, for a caller that reads the clock itself: a record that is
    /// to be written is stamped with `timestamp`, which is not used otherwise.
    pub fn resume_stamped(&mut self, event: Event, timestamp: String) -> (action: Action)
        requires
            old(self)@.wf(),
        ensures
            (final(self)@, action@) == old(self)@.resume(event@),
            final(self)@.wf(),
            old(self)@.records(event@) ==> (action matches Action::Backend(
                Command::Report { sink, record },
            ) && record.timestamp@ == timestamp@),
    {
        match self.phase {
            Phase::NotStarted | Phase::Rejected | Phase::Finished => Action::Finish(self.result()),
            Phase::Enabling => {
                match self.ts.advance(outcome_of(event)) {
                    Step::Run(command) => Action::Backend(command),
                    Step::Finished(Ok(_)) => {
                        self.phase = Phase::Starting;
                        Action::ReadClock
                    },
                    Step::Finished(Err(error)) => self.clean_up(Some(error)),
                }
            },
            Phase::Starting => match event {
                Event::Time(now) => {
                    self.driver.restart(now);
                    self.now = now;
                    self.wake()
                },
                Event::Reply(outcome) => self.clean_up(Some(error_of(outcome))),
            },
            Phase::Applying => {
                match self.ts.advance_stamped(outcome_of(event), timestamp) {
                    Step::Run(command) => Action::Backend(command),
                    Step::Finished(Ok(_)) => {
                        self.driver.applied();
                        self.wake()
                    },
                    Step::Finished(Err(error)) => self.clean_up(Some(error)),
                }
            },
            Phase::Sleeping => match event {
                Event::Time(now) => {
                    self.now = now;
                    self.wake()
                },
                Event::Reply(outcome) => self.clean_up(Some(error_of(outcome))),
            },
            Phase::Cleaning => {
                match self.ts.advance(outcome_of(event)) {
                    Step::Run(command) => Action::Backend(command),
                    Step::Finished(_) => {
                        self.phase = Phase::Finished;
                        Action::Finish(self.result())
                    },
                }
            },
        }
    }
}

} // verus!
