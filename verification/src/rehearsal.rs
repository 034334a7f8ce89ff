//! Whole sessions on the backend in memory.
//!
//! A rehearsal drives a session from its start to its finish: it performs
//! each command on the backend, reads the backend's clock, and sleeps by
//! moving that clock forward, so that a timeline of hours is replayed at once.

use crate::backend::{CommandView, Outcome, OutcomeView, ReportSink, StepView};
use crate::config::{ApplyConfig, ErrorView, Output, TrafficShapingError};
use crate::driver::{change_of, deadline_of, DriverView, NANOS_PER_SECOND};
use crate::memory::{
    lemma_apply,
    lemma_cleanup,
    lemma_enable,
    lemma_enabled_report,
    BackendView,
    MemoryBackend,
    PolicyView,
};
use crate::shaper::{commands_left, configure, lemma_step_progress, SessionState};
use crate::simulation::{
    reply_of,
    Action,
    ActionView,
    Event,
    EventView,
    Phase,
    Simulation,
    SimulationError,
    SimulationView,
};
use vstd::prelude::*;
use vstd::string::StringExecFns;

verus! {

/// The diagnostic of a sleep towards a deadline that the clock cannot reach.
pub open spec fn beyond_the_clock() -> Seq<char> {
    "deadline beyond the clock"@
}

/// The error of a session, if any, with its texts as sequences of characters.
pub open spec fn session_result(result: Result<(), SimulationError>) -> Option<ErrorView> {
    match result {
        Ok(_) => None,
        Err(error) => Some(error@),
    }
}

/// Whether `action` is one that the session can be waiting on: a session that
/// sleeps is waiting to be woken at the deadline of its next event.
pub open spec fn awaited(session: SimulationView, action: ActionView) -> bool {
    session.phase is Sleeping ==> session.driver.pos < session.driver.events.len() && action == (
    ActionView::Sleep {
        deadline: deadline_of(
            session.driver.epoch,
            session.driver.events[session.driver.pos as int],
        ) as u128,
    })
}

/// How many events are still to be applied, counted so that the count falls
/// with every event that is applied: the first measure of how far a session
/// is from its finish.
pub open spec fn events_ahead(session: SimulationView) -> nat {
    match session.phase {
        Phase::Enabling => session.driver.events.len() + 3,
        Phase::Starting => session.driver.events.len() + 2,
        Phase::Applying | Phase::Sleeping => (session.driver.events.len() - session.driver.pos
            + 1) as nat,
        _ => 0,
    }
}

/// The second measure: among sessions with as many events ahead, those that
/// sleep come before those that are applying a change.
pub open spec fn phase_rank(session: SimulationView) -> nat {
    match session.phase {
        Phase::Sleeping => 2,
        Phase::Applying | Phase::Cleaning => 1,
        _ => 0,
    }
}

/// The last measure, after the commands that the shaper's operation may
/// still name: an action that is not the finish comes before the finish.
pub open spec fn action_rank(action: ActionView) -> nat {
    if action is Finish {
        0
    } else {
        1
    }
}

impl BackendView {
    /// What the backend hands back for an action, and the backend after it.
    /// A sleep that the clock cannot complete is answered as a failure. The
    /// finish asks for nothing; it is answered with the clock reading.
    pub open spec fn answer(self, action: ActionView) -> (BackendView, EventView) {
        match action {
            ActionView::Backend(command) => {
                let (backend, outcome) = self.perform(command);
                (backend, EventView::Reply(outcome))
            },
            ActionView::ReadClock => (self, EventView::Time(self.clock)),
            ActionView::Sleep { deadline } => {
                let (backend, now) = self.sleep(deadline);
                match now {
                    Some(now) => (backend, EventView::Time(now)),
                    None => (
                        backend,
                        EventView::Reply(
                            OutcomeView::Failed(ErrorView::SystemError(beyond_the_clock())),
                        ),
                    ),
                }
            },
            ActionView::Finish(_) => (self, EventView::Time(self.clock)),
        }
    }

    /// A session carried to its finish on the backend, from the action
    /// `action` on: the session and the backend after it, and the error that
    /// the session surfaced, if any.
    pub open spec fn rehearse(self, session: SimulationView, action: ActionView) -> (
        SimulationView,
        BackendView,
        Option<ErrorView>,
    )
        decreases
                events_ahead(session),
                phase_rank(session),
                commands_left(session.shaper.stage),
                action_rank(action),
        when session.wf() && awaited(session, action)
    {
        match action {
            ActionView::Finish(result) => (session, self, result),
            _ => {
                let (backend, event) = self.answer(action);
                let (next, following) = session.resume(event);
                proof {
                    lemma_rehearsal_progress(self, session, action);
                }
                backend.rehearse(next, following)
            },
        }
    }
}

/// Every rehearsal comes to its finish: each action that the backend answers
/// brings the session nearer to it, and leaves the session well formed.
pub proof fn lemma_rehearsal_progress(
    backend: BackendView,
    session: SimulationView,
    action: ActionView,
)
    requires
        session.wf(),
        awaited(session, action),
        !(action is Finish),
    ensures
        ({
            let (next, following) = session.resume(backend.answer(action).1);
            &&& next.wf()
            &&& awaited(next, following)
            &&& decreases_to!(
                events_ahead(session), phase_rank(session), commands_left(session.shaper.stage), action_rank(action) =>
                events_ahead(next), phase_rank(next), commands_left(next.shaper.stage), action_rank(following)
            )
        }),
{
    let event = backend.answer(action).1;
    let (next, following) = session.resume(event);
    lemma_step_progress(session.shaper, reply_of(event));
    if session.driver.pos < session.driver.events.len() {
        let due = session.driver.events[session.driver.pos as int];
        assert(0 <= deadline_of(session.driver.epoch, due) < 0x1_0000_0000_0000_0000
            + 0x1_0000_0000_0000_0000 * NANOS_PER_SECOND);
    }
    if next.driver.pos < next.driver.events.len() {
        let due = next.driver.events[next.driver.pos as int];
        assert(0 <= deadline_of(next.driver.epoch, due) < 0x1_0000_0000_0000_0000
            + 0x1_0000_0000_0000_0000 * NANOS_PER_SECOND);
    }
}

/// The records that a shaper writes to `sink` for the changes of the events
/// from `from` on: one for each event, in order, if that is where the shaper
/// reports, and none otherwise.
pub open spec fn records(session: SimulationView, sink: ReportSink, from: int) -> Seq<ApplyConfig> {
    if session.shaper.sink() == Some(sink) {
        session.driver.changes(from, session.driver.events.len() as int)
    } else {
        Seq::empty()
    }
}

/// Whether the clock can reach the deadline of every event from `from` on.
pub open spec fn within_reach(driver: DriverView, from: int) -> bool {
    forall|i: int|
        from <= i < driver.events.len() ==> deadline_of(driver.epoch, #[trigger] driver.events[i])
            <= u64::MAX
}

/// What a session does when an operation of its shaper has come to its end
/// with `result`: after enabling it reads the clock, after a change it moves
/// the scheduler on and has it decide again, and after the cleanup it
/// finishes; and it cleans up as soon as enabling or a change has failed.
pub open spec fn settle(session: SimulationView, result: Option<ErrorView>) -> (
    SimulationView,
    ActionView,
) {
    match session.phase {
        Phase::Cleaning => (
            SimulationView { phase: Phase::Finished, ..session },
            ActionView::Finish(session.error),
        ),
        Phase::Enabling => match result {
            None => (SimulationView { phase: Phase::Starting, ..session }, ActionView::ReadClock),
            Some(error) => session.clean_up(Some(error)),
        },
        _ => match result {
            None => session.applied(),
            Some(error) => session.clean_up(Some(error)),
        },
    }
}

/// A rehearsal carries each operation of the shaper to its end as the backend
/// does by itself: while the session enables, applies a change or cleans up,
/// rehearsing from a command on is completing the operation from that command
/// on, and rehearsing on from where the session settles.
pub proof fn lemma_operation(backend: BackendView, session: SimulationView, command: CommandView)
    requires
        session.wf(),
        session.phase is Enabling || session.phase is Applying || session.phase is Cleaning,
    ensures
        ({
            let (shaper, served, result) = backend.complete(session.shaper, command);
            let (settled, action) = settle(SimulationView { shaper, ..session }, result);
            backend.rehearse(session, ActionView::Backend(command)) == served.rehearse(
                settled,
                action,
            )
        }),
    decreases commands_left(session.shaper.stage),
{
    let action = ActionView::Backend(command);
    let (served, outcome) = backend.perform(command);
    let (shaper, step) = session.shaper.step(outcome);
    let next = SimulationView { shaper, ..session };
    lemma_rehearsal_progress(backend, session, action);
    lemma_step_progress(session.shaper, outcome);
    assert(backend.answer(action) == (served, EventView::Reply(outcome)));
    match step {
        StepView::Run(following) => {
            assert(session.resume(EventView::Reply(outcome)) == (
                next,
                ActionView::Backend(following),
            ));
            assert(backend.rehearse(session, action) == served.rehearse(
                next,
                ActionView::Backend(following),
            ));
            assert(backend.complete(session.shaper, command) == served.complete(
                shaper,
                following,
            ));
            lemma_operation(served, next, following);
        },
        StepView::Finished(result) => {
            assert(backend.complete(session.shaper, command) == (shaper, served, result));
            assert(session.resume(EventView::Reply(outcome)) == settle(next, result));
        },
    }
}

/// The replay of a timeline on the backend, from a wake-up on: every event
/// that is left is applied, in list order, each after a sleep to its deadline
/// if it is not due yet; each applied change is recorded once where the
/// shaper reports; then the session is cleaned up and finishes without an
/// error.
pub proof fn lemma_replay(backend: BackendView, session: SimulationView)
    requires
        session.shaper.state == SessionState::Active,
        session.driver.pos <= session.driver.events.len(),
        within_reach(session.driver, session.driver.pos as int),
        backend.clock == session.now,
        backend.references > 0,
    ensures
        ({
            let (woken, action) = session.wake();
            let (last, after, result) = backend.rehearse(woken, action);
            &&& result is None
            &&& last.phase is Finished
            &&& last.driver.pos == session.driver.events.len()
            &&& last.driver.events == session.driver.events
            &&& after.references == backend.references - 1
            &&& after.limiters == Map::<u32, ApplyConfig>::empty()
            &&& after.policies == Seq::<PolicyView>::empty()
            &&& after.base_policy == backend.base_policy
            &&& after.file == backend.file + records(
                session,
                ReportSink::File,
                session.driver.pos as int,
            )
            &&& after.console == backend.console + records(
                session,
                ReportSink::Stdout,
                session.driver.pos as int,
            )
            &&& after.clock >= backend.clock
        }),
    decreases
            session.driver.events.len() - session.driver.pos,
            if session.driver.poll(session.now) is Sleep {
                1nat
            } else {
                0nat
            },
{
    let (woken, action) = session.wake();
    let pos = session.driver.pos as int;
    let len = session.driver.events.len() as int;
    if pos == len {
        // No event is left: the session cleans up and finishes.
        let (cleaned, served, result) = backend.cleanup(session.shaper);
        lemma_cleanup(backend, session.shaper);
        lemma_operation(backend, woken, CommandView::FlushLimiters);
        let (settled, finish) = settle(SimulationView { shaper: cleaned, ..woken }, result);
        assert(served.rehearse(settled, finish) == (settled, served, None::<ErrorView>));
        assert(session.driver.changes(pos, len) =~= Seq::empty());
        assert(backend.file + records(session, ReportSink::File, pos) =~= backend.file);
        assert(backend.console + records(session, ReportSink::Stdout, pos) =~= backend.console);
    } else {
        let due = session.driver.events[pos];
        assert(0 <= deadline_of(session.driver.epoch, due) <= u64::MAX);
        if session.now >= deadline_of(session.driver.epoch, due) {
            // The next event is due: its change is applied, and the scheduler
            // is woken again one event further on.
            let change = change_of(due);
            let (applied, served, result) = backend.apply(session.shaper, change);
            lemma_apply(backend, session.shaper, change);
            lemma_operation(backend, woken, configure(change));
            let next = SimulationView {
                shaper: applied,
                driver: session.driver.advance(),
                ..woken
            };
            assert(settle(SimulationView { shaper: applied, ..woken }, result) == next.wake());
            assert(next.driver == DriverView { pos: session.driver.pos + 1, ..session.driver });
            lemma_replay(served, next);
            let rest = session.driver.changes(pos + 1, len);
            assert(seq![change] + rest =~= session.driver.changes(pos, len));
            assert(next.driver.changes(pos + 1, len) =~= rest);
            assert(next.shaper.sink() == session.shaper.sink());
            assert(backend.file.push(change) + rest =~= backend.file + (seq![change] + rest));
            assert(backend.console.push(change) + rest =~= backend.console + (seq![change]
                + rest));
            assert(backend.file + Seq::<ApplyConfig>::empty() =~= backend.file);
            assert(backend.console + Seq::<ApplyConfig>::empty() =~= backend.console);
        } else {
            // The next event is not due: the session sleeps to its deadline
            // and wakes with the event due.
            let deadline = deadline_of(session.driver.epoch, due) as u64;
            let slept = BackendView { clock: deadline, ..backend };
            let next = SimulationView { now: deadline, ..woken };
            lemma_rehearsal_progress(backend, woken, action);
            assert(backend.answer(action) == (slept, EventView::Time(deadline)));
            assert(woken.resume(EventView::Time(deadline)) == next.wake());
            assert(backend.rehearse(woken, action) == slept.rehearse(next.wake().0, next.wake().1));
            lemma_replay(slept, next);
            assert(records(next, ReportSink::File, pos) == records(session, ReportSink::File, pos));
            assert(records(next, ReportSink::Stdout, pos) == records(
                session,
                ReportSink::Stdout,
                pos,
            ));
        }
    }
}

/// A whole session on the backend. With a configuration in range, a backend
/// with room for one more reference, and a timeline whose deadlines the clock
/// can reach, the session succeeds: every event of the timeline is applied,
/// in list order; the report holds exactly one record for each event, in that
/// order, and the report file holds nothing else; and the cleanup leaves no
/// limiter and no installed policy behind, and as many references on the
/// packet filter as there were.
pub proof fn lemma_rehearsal(backend: BackendView, session: SimulationView)
    requires
        session.wf(),
        !session.under_way(),
        session.shaper.config.rejection() is None,
        backend.references < u64::MAX,
        within_reach(DriverView { pos: 0, epoch: backend.clock, ..session.driver }, 0),
    ensures
        ({
            let (begun, action) = session.begin();
            let (last, after, result) = backend.rehearse(begun, action);
            let all = session.driver.changes(0, session.driver.events.len() as int);
            &&& result is None
            &&& last.phase is Finished
            &&& last.driver.pos == session.driver.events.len()
            &&& after.references == backend.references
            &&& after.limiters == Map::<u32, ApplyConfig>::empty()
            &&& after.policies == Seq::<PolicyView>::empty()
            &&& after.file == match session.shaper.config.report_output {
                Output::File { .. } => all,
                _ => backend.file,
            }
            &&& after.console == match session.shaper.config.report_output {
                Output::Stdout => backend.console + all,
                _ => backend.console,
            }
            &&& after.clock >= backend.clock
        }),
{
    let (begun, action) = session.begin();
    let (enabled, served, result) = backend.enable(session.shaper);
    lemma_enable(backend, session.shaper);
    lemma_enabled_report(backend, session.shaper);
    lemma_operation(backend, begun, CommandView::Activate);
    let starting = SimulationView { shaper: enabled, phase: Phase::Starting, ..begun };
    assert(settle(SimulationView { shaper: enabled, ..begun }, result) == (
        starting,
        ActionView::ReadClock,
    ));
    let started = SimulationView {
        driver: DriverView { pos: 0, epoch: served.clock, ..session.driver },
        now: served.clock,
        ..starting
    };
    lemma_rehearsal_progress(served, starting, ActionView::ReadClock);
    assert(served.answer(ActionView::ReadClock) == (served, EventView::Time(served.clock)));
    assert(starting.resume(EventView::Time(served.clock)) == started.wake());
    assert(served.rehearse(starting, ActionView::ReadClock) == served.rehearse(
        started.wake().0,
        started.wake().1,
    ));
    lemma_replay(served, started);
    let all = session.driver.changes(0, session.driver.events.len() as int);
    assert(started.driver.changes(0, session.driver.events.len() as int) =~= all);
    assert(Seq::<ApplyConfig>::empty() + all =~= all);
    assert(served.file + Seq::<ApplyConfig>::empty() =~= served.file);
    assert(served.console + Seq::<ApplyConfig>::empty() =~= served.console);
}

impl MemoryBackend {
    /// Does what an action asks for and hands back what came of it.
    pub fn answer(&mut self, action: Action) -> (event: Event)
        ensures
            (final(self)@, event@) == old(self)@.answer(action@),
    {
        match action {
            Action::Backend(command) => Event::Reply(self.perform(command)),
            Action::ReadClock => Event::Time(self.clock()),
            Action::Sleep { deadline } => match self.sleep(deadline) {
                Some(now) => Event::Time(now),
                None => Event::Reply(
                    Outcome::Failed(
                        TrafficShapingError::SystemError(
                            String::from_str("deadline beyond the clock"),
                        ),
                    ),
                ),
            },
            Action::Finish(_) => Event::Time(self.clock()),
        }
    }

    /// Runs a session on the backend from its start to its finish.
    pub fn rehearse(&mut self, simulation: &mut Simulation) -> (result: Result<
        (),
        SimulationError,
    >)
        requires
            old(simulation)@.wf(),
        ensures
            ({
                let (begun, action) = old(simulation)@.begin();
                (final(simulation)@, final(self)@, session_result(result)) == old(self)@.rehearse(
                    begun,
                    action,
                )
            }),
            final(simulation)@.wf(),
    {
        let ghost begun = simulation@.begin();
        let ghost goal = self@.rehearse(begun.0, begun.1);
        let mut action = simulation.start();
        loop
            invariant
                begun == old(simulation)@.begin(),
                goal == old(self)@.rehearse(begun.0, begun.1),
                simulation@.wf(),
                awaited(simulation@, action@),
                self@.rehearse(simulation@, action@) == goal,
            decreases
                    events_ahead(simulation@),
                    phase_rank(simulation@),
                    commands_left(simulation@.shaper.stage),
                    action_rank(action@),
        {
            let ghost backend = self@;
            let ghost session = simulation@;
            let ghost asked = action@;
            match action {
                Action::Finish(result) => {
                    return result;
                },
                other => {
                    proof {
                        lemma_rehearsal_progress(backend, session, asked);
                    }
                    let event = self.answer(other);
                    action = simulation.resume(event);
                    assert(backend.rehearse(session, asked) == self@.rehearse(
                        simulation@,
                        action@,
                    ));
                },
            }
        }
    }
}

} // verus!
