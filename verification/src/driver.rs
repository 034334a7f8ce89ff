//! The timeline scheduler: which change is due, and until when to sleep.
//!
//! Time is read from a monotonic clock as whole nanoseconds since the clock's
//! origin. The scheduler never reads the clock itself: each `poll` is given
//! the reading of the wake-up it belongs to.

use crate::config::ApplyConfig;
use crate::models::Events;
use vstd::prelude::*;

verus! {

pub const NANOS_PER_SECOND: u64 = 1_000_000_000;

/// The clock reading from which `event` is due, for a timeline that started
/// at `epoch`.
pub open spec fn deadline_of(epoch: u64, event: Events) -> int {
    epoch + event.time * NANOS_PER_SECOND
}

/// The parameters that `event` asks for.
pub open spec fn change_of(event: Events) -> ApplyConfig {
    ApplyConfig {
        packet_loss: event.packet_loss,
        latency: event.latency,
        max_bandwidth: event.bandwidth,
    }
}

/// Whether no event of the timeline is due before an earlier one.
pub open spec fn ordered(events: Seq<Events>) -> bool {
    forall|i: int, j: int| 0 <= i <= j < events.len() ==> events[i].time <= events[j].time
}

/// What the scheduler decides at a wake-up.
#[derive(Debug, Clone, Copy, PartialEq, Eq, Structural)]
pub enum Decision {
    /// The next event is due: apply its change, and if that succeeds, tell
    /// the scheduler so and poll again with the same clock reading.
    Apply(ApplyConfig),
    /// The next event is not due yet: sleep until the clock reads `deadline`.
    Sleep { deadline: u128 },
    /// Every event has been applied.
    Complete,
}

/// Walks a timeline in list order.
pub struct Driver {
    pos: usize,
    events: Vec<Events>,
    epoch: u64,
}

/// A scheduler's state: the timeline, how many of its events have been
/// applied, and the clock reading at which it started.
pub struct DriverView {
    pub pos: nat,
    pub events: Seq<Events>,
    pub epoch: u64,
}

impl DriverView {
    /// The decision at a wake-up at which the clock reads `now`. The decision
    /// changes nothing: the scheduler stays at the event until `advance` moves
    /// it on.
    pub open spec fn poll(self, now: u64) -> Decision {
        if self.pos >= self.events.len() {
            Decision::Complete
        } else if now >= deadline_of(self.epoch, self.events[self.pos as int]) {
            Decision::Apply(change_of(self.events[self.pos as int]))
        } else {
            Decision::Sleep {
                deadline: deadline_of(self.epoch, self.events[self.pos as int]) as u128,
            }
        }
    }

    /// The scheduler one event further on, once the change of the event it
    /// was at has been applied. At the end of the timeline it stays.
    pub open spec fn advance(self) -> DriverView {
        if self.pos < self.events.len() {
            DriverView { pos: self.pos + 1, ..self }
        } else {
            self
        }
    }

    /// The state after a wake-up at which the clock reads `now` and at which
    /// the change that is handed out, if one is, is applied with success.
    pub open spec fn served(self, now: u64) -> DriverView {
        if self.poll(now) is Apply {
            self.advance()
        } else {
            self
        }
    }

    /// The state after one such wake-up at each of the clock readings `nows`,
    /// in turn.
    pub open spec fn polls(self, nows: Seq<u64>) -> DriverView
        decreases nows.len(),
    {
        if nows.len() == 0 {
            self
        } else {
            self.served(nows[0]).polls(nows.drop_first())
        }
    }

    /// The changes that are applied at those wake-ups, in the order in which
    /// they are.
    pub open spec fn applied(self, nows: Seq<u64>) -> Seq<ApplyConfig>
        decreases nows.len(),
    {
        if nows.len() == 0 {
            Seq::empty()
        } else {
            let rest = self.served(nows[0]).applied(nows.drop_first());
            match self.poll(nows[0]) {
                Decision::Apply(change) => seq![change] + rest,
                _ => rest,
            }
        }
    }

    /// The changes of the events from `from` up to, not including, `to`.
    pub open spec fn changes(self, from: int, to: int) -> Seq<ApplyConfig> {
        Seq::new((to - from) as nat, |i: int| change_of(self.events[from + i]))
    }
}

impl View for Driver {
    type V = DriverView;

    closed spec fn view(&self) -> DriverView {
        DriverView { pos: self.pos as nat, events: self.events@, epoch: self.epoch }
    }
}

impl Driver {
    /// A scheduler at the start of `events`, for a timeline whose epoch is the
    /// clock reading `epoch`.
    pub fn new(events: Vec<Events>, epoch: u64) -> (driver: Self)
        ensures
            driver@ == (DriverView { pos: 0, events: events@, epoch }),
    {
        Driver { pos: 0, events, epoch }
    }

    /// Goes back to the start of the timeline, with a new epoch.
    pub fn restart(&mut self, epoch: u64)
        ensures
            final(self)@ == (DriverView { pos: 0, events: old(self)@.events, epoch }),
    {
        self.pos = 0;
        self.epoch = epoch;
    }

    /// How many events have been applied: the place in the timeline of the
    /// event that is next, or that is being applied.
    pub fn position(&self) -> (pos: usize)
        ensures
            pos == self@.pos,
    {
        self.pos
    }

    /// Decides what to do at a wake-up at which the clock reads `now`.
    ///
    /// An event is due once the clock has reached the epoch plus the event's
    /// offset. The scheduler hands out the change of a due event and stays at
    /// the event: it moves on when `applied` says that the change is in
    /// place, so that an event whose change fails is not passed over.
    pub fn poll(&self, now: u64) -> (decision: Decision)
        ensures
            decision == self@.poll(now),
    {
        if self.pos >= self.events.len() {
            return Decision::Complete;
        }
        let event = self.events[self.pos];
        let offset: u128 = event.time as u128 * 1_000_000_000u128;
        let deadline: u128 = self.epoch as u128 + offset;
        if now as u128 >= deadline {
            Decision::Apply(
                ApplyConfig {
                    packet_loss: event.packet_loss,
                    latency: event.latency,
                    max_bandwidth: event.bandwidth,
                },
            )
        } else {
            Decision::Sleep { deadline }
        }
    }

    /// Moves on to the next event, the change of the one that the scheduler
    /// was at having been applied.
    pub fn applied(&mut self)
        ensures
            final(self)@ == old(self)@.advance(),
    {
        if self.pos < self.events.len() {
            self.pos += 1;
        }
    }
}

/// Whether no event of the timeline is due before an earlier one. The
/// scheduler does not ask for this: it walks any timeline in list order.
pub fn is_ordered(events: &Vec<Events>) -> (in_order: bool)
    ensures
        in_order == ordered(events@),
{
    if events.len() < 2 {
        return true;
    }
    let mut at: usize = 1;
    while at < events.len()
        invariant
            1 <= at <= events.len(),
            forall|i: int, j: int| 0 <= i <= j < at ==> events@[i].time <= events@[j].time,
        decreases events.len() - at,
    {
        if events[at - 1].time > events[at].time {
            return false;
        }
        at += 1;
    }
    true
}

/// Events are applied in list order, each at most once and none skipped:
/// whatever the clock reads at each wake-up, the changes applied are those of
/// the events from the old position to the new one, in that order.
pub proof fn lemma_applied_in_order(driver: DriverView, nows: Seq<u64>)
    requires
        driver.pos <= driver.events.len(),
    ensures
        driver.pos <= driver.polls(nows).pos <= driver.events.len(),
        driver.polls(nows).events == driver.events,
        driver.polls(nows).epoch == driver.epoch,
        driver.applied(nows) == driver.changes(driver.pos as int, driver.polls(nows).pos as int),
    decreases nows.len(),
{
    if nows.len() == 0 {
        assert(driver.applied(nows) =~= driver.changes(driver.pos as int, driver.pos as int));
    } else {
        let next = driver.served(nows[0]);
        lemma_applied_in_order(next, nows.drop_first());
        let end = driver.polls(nows).pos as int;
        assert(next.changes(next.pos as int, end) =~= driver.changes(next.pos as int, end));
        match driver.poll(nows[0]) {
            Decision::Apply(change) => {
                assert(seq![change] + driver.changes(driver.pos as int + 1, end) =~= driver.changes(
                    driver.pos as int,
                    end,
                ));
            },
            _ => {},
        }
    }
}

/// No event is applied early: a poll hands out a change only if the clock has
/// reached the deadline of the event it belongs to, and it is the change of
/// the event that the scheduler is at.
pub proof fn lemma_never_early(driver: DriverView, now: u64)
    ensures
        driver.poll(now) is Apply ==> driver.pos < driver.events.len() && now >= deadline_of(
            driver.epoch,
            driver.events[driver.pos as int],
        ) && driver.poll(now) == Decision::Apply(change_of(driver.events[driver.pos as int])),
{
}

/// An event whose change is not applied is not passed over: `advance` moves
/// the scheduler by one event within the timeline and changes nothing else,
/// and a wake-up moves the scheduler exactly when it hands out a change and
/// the change is applied.
pub proof fn lemma_poll_stays(driver: DriverView, now: u64)
    ensures
        driver.advance().pos <= driver.pos + 1,
        driver.pos < driver.events.len() ==> driver.advance().pos == driver.pos + 1,
        driver.advance().events == driver.events,
        driver.advance().epoch == driver.epoch,
        driver.served(now).pos == if driver.poll(now) is Apply {
            driver.pos + 1
        } else {
            driver.pos
        },
{
}

/// A wait is only ever for the next event in list order, and lies ahead: the
/// scheduler sleeps until that event's deadline, which the clock has not
/// reached. In an ordered timeline no later event is due either, so that
/// events with equal offsets have all been applied before the wait past their
/// deadline begins.
pub proof fn lemma_sleep_is_for_next(driver: DriverView, now: u64)
    requires
        driver.poll(now) is Sleep,
    ensures
        driver.served(now) == driver,
        driver.pos < driver.events.len(),
        driver.poll(now)->deadline == deadline_of(driver.epoch, driver.events[driver.pos as int]),
        driver.poll(now)->deadline > now,
        ordered(driver.events) ==> forall|i: int|
            driver.pos <= i < driver.events.len() ==> now < deadline_of(
                driver.epoch,
                #[trigger] driver.events[i],
            ),
{
    let next = driver.events[driver.pos as int];
    assert(deadline_of(driver.epoch, next) < 0x1_0000_0000_0000_0000 + 0x1_0000_0000_0000_0000
        * NANOS_PER_SECOND);
    if ordered(driver.events) {
        assert forall|i: int| driver.pos <= i < driver.events.len() implies now < deadline_of(
            driver.epoch,
            #[trigger] driver.events[i],
        ) by {
            assert(next.time <= driver.events[i].time);
        }
    }
}

/// Lateness delays events and drops none: when the clock has passed the
/// deadline of every event that is left, one wake-up for each of them at that
/// one reading applies them all, in order, and the next poll finds the
/// timeline complete.
pub proof fn lemma_late_wake_applies_all(driver: DriverView, now: u64)
    requires
        driver.pos <= driver.events.len(),
        forall|i: int|
            driver.pos <= i < driver.events.len() ==> now >= deadline_of(
                driver.epoch,
                #[trigger] driver.events[i],
            ),
    ensures
        ({
            let left = (driver.events.len() - driver.pos) as nat;
            let nows = Seq::new(left, |i: int| now);
            &&& driver.polls(nows).pos == driver.events.len()
            &&& driver.applied(nows) == driver.changes(
                driver.pos as int,
                driver.events.len() as int,
            )
            &&& driver.polls(nows).poll(now) is Complete
        }),
    decreases driver.events.len() - driver.pos,
{
    let left = (driver.events.len() - driver.pos) as nat;
    let nows = Seq::new(left, |i: int| now);
    if left > 0 {
        let next = driver.served(now);
        lemma_late_wake_applies_all(next, now);
        assert(nows.drop_first() =~= Seq::new((left - 1) as nat, |i: int| now));
    }
    lemma_applied_in_order(driver, nows);
}

} // verus!
