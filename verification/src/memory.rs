//! A backend that lives in memory.
//!
//! It keeps what a packet filter and its limiters keep: how many references
//! hold the filter active, the parameters of each limiter, the policies that
//! were installed on top of the base policy, and the records that were
//! written. Sessions can be rehearsed on it, several of them sharing one
//! backend, without touching the host.

use crate::backend::{
    name_view,
    Command,
    CommandView,
    EventReport,
    Outcome,
    OutcomeView,
    ReportSink,
    Step,
    StepView,
};
use crate::config::{ApplyConfig, ErrorView, Output, TrafficShapingError};
use crate::rules::{anchor_text, policy_text};
use crate::shaper::{
    anchor_name,
    commands_left,
    lemma_step_progress,
    SessionState,
    ShaperView,
    TrafficShaper,
    DEFAULT_PIPE_NUMBER,
};
use std::collections::HashMap;
use vstd::prelude::*;
use vstd::string::StringExecFns;

verus! {

broadcast use vstd::std_specs::hash::group_hash_axioms;

/// A policy that was installed.
#[derive(Debug, Clone, PartialEq, Eq)]
pub struct Policy {
    pub text: String,
    /// The anchor under which it was loaded, if it was not loaded as the main
    /// policy.
    pub anchor: Option<String>,
}

/// `Policy` with its texts as sequences of characters.
pub struct PolicyView {
    pub text: Seq<char>,
    pub anchor: Option<Seq<char>>,
}

impl View for Policy {
    type V = PolicyView;

    open spec fn view(&self) -> PolicyView {
        PolicyView {
            text: self.text@,
            anchor: match self.anchor {
                Some(name) => Some(name@),
                None => None,
            },
        }
    }
}

/// The diagnostic of an activation that would overflow the reference count.
pub open spec fn too_many_references() -> Seq<char> {
    "too many references"@
}

/// The diagnostic of a deactivation that finds the packet filter switched off.
pub open spec fn not_enabled() -> Seq<char> {
    "pf not enabled"@
}

/// The backend in memory.
pub struct MemoryBackend {
    references: u64,
    limiters: HashMap<u32, ApplyConfig>,
    base_policy: String,
    policies: Vec<Policy>,
    file: Vec<EventReport>,
    console: Vec<EventReport>,
    clock: u64,
}

/// What the backend keeps.
pub struct BackendView {
    /// How many references hold the packet filter active.
    pub references: nat,
    /// The limiters that exist, each with its parameters.
    pub limiters: Map<u32, ApplyConfig>,
    /// The host's persisted base policy.
    pub base_policy: Seq<char>,
    /// The policies installed since the base policy was last restored.
    pub policies: Seq<PolicyView>,
    /// The records in the report file.
    pub file: Seq<ApplyConfig>,
    /// The records written to the console.
    pub console: Seq<ApplyConfig>,
    /// What the clock reads, in nanoseconds since its origin.
    pub clock: u64,
}

impl BackendView {
    /// Whether the packet filter is switched on.
    pub open spec fn active(self) -> bool {
        self.references > 0
    }

    /// Sleeping until the clock reads `deadline`: the backend after it and
    /// the clock reading, or no reading if the clock cannot reach the deadline.
    pub open spec fn sleep(self, deadline: u128) -> (BackendView, Option<u64>) {
        if deadline > u64::MAX {
            (self, None)
        } else if self.clock < deadline {
            (BackendView { clock: deadline as u64, ..self }, Some(deadline as u64))
        } else {
            (self, Some(self.clock))
        }
    }

    /// What a command does to the backend, and what comes of it.
    pub open spec fn perform(self, command: CommandView) -> (BackendView, OutcomeView) {
        match command {
            CommandView::Activate => if self.references < u64::MAX {
                (BackendView { references: self.references + 1, ..self }, OutcomeView::Done)
            } else {
                (self, OutcomeView::Failed(ErrorView::CommandError(too_many_references())))
            },
            CommandView::ConfigureLimiter { id, bandwidth, latency, packet_loss } => (
                BackendView {
                    limiters: self.limiters.insert(
                        id,
                        ApplyConfig { packet_loss, latency, max_bandwidth: bandwidth },
                    ),
                    ..self
                },
                OutcomeView::Done,
            ),
            CommandView::QueryLimiter { id } => (
                self,
                OutcomeView::Found(self.limiters.contains_key(id)),
            ),
            CommandView::ReadBasePolicy => (self, OutcomeView::Text(self.base_policy)),
            CommandView::InstallPolicy { text, anchor } => (
                BackendView { policies: self.policies.push(PolicyView { text, anchor }), ..self },
                OutcomeView::Done,
            ),
            CommandView::RestoreBasePolicy => (
                BackendView { policies: Seq::empty(), ..self },
                OutcomeView::Done,
            ),
            CommandView::FlushLimiters => (
                BackendView { limiters: Map::empty(), ..self },
                OutcomeView::Done,
            ),
            CommandView::Deactivate => if self.references > 0 {
                (
                    BackendView { references: (self.references - 1) as nat, ..self },
                    OutcomeView::Done,
                )
            } else {
                (self, OutcomeView::Failed(ErrorView::CommandError(not_enabled())))
            },
            CommandView::OpenReport { path } => (
                BackendView { file: Seq::empty(), ..self },
                OutcomeView::Done,
            ),
            CommandView::Report { sink, record } => match sink {
                ReportSink::Stdout => (
                    BackendView { console: self.console.push(record), ..self },
                    OutcomeView::Done,
                ),
                ReportSink::File => (
                    BackendView { file: self.file.push(record), ..self },
                    OutcomeView::Done,
                ),
            },
        }
    }

    /// An operation of `shaper` carried to its end on the backend, from the
    /// command `command` on: the shaper and the backend after it, and the
    /// error it ended with, if any.
    pub open spec fn complete(self, shaper: ShaperView, command: CommandView) -> (
        ShaperView,
        BackendView,
        Option<ErrorView>,
    )
        decreases commands_left(shaper.stage),
    {
        let (backend, outcome) = self.perform(command);
        let (next, step) = shaper.step(outcome);
        match step {
            StepView::Run(command) => {
                proof {
                    lemma_step_progress(shaper, outcome);
                }
                backend.complete(next, command)
            },
            StepView::Finished(result) => (next, backend, result),
        }
    }

    /// `shaper` enabled on the backend.
    pub open spec fn enable(self, shaper: ShaperView) -> (
        ShaperView,
        BackendView,
        Option<ErrorView>,
    ) {
        let (begun, command) = shaper.begin_enable();
        self.complete(begun, command)
    }

    /// A change applied by `shaper` on the backend.
    pub open spec fn apply(self, shaper: ShaperView, change: ApplyConfig) -> (
        ShaperView,
        BackendView,
        Option<ErrorView>,
    ) {
        let (begun, command) = shaper.begin_apply(change);
        self.complete(begun, command)
    }

    /// `shaper` cleaned up on the backend.
    pub open spec fn cleanup(self, shaper: ShaperView) -> (
        ShaperView,
        BackendView,
        Option<ErrorView>,
    ) {
        let (begun, command) = shaper.begin_cleanup();
        self.complete(begun, command)
    }
}

/// The views of the policies, in order.
pub open spec fn policy_views(policies: Seq<Policy>) -> Seq<PolicyView> {
    Seq::new(policies.len(), |i: int| policies[i]@)
}

/// The changes that the records report, in order.
pub open spec fn record_views(records: Seq<EventReport>) -> Seq<ApplyConfig> {
    Seq::new(records.len(), |i: int| records[i]@)
}

impl View for MemoryBackend {
    type V = BackendView;

    closed spec fn view(&self) -> BackendView {
        BackendView {
            references: self.references as nat,
            limiters: self.limiters@,
            base_policy: self.base_policy@,
            policies: policy_views(self.policies@),
            file: record_views(self.file@),
            console: record_views(self.console@),
            clock: self.clock,
        }
    }
}

/// The error, if any, with its texts as sequences of characters.
pub open spec fn result_view(result: Result<(), TrafficShapingError>) -> Option<ErrorView> {
    match result {
        Ok(_) => None,
        Err(error) => Some(error@),
    }
}

impl MemoryBackend {
    /// A backend with the given base policy on which nothing has happened
    /// yet: the packet filter is off, there are no limiters, installed
    /// policies or records, and the clock is at its origin.
    pub fn new(base_policy: &str) -> (backend: Self)
        ensures
            backend@ == (BackendView {
                references: 0,
                limiters: Map::empty(),
                base_policy: base_policy@,
                policies: Seq::empty(),
                file: Seq::empty(),
                console: Seq::empty(),
                clock: 0,
            }),
    {
        let backend = MemoryBackend {
            references: 0,
            limiters: HashMap::new(),
            base_policy: String::from_str(base_policy),
            policies: Vec::new(),
            file: Vec::new(),
            console: Vec::new(),
            clock: 0,
        };
        assert(backend@.policies =~= Seq::empty());
        assert(backend@.file =~= Seq::empty());
        assert(backend@.console =~= Seq::empty());
        backend
    }

    /// How many references hold the packet filter active.
    pub fn references(&self) -> (references: u64)
        ensures
            references == self@.references,
    {
        self.references
    }

    /// The parameters of the limiter `id`, if it exists.
    pub fn limiter(&self, id: u32) -> (limiter: Option<ApplyConfig>)
        ensures
            limiter == if self@.limiters.contains_key(id) {
                Some(self@.limiters[id])
            } else {
                None
            },
    {
        match self.limiters.get(&id) {
            Some(limiter) => Some(*limiter),
            None => None,
        }
    }

    /// The policies installed since the base policy was last restored.
    pub fn policies(&self) -> (policies: &Vec<Policy>)
        ensures
            policy_views(policies@) == self@.policies,
    {
        &self.policies
    }

    /// The records in the report file.
    pub fn file(&self) -> (records: &Vec<EventReport>)
        ensures
            record_views(records@) == self@.file,
    {
        &self.file
    }

    /// The records written to the console.
    pub fn console(&self) -> (records: &Vec<EventReport>)
        ensures
            record_views(records@) == self@.console,
    {
        &self.console
    }

    /// What the clock reads.
    pub fn clock(&self) -> (clock: u64)
        ensures
            clock == self@.clock,
    {
        self.clock
    }

    /// Sets the clock.
    pub fn set_clock(&mut self, clock: u64)
        ensures
            final(self)@ == (BackendView { clock, ..old(self)@ }),
    {
        self.clock = clock;
    }

    /// Lets time pass until the clock reads `deadline`, and hands back the
    /// reading. A clock that has passed the deadline stays as it is. A
    /// deadline that the clock cannot reach is not slept towards: there is no
    /// reading then.
    pub fn sleep(&mut self, deadline: u128) -> (now: Option<u64>)
        ensures
            (final(self)@, now) == old(self)@.sleep(deadline),
    {
        if deadline > u64::MAX as u128 {
            None
        } else {
            if (self.clock as u128) < deadline {
                self.clock = deadline as u64;
            }
            Some(self.clock)
        }
    }

    /// Performs one command.
    pub fn perform(&mut self, command: Command) -> (outcome: Outcome)
        ensures
            (final(self)@, outcome@) == old(self)@.perform(command@),
    {
        match command {
            Command::Activate => {
                if self.references < u64::MAX {
                    self.references = self.references + 1;
                    Outcome::Done
                } else {
                    Outcome::Failed(
                        TrafficShapingError::CommandError(String::from_str("too many references")),
                    )
                }
            },
            Command::ConfigureLimiter { id, bandwidth, latency, packet_loss } => {
                self.limiters.insert(
                    id,
                    ApplyConfig { packet_loss, latency, max_bandwidth: bandwidth },
                );
                Outcome::Done
            },
            Command::QueryLimiter { id } => Outcome::Found(self.limiters.contains_key(&id)),
            Command::ReadBasePolicy => Outcome::Text(self.base_policy.clone()),
            Command::InstallPolicy { text, anchor } => {
                self.policies.push(Policy { text, anchor });
                assert(final(self)@.policies =~= old(self)@.policies.push(
                    PolicyView { text: text@, anchor: name_view(anchor) },
                ));
                Outcome::Done
            },
            Command::RestoreBasePolicy => {
                self.policies.clear();
                assert(self@.policies =~= Seq::empty());
                Outcome::Done
            },
            Command::FlushLimiters => {
                self.limiters.clear();
                Outcome::Done
            },
            Command::Deactivate => {
                if self.references > 0 {
                    self.references = self.references - 1;
                    Outcome::Done
                } else {
                    Outcome::Failed(
                        TrafficShapingError::CommandError(String::from_str("pf not enabled")),
                    )
                }
            },
            Command::OpenReport { path } => {
                self.file.clear();
                assert(self@.file =~= Seq::empty());
                Outcome::Done
            },
            Command::Report { sink, record } => {
                match sink {
                    ReportSink::Stdout => {
                        self.console.push(record);
                        assert(self@.console =~= old(self)@.console.push(record@));
                    },
                    ReportSink::File => {
                        self.file.push(record);
                        assert(self@.file =~= old(self)@.file.push(record@));
                    },
                }
                Outcome::Done
            },
        }
    }

    /// Carries an operation of `shaper` to its end: performs `first`, hands
    /// the outcome to the shaper, performs what the shaper names next, and so
    /// on until the shaper ends the operation.
    pub fn complete(&mut self, shaper: &mut TrafficShaper, first: Command) -> (result: Result<
        (),
        TrafficShapingError,
    >)
        ensures
            (final(shaper)@, final(self)@, result_view(result)) == old(self)@.complete(
                old(shaper)@,
                first@,
            ),
    {
        let ghost goal = self@.complete(shaper@, first@);
        let mut command = first;
        loop
            invariant
                goal == old(self)@.complete(old(shaper)@, first@),
                self@.complete(shaper@, command@) == goal,
            decreases commands_left(shaper@.stage),
        {
            let ghost backend = self@;
            let ghost before = shaper@;
            let ghost named = command@;
            proof {
                lemma_step_progress(before, backend.perform(named).1);
            }
            let outcome = self.perform(command);
            match shaper.advance(outcome) {
                Step::Run(next) => {
                    assert(backend.complete(before, named) == self@.complete(shaper@, next@));
                    command = next;
                },
                Step::Finished(result) => {
                    assert(backend.complete(before, named) == (
                        shaper@,
                        self@,
                        result_view(result),
                    ));
                    return result;
                },
            }
        }
    }
}

impl MemoryBackend {
    /// Enables `shaper` on the backend.
    pub fn enable(&mut self, shaper: &mut TrafficShaper) -> (result: Result<
        (),
        TrafficShapingError,
    >)
        ensures
            (final(shaper)@, final(self)@, result_view(result)) == old(self)@.enable(old(shaper)@),
    {
        let first = shaper.enable();
        self.complete(shaper, first)
    }

    /// Has `shaper` apply a change on the backend.
    pub fn apply(&mut self, shaper: &mut TrafficShaper, change: ApplyConfig) -> (result: Result<
        (),
        TrafficShapingError,
    >)
        requires
            old(shaper)@.state == SessionState::Active,
        ensures
            (final(shaper)@, final(self)@, result_view(result)) == old(self)@.apply(
                old(shaper)@,
                change,
            ),
    {
        let first = shaper.apply(change);
        self.complete(shaper, first)
    }

    /// Cleans `shaper` up on the backend.
    pub fn cleanup(&mut self, shaper: &mut TrafficShaper) -> (result: Result<
        (),
        TrafficShapingError,
    >)
        ensures
            (final(shaper)@, final(self)@, result_view(result)) == old(self)@.cleanup(
                old(shaper)@,
            ),
    {
        let first = shaper.cleanup();
        self.complete(shaper, first)
    }
}

/// The two policies that enabling installs: the base policy with the
/// anchor's declaration, under the anchor, and the session's rules as the
/// main policy.
pub open spec fn session_policies(backend: BackendView, shaper: ShaperView) -> Seq<PolicyView> {
    seq![
        PolicyView {
            text: anchor_text(anchor_name(), backend.base_policy),
            anchor: Some(anchor_name()),
        },
        PolicyView { text: policy_text(shaper.config, DEFAULT_PIPE_NUMBER), anchor: None },
    ]
}

/// What enabling does on a backend with room for one more reference: it
/// succeeds, takes one reference, sets the limiter to the configured
/// parameters, and installs the session's policies if and only if the limiter
/// did not exist before.
pub proof fn lemma_enable(backend: BackendView, shaper: ShaperView)
    requires
        backend.references < u64::MAX,
    ensures
        ({
            let (enabled, after, result) = backend.enable(shaper);
            &&& result is None
            &&& enabled.state == SessionState::Active
            &&& enabled.stage is Idle
            &&& enabled.config == shaper.config
            &&& after.references == backend.references + 1
            &&& after.limiters == backend.limiters.insert(DEFAULT_PIPE_NUMBER, shaper.initial())
            &&& after.base_policy == backend.base_policy
            &&& after.policies == if backend.limiters.contains_key(DEFAULT_PIPE_NUMBER) {
                backend.policies
            } else {
                backend.policies + session_policies(backend, shaper)
            }
        }),
{
    reveal_with_fuel(BackendView::complete, 8);
    let (enabled, after, result) = backend.enable(shaper);
    if !backend.limiters.contains_key(DEFAULT_PIPE_NUMBER) {
        assert(after.policies =~= backend.policies + session_policies(backend, shaper));
    }
}

/// What enabling does to the report: it leaves the console as it is, and
/// opens the report file, empty, if and only if the configuration names one.
pub proof fn lemma_enabled_report(backend: BackendView, shaper: ShaperView)
    requires
        backend.references < u64::MAX,
    ensures
        ({
            let (enabled, after, result) = backend.enable(shaper);
            &&& after.console == backend.console
            &&& after.clock == backend.clock
            &&& match shaper.config.report_output {
                Output::File { .. } => enabled.report_open && after.file == Seq::<
                    ApplyConfig,
                >::empty(),
                _ => !enabled.report_open && after.file == backend.file,
            }
        }),
{
    reveal_with_fuel(BackendView::complete, 8);
}

/// Enabling twice installs the policies once: the second of two enables in a
/// row finds the limiter in place, installs nothing, and succeeds like the
/// first.
pub proof fn lemma_enable_twice(backend: BackendView, shaper: ShaperView)
    requires
        backend.references + 2 <= u64::MAX,
    ensures
        ({
            let (once, first, first_result) = backend.enable(shaper);
            let (twice, second, second_result) = first.enable(once);
            &&& first_result is None
            &&& second_result is None
            &&& twice.state == SessionState::Active
            &&& second.policies == first.policies
            &&& second.limiters == first.limiters
            &&& second.references == backend.references + 2
        }),
{
    lemma_enable(backend, shaper);
    let (once, first, first_result) = backend.enable(shaper);
    lemma_enable(first, once);
    let (twice, second, second_result) = first.enable(once);
    assert(second.limiters =~= first.limiters);
}

/// What cleaning up does on a backend that holds a reference: it succeeds,
/// removes the limiters and the installed policies, and gives up one
/// reference, leaving the others.
pub proof fn lemma_cleanup(backend: BackendView, shaper: ShaperView)
    requires
        backend.references > 0,
    ensures
        ({
            let (cleaned, after, result) = backend.cleanup(shaper);
            &&& result is None
            &&& cleaned.state == SessionState::Inactive
            &&& cleaned.stage is Idle
            &&& after.references == backend.references - 1
            &&& after.limiters == Map::<u32, ApplyConfig>::empty()
            &&& after.policies == Seq::<PolicyView>::empty()
            &&& after.base_policy == backend.base_policy
            &&& after.file == backend.file
            &&& after.console == backend.console
            &&& after.clock == backend.clock
        }),
{
    reveal_with_fuel(BackendView::complete, 4);
}

/// The packet filter is shared by reference: when two sessions have enabled
/// it and one of them cleans up, it stays active for the other.
pub proof fn lemma_shared_activation(backend: BackendView, first: ShaperView, second: ShaperView)
    requires
        backend.references + 2 <= u64::MAX,
    ensures
        ({
            let (one, after_first, first_result) = backend.enable(first);
            let (other, after_second, second_result) = after_first.enable(second);
            let (gone, after_cleanup, cleanup_result) = after_second.cleanup(one);
            &&& first_result is None
            &&& second_result is None
            &&& cleanup_result is None
            &&& after_second.references == backend.references + 2
            &&& after_cleanup.references == backend.references + 1
            &&& after_cleanup.active()
            &&& other.state == SessionState::Active
        }),
{
    lemma_enable(backend, first);
    let (one, after_first, first_result) = backend.enable(first);
    lemma_enable(after_first, second);
    let (other, after_second, second_result) = after_first.enable(second);
    lemma_cleanup(after_second, one);
}

/// What applying a change does on the backend: it succeeds, sets the limiter
/// to the new parameters, and writes one record of the change to the sink
/// that the shaper reports to, if it reports at all.
pub proof fn lemma_apply(backend: BackendView, shaper: ShaperView, change: ApplyConfig)
    ensures
        ({
            let (applied, after, result) = backend.apply(shaper, change);
            &&& result is None
            &&& applied == shaper.idle()
            &&& after.limiters == backend.limiters.insert(DEFAULT_PIPE_NUMBER, change)
            &&& after.references == backend.references
            &&& after.policies == backend.policies
            &&& after.base_policy == backend.base_policy
            &&& after.clock == backend.clock
            &&& after.file == if shaper.sink() == Some(ReportSink::File) {
                backend.file.push(change)
            } else {
                backend.file
            }
            &&& after.console == if shaper.sink() == Some(ReportSink::Stdout) {
                backend.console.push(change)
            } else {
                backend.console
            }
        }),
{
    reveal_with_fuel(BackendView::complete, 3);
}

} // verus!
