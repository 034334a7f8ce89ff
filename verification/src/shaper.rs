//! The shaping control plane: a machine that enables, updates and tears down
//! a shaping session one backend command at a time.
//!
//! `enable`, `apply` and `cleanup` each begin an operation and name its first
//! command. The caller performs the command and hands what came of it to
//! `advance`, which names the next command or ends the operation with its
//! result.

use crate::backend::{
    error_of,
    failure_of,
    local_time_stamp,
    Command,
    CommandView,
    EventReport,
    Outcome,
    OutcomeView,
    ReportSink,
    Step,
    StepView,
};
use crate::config::{ApplyConfig, ErrorView, Output, TrafficConfig, TrafficShapingError};
use crate::rules::{anchor_text, policy_text, RuleGenerator};
use vstd::prelude::*;

verus! {

/// The limiter that every session uses.
pub const DEFAULT_PIPE_NUMBER: u32 = 1;

/// The name of the anchor under which a session's policy is declared.
pub open spec fn anchor_name() -> Seq<char> {
    "traffic_shaper"@
}

/// Whether a session has been enabled and not yet cleaned up.
#[derive(Debug, Clone, Copy, PartialEq, Eq, Structural)]
pub enum SessionState {
    Inactive,
    Active,
}

/// The command whose outcome the shaper is waiting for.
#[derive(Debug, Clone, Copy, PartialEq, Eq, Structural)]
pub enum Stage {
    /// No operation is under way.
    Idle,
    /// Enabling: the reference on the packet filter is being taken.
    Activating,
    /// Enabling: the backend is being asked whether the limiter exists.
    Querying,
    /// Enabling: the limiter is being configured; `existed` is what the
    /// backend said of it beforehand.
    Configuring { existed: bool },
    /// Enabling: the base policy is being read.
    ReadingBase,
    /// Enabling: the base policy with the anchor's declaration is being loaded.
    InstallingAnchor,
    /// Enabling: the session's rules are being loaded.
    InstallingRules,
    /// Enabling: the report file is being opened.
    OpeningReport,
    /// Applying: the limiter is being given the new parameters.
    Updating(ApplyConfig),
    /// Applying: the record of the change is being written.
    Reporting,
    /// Cleaning up: the limiters are being flushed.
    Flushing,
    /// Cleaning up: the base policy is being restored.
    Restoring,
    /// Cleaning up: the reference on the packet filter is being given up.
    Deactivating,
}

/// Main traffic shaper struct that handles the configuration and execution
pub struct TrafficShaper {
    config: TrafficConfig,
    state: SessionState,
    report_open: bool,
    stage: Stage,
    failure: Option<TrafficShapingError>,
}

/// What a shaper knows.
pub struct ShaperView {
    pub config: TrafficConfig,
    pub state: SessionState,
    /// Whether the report file is open.
    pub report_open: bool,
    pub stage: Stage,
    /// The first failure of the cleanup under way.
    pub failure: Option<ErrorView>,
}

/// The first failure of a cleanup, given what was known and the outcome of one
/// more step.
pub open spec fn first_failure(known: Option<ErrorView>, outcome: OutcomeView) -> Option<
    ErrorView,
> {
    if known is Some {
        known
    } else if outcome is Done {
        None
    } else {
        Some(failure_of(outcome))
    }
}

/// The command that sets the limiter to the given parameters.
pub open spec fn configure(change: ApplyConfig) -> CommandView {
    CommandView::ConfigureLimiter {
        id: DEFAULT_PIPE_NUMBER,
        bandwidth: change.max_bandwidth,
        latency: change.latency,
        packet_loss: change.packet_loss,
    }
}

impl ShaperView {
    /// The parameters that the configuration asks of the limiter.
    pub open spec fn initial(self) -> ApplyConfig {
        ApplyConfig {
            packet_loss: self.config.packet_loss,
            latency: self.config.latency,
            max_bandwidth: self.config.max_bandwidth,
        }
    }

    /// The shaper with no operation under way.
    pub open spec fn idle(self) -> ShaperView {
        ShaperView { stage: Stage::Idle, ..self }
    }

    /// An operation that ends here with `error`; the session stays as it was.
    pub open spec fn fail(self, error: ErrorView) -> (ShaperView, StepView) {
        (self.idle(), StepView::Finished(Some(error)))
    }

    /// The shaper waiting for the outcome of `command`.
    pub open spec fn run(self, stage: Stage, command: CommandView) -> (ShaperView, StepView) {
        (ShaperView { stage, ..self }, StepView::Run(command))
    }

    /// Enabling begins by taking a reference on the packet filter.
    pub open spec fn begin_enable(self) -> (ShaperView, CommandView) {
        (ShaperView { stage: Stage::Activating, ..self }, CommandView::Activate)
    }

    /// An update begins, and all but ends, with the limiter's new parameters.
    pub open spec fn begin_apply(self, change: ApplyConfig) -> (ShaperView, CommandView) {
        (ShaperView { stage: Stage::Updating(change), ..self }, configure(change))
    }

    /// Cleaning up begins by flushing the limiters, with no failure known.
    pub open spec fn begin_cleanup(self) -> (ShaperView, CommandView) {
        (
            ShaperView { stage: Stage::Flushing, failure: None, ..self },
            CommandView::FlushLimiters,
        )
    }

    /// The last part of enabling, once limiter and policy are in place: the
    /// report file is opened if the configuration names one.
    pub open spec fn open_report(self) -> (ShaperView, StepView) {
        match self.config.report_output {
            Output::File { path } => self.run(
                Stage::OpeningReport,
                CommandView::OpenReport { path: path@ },
            ),
            _ => self.enabled(false),
        }
    }

    /// Enabling has succeeded; `report_open` says whether the report file
    /// could be opened.
    pub open spec fn enabled(self, report_open: bool) -> (ShaperView, StepView) {
        (
            ShaperView { stage: Stage::Idle, state: SessionState::Active, report_open, ..self },
            StepView::Finished(None),
        )
    }

    /// Where the record of a change goes, if anywhere.
    pub open spec fn sink(self) -> Option<ReportSink> {
        match self.config.report_output {
            Output::Off => None,
            Output::Stdout => Some(ReportSink::Stdout),
            Output::File { path } => if self.report_open {
                Some(ReportSink::File)
            } else {
                None
            },
        }
    }

    /// Whether the outcome has the shaper write a record next: the limiter
    /// has taken a change, and the shaper reports.
    pub open spec fn records(self, outcome: OutcomeView) -> bool {
        self.stage is Updating && outcome is Done && self.sink() is Some
    }

    /// What the shaper does with the outcome of the command it was waiting
    /// for: its next state, and the next command or the operation's result.
    pub open spec fn step(self, outcome: OutcomeView) -> (ShaperView, StepView) {
        match self.stage {
            Stage::Idle => (self, StepView::Finished(None)),
            Stage::Activating => if outcome is Done {
                self.run(Stage::Querying, CommandView::QueryLimiter { id: DEFAULT_PIPE_NUMBER })
            } else {
                self.fail(failure_of(outcome))
            },
            Stage::Querying => match outcome {
                OutcomeView::Found(existed) => self.run(
                    Stage::Configuring { existed },
                    configure(self.initial()),
                ),
                _ => self.fail(failure_of(outcome)),
            },
            Stage::Configuring { existed } => if !(outcome is Done) {
                self.fail(failure_of(outcome))
            } else if existed {
                self.open_report()
            } else {
                self.run(Stage::ReadingBase, CommandView::ReadBasePolicy)
            },
            Stage::ReadingBase => match outcome {
                OutcomeView::Text(base) => self.run(
                    Stage::InstallingAnchor,
                    CommandView::InstallPolicy {
                        text: anchor_text(anchor_name(), base),
                        anchor: Some(anchor_name()),
                    },
                ),
                _ => self.fail(failure_of(outcome)),
            },
            Stage::InstallingAnchor => if outcome is Done {
                self.run(
                    Stage::InstallingRules,
                    CommandView::InstallPolicy {
                        text: policy_text(self.config, DEFAULT_PIPE_NUMBER),
                        anchor: None,
                    },
                )
            } else {
                self.fail(failure_of(outcome))
            },
            Stage::InstallingRules => if outcome is Done {
                self.open_report()
            } else {
                self.fail(failure_of(outcome))
            },
            Stage::OpeningReport => self.enabled(outcome is Done),
            Stage::Updating(change) => if !(outcome is Done) {
                self.fail(failure_of(outcome))
            } else {
                match self.sink() {
                    Some(sink) => self.run(
                        Stage::Reporting,
                        CommandView::Report { sink, record: change },
                    ),
                    None => (self.idle(), StepView::Finished(None)),
                }
            },
            Stage::Reporting => (self.idle(), StepView::Finished(None)),
            Stage::Flushing => (
                ShaperView {
                    stage: Stage::Restoring,
                    failure: first_failure(self.failure, outcome),
                    ..self
                },
                StepView::Run(CommandView::RestoreBasePolicy),
            ),
            Stage::Restoring => (
                ShaperView {
                    stage: Stage::Deactivating,
                    failure: first_failure(self.failure, outcome),
                    ..self
                },
                StepView::Run(CommandView::Deactivate),
            ),
            Stage::Deactivating => (
                ShaperView {
                    stage: Stage::Idle,
                    state: SessionState::Inactive,
                    failure: None,
                    ..self
                },
                StepView::Finished(first_failure(self.failure, outcome)),
            ),
        }
    }
}

/// How many commands an operation may still name once the outcome awaited at
/// `stage` is in.
pub open spec fn commands_left(stage: Stage) -> nat {
    match stage {
        Stage::Idle => 0,
        Stage::Activating => 6,
        Stage::Querying => 5,
        Stage::Configuring { .. } => 4,
        Stage::ReadingBase => 3,
        Stage::InstallingAnchor => 2,
        Stage::InstallingRules => 1,
        Stage::OpeningReport => 0,
        Stage::Updating(_) => 1,
        Stage::Reporting => 0,
        Stage::Flushing => 2,
        Stage::Restoring => 1,
        Stage::Deactivating => 0,
    }
}

/// Every operation comes to its end: each command that a step names leaves
/// fewer to come, and a step that names none leaves the shaper idle.
pub proof fn lemma_step_progress(shaper: ShaperView, outcome: OutcomeView)
    ensures
        shaper.step(outcome).1 is Run ==> commands_left(shaper.step(outcome).0.stage)
            < commands_left(shaper.stage),
        shaper.step(outcome).1 is Finished ==> shaper.step(outcome).0.stage is Idle,
{
}

/// The error view of an error that may be absent.
pub open spec fn failure_view(failure: Option<TrafficShapingError>) -> Option<ErrorView> {
    match failure {
        Some(error) => Some(error@),
        None => None,
    }
}

impl View for TrafficShaper {
    type V = ShaperView;

    closed spec fn view(&self) -> ShaperView {
        ShaperView {
            config: self.config,
            state: self.state,
            report_open: self.report_open,
            stage: self.stage,
            failure: failure_view(self.failure),
        }
    }
}

fn is_done(outcome: &Outcome) -> (done: bool)
    ensures
        done == (outcome@ is Done),
{
    match outcome {
        Outcome::Done => true,
        _ => false,
    }
}

fn configure_limiter(change: ApplyConfig) -> (command: Command)
    ensures
        command@ == configure(change),
{
    Command::ConfigureLimiter {
        id: DEFAULT_PIPE_NUMBER,
        bandwidth: change.max_bandwidth,
        latency: change.latency,
        packet_loss: change.packet_loss,
    }
}

impl TrafficShaper {
    /// A shaper for `config`: inactive, with no operation under way.
    pub fn new(config: TrafficConfig) -> (shaper: Self)
        ensures
            shaper@ == (ShaperView {
                config,
                state: SessionState::Inactive,
                report_open: false,
                stage: Stage::Idle,
                failure: None,
            }),
    {
        TrafficShaper {
            config,
            state: SessionState::Inactive,
            report_open: false,
            stage: Stage::Idle,
            failure: None,
        }
    }

    /// The configuration that the shaper was made with.
    pub fn config(&self) -> (config: &TrafficConfig)
        ensures
            *config == self@.config,
    {
        &self.config
    }

    /// Whether the session is active.
    pub fn state(&self) -> (state: SessionState)
        ensures
            state == self@.state,
    {
        self.state
    }

    /// The command whose outcome the shaper is waiting for.
    pub fn stage(&self) -> (stage: Stage)
        ensures
            stage == self@.stage,
    {
        self.stage
    }

    /// Begins to enable the session and names the first command.
    ///
    /// Enabling takes a reference on the packet filter, asks whether the
    /// limiter exists, configures it, installs the policy if the limiter did
    /// not exist, and opens the report file if there is one. It may be begun
    /// in any state; an operation that was under way is abandoned.
    pub fn enable(&mut self) -> (command: Command)
        ensures
            (final(self)@, command@) == old(self)@.begin_enable(),
    {
        self.stage = Stage::Activating;
        Command::Activate
    }

    /// Begins to give the limiter new parameters and names the first command.
    pub fn apply(&mut self, config: ApplyConfig) -> (command: Command)
        requires
            old(self)@.state == SessionState::Active,
        ensures
            (final(self)@, command@) == old(self)@.begin_apply(config),
    {
        self.stage = Stage::Updating(config);
        configure_limiter(config)
    }

    /// Begins to tear the session down and names the first command.
    ///
    /// Cleaning up flushes the limiters, restores the base policy and gives up
    /// the reference on the packet filter. Each of the three is attempted
    /// whatever came of the others, and the operation ends with the first
    /// failure among them, if there was one. It may be begun in any state.
    pub fn cleanup(&mut self) -> (command: Command)
        ensures
            (final(self)@, command@) == old(self)@.begin_cleanup(),
    {
        self.stage = Stage::Flushing;
        self.failure = None;
        Command::FlushLimiters
    }

    fn note(&mut self, outcome: Outcome)
        ensures
            final(self)@ == (ShaperView {
                failure: first_failure(old(self)@.failure, outcome@),
                ..old(self)@
            }),
    {
        if self.failure.is_none() && !is_done(&outcome) {
            self.failure = Some(error_of(outcome));
        }
    }

    fn finish_enable(&mut self) -> (step: Step)
        ensures
            (final(self)@, step@) == old(self)@.open_report(),
    {
        match &self.config.report_output {
            Output::File { path } => {
                let path = path.clone();
                self.stage = Stage::OpeningReport;
                Step::Run(Command::OpenReport { path })
            },
            _ => {
                self.stage = Stage::Idle;
                self.state = SessionState::Active;
                self.report_open = false;
                Step::Finished(Ok(()))
            },
        }
    }

    fn fail(&mut self, outcome: Outcome) -> (step: Step)
        ensures
            (final(self)@, step@) == old(self)@.fail(failure_of(outcome@)),
    {
        self.stage = Stage::Idle;
        Step::Finished(Err(error_of(outcome)))
    }

    fn sink(&self) -> (sink: Option<ReportSink>)
        ensures
            sink == self@.sink(),
    {
        match &self.config.report_output {
            Output::Off => None,
            Output::Stdout => Some(ReportSink::Stdout),
            Output::File { .. } => if self.report_open {
                Some(ReportSink::File)
            } else {
                None
            },
        }
    }

    pub(crate) fn records(&self, outcome: &Outcome) -> (records: bool)
        ensures
            records == self@.records(outcome@),
    {
        match self.stage {
            Stage::Updating(_) => is_done(outcome) && self.sink().is_some(),
            _ => false,
        }
    }

    /// Takes the outcome of the command that was named last and names the next
    /// one, or ends the operation with its result.
    ///
    /// An outcome of the wrong kind for the command counts as a failure of the
    /// command. With no operation under way there is nothing to do, and the
    /// step is a finished one without an error. A record that is to be written
    /// is stamped with the local time that the clock reads during the call.
    pub fn advance(&mut self, outcome: Outcome) -> (step: Step)
        ensures
            (final(self)@, step@) == old(self)@.step(outcome@),
    {
        let timestamp = if self.records(&outcome) {
            local_time_stamp()
        } else {
            String::new()
        };
        self.advance_stamped(outcome, timestamp)
    }

    /// As `advance`, for a caller that reads the clock itself: a record that
    /// is to be written is stamped with `timestamp`, which is not used
    /// otherwise.
    pub fn advance_stamped(&mut self, outcome: Outcome, timestamp: String) -> (step: Step)
        ensures
            (final(self)@, step@) == old(self)@.step(outcome@),
            old(self)@.records(outcome@) ==> (step matches Step::Run(
                Command::Report { sink, record },
            ) && record.timestamp@ == timestamp@),
    {
        match self.stage {
            Stage::Idle => Step::Finished(Ok(())),
            Stage::Activating => {
                if is_done(&outcome) {
                    self.stage = Stage::Querying;
                    Step::Run(Command::QueryLimiter { id: DEFAULT_PIPE_NUMBER })
                } else {
                    self.fail(outcome)
                }
            },
            Stage::Querying => match outcome {
                Outcome::Found(existed) => {
                    self.stage = Stage::Configuring { existed };
                    Step::Run(
                        configure_limiter(
                            ApplyConfig {
                                packet_loss: self.config.packet_loss,
                                latency: self.config.latency,
                                max_bandwidth: self.config.max_bandwidth,
                            },
                        ),
                    )
                },
                _ => self.fail(outcome),
            },
            Stage::Configuring { existed } => {
                if !is_done(&outcome) {
                    self.fail(outcome)
                } else if existed {
                    self.finish_enable()
                } else {
                    self.stage = Stage::ReadingBase;
                    Step::Run(Command::ReadBasePolicy)
                }
            },
            Stage::ReadingBase => match outcome {
                Outcome::Text(base) => {
                    match RuleGenerator::generate_anchor_rules("traffic_shaper", base.as_str()) {
                        Ok(text) => {
                            self.stage = Stage::InstallingAnchor;
                            Step::Run(
                                Command::InstallPolicy {
                                    text,
                                    anchor: Some("traffic_shaper".to_owned()),
                                },
                            )
                        },
                        Err(error) => {
                            self.stage = Stage::Idle;
                            Step::Finished(Err(error))
                        },
                    }
                },
                _ => self.fail(outcome),
            },
            Stage::InstallingAnchor => {
                if is_done(&outcome) {
                    match RuleGenerator::generate_pf_rules(&self.config, DEFAULT_PIPE_NUMBER) {
                        Ok(text) => {
                            self.stage = Stage::InstallingRules;
                            Step::Run(Command::InstallPolicy { text, anchor: None })
                        },
                        Err(error) => {
                            self.stage = Stage::Idle;
                            Step::Finished(Err(error))
                        },
                    }
                } else {
                    self.fail(outcome)
                }
            },
            Stage::InstallingRules => {
                if is_done(&outcome) {
                    self.finish_enable()
                } else {
                    self.fail(outcome)
                }
            },
            Stage::OpeningReport => {
                self.stage = Stage::Idle;
                self.state = SessionState::Active;
                self.report_open = is_done(&outcome);
                Step::Finished(Ok(()))
            },
            Stage::Updating(change) => {
                if !is_done(&outcome) {
                    self.fail(outcome)
                } else {
                    match self.sink() {
                        Some(sink) => {
                            let record = EventReport::stamped(
                                timestamp,
                                change.max_bandwidth,
                                change.latency,
                                change.packet_loss,
                            );
                            self.stage = Stage::Reporting;
                            Step::Run(Command::Report { sink, record })
                        },
                        None => {
                            self.stage = Stage::Idle;
                            Step::Finished(Ok(()))
                        },
                    }
                }
            },
            Stage::Reporting => {
                self.stage = Stage::Idle;
                Step::Finished(Ok(()))
            },
            Stage::Flushing => {
                self.note(outcome);
                self.stage = Stage::Restoring;
                Step::Run(Command::RestoreBasePolicy)
            },
            Stage::Restoring => {
                self.note(outcome);
                self.stage = Stage::Deactivating;
                Step::Run(Command::Deactivate)
            },
            Stage::Deactivating => {
                self.note(outcome);
                self.stage = Stage::Idle;
                self.state = SessionState::Inactive;
                match self.failure.take() {
                    Some(error) => Step::Finished(Err(error)),
                    None => Step::Finished(Ok(())),
                }
            },
        }
    }
}

} // verus!
