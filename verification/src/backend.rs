//! The capability that a shaping session consumes.
//!
//! The control plane never touches the packet filter or the limiter itself.
//! It names the next operation as a `Command`; its caller performs the
//! operation on whatever facility the platform has and hands back what came of
//! it as an `Outcome`.

use crate::config::{ApplyConfig, ErrorView, PacketLoss, TrafficShapingError};
use vstd::prelude::*;

verus! {

/// Where a record goes.
#[derive(Debug, Clone, Copy, PartialEq, Eq, Structural)]
pub enum ReportSink {
    Stdout,
    /// The file that the last `OpenReport` opened.
    File,
}

/// The record of one applied change.
#[derive(Debug, Clone, PartialEq, Eq)]
pub struct EventReport {
    /// Local time at which the record was made, as an RFC 3339 date and time.
    pub timestamp: String,
    pub bandwidth: u64,
    pub latency: u32,
    pub packet_loss: PacketLoss,
}

impl View for EventReport {
    type V = ApplyConfig;

    /// The change that the record reports, without the time at which it was
    /// made.
    open spec fn view(&self) -> ApplyConfig {
        ApplyConfig {
            packet_loss: self.packet_loss,
            latency: self.latency,
            max_bandwidth: self.bandwidth,
        }
    }
}

/// `chrono::Local::now`, written out by `DateTime::to_rfc3339_opts` with
/// automatic sub-second digits and `Z` for a zero offset. The text depends on
/// the clock and the time zone of the machine, so nothing is claimed of it.
#[verifier::external_body]
pub(crate) fn local_time_stamp() -> String {
    chrono::Local::now().to_rfc3339_opts(chrono::SecondsFormat::AutoSi, true)
}

impl EventReport {
    /// A record of the given parameters with the given time stamp.
    pub fn stamped(timestamp: String, bandwidth: u64, latency: u32, packet_loss: PacketLoss) -> (report:
        Self)
        ensures
            report.timestamp@ == timestamp@,
            report.bandwidth == bandwidth,
            report.latency == latency,
            report.packet_loss == packet_loss,
    {
        EventReport { timestamp, bandwidth, latency, packet_loss }
    }

    /// A record of the given parameters, stamped with the local time that
    /// the clock reads during the call.
    pub fn new(bandwidth: u64, latency: u32, packet_loss: PacketLoss) -> (report: Self)
        ensures
            report.bandwidth == bandwidth,
            report.latency == latency,
            report.packet_loss == packet_loss,
    {
        EventReport::stamped(local_time_stamp(), bandwidth, latency, packet_loss)
    }
}

/// One operation on the backend or on the report sink.
#[derive(Debug, Clone, PartialEq, Eq)]
pub enum Command {
    /// Take a reference on the packet filter, switching it on if nobody held
    /// one.
    Activate,
    /// Set every parameter of the limiter `id`, creating it if need be. The
    /// limiter drops the hundredth part of `packet_loss` of its packets.
    ConfigureLimiter { id: u32, bandwidth: u64, latency: u32, packet_loss: PacketLoss },
    /// Ask whether the limiter `id` exists. Answered by `Outcome::Found`.
    QueryLimiter { id: u32 },
    /// Read the host's persisted base policy. Answered by `Outcome::Text`.
    ReadBasePolicy,
    /// Load `text` as the main policy, or under the named anchor.
    InstallPolicy { text: String, anchor: Option<String> },
    /// Load the persisted base policy again, dropping what sessions installed.
    RestoreBasePolicy,
    /// Remove every limiter.
    FlushLimiters,
    /// Give up a reference on the packet filter; the last one switches it off.
    Deactivate,
    /// Create or truncate the report file and keep it open.
    OpenReport { path: String },
    /// Write one record, as a line of its own.
    Report { sink: ReportSink, record: EventReport },
}

/// `Command` with its texts as sequences of characters.
pub enum CommandView {
    Activate,
    ConfigureLimiter { id: u32, bandwidth: u64, latency: u32, packet_loss: PacketLoss },
    QueryLimiter { id: u32 },
    ReadBasePolicy,
    InstallPolicy { text: Seq<char>, anchor: Option<Seq<char>> },
    RestoreBasePolicy,
    FlushLimiters,
    Deactivate,
    OpenReport { path: Seq<char> },
    Report { sink: ReportSink, record: ApplyConfig },
}

/// The text of a name that may be absent.
pub open spec fn name_view(name: Option<String>) -> Option<Seq<char>> {
    match name {
        Some(text) => Some(text@),
        None => None,
    }
}

impl View for Command {
    type V = CommandView;

    open spec fn view(&self) -> CommandView {
        match self {
            Command::Activate => CommandView::Activate,
            Command::ConfigureLimiter { id, bandwidth, latency, packet_loss } => {
                CommandView::ConfigureLimiter {
                    id: *id,
                    bandwidth: *bandwidth,
                    latency: *latency,
                    packet_loss: *packet_loss,
                }
            },
            Command::QueryLimiter { id } => CommandView::QueryLimiter { id: *id },
            Command::ReadBasePolicy => CommandView::ReadBasePolicy,
            Command::InstallPolicy { text, anchor } => CommandView::InstallPolicy {
                text: text@,
                anchor: name_view(*anchor),
            },
            Command::RestoreBasePolicy => CommandView::RestoreBasePolicy,
            Command::FlushLimiters => CommandView::FlushLimiters,
            Command::Deactivate => CommandView::Deactivate,
            Command::OpenReport { path } => CommandView::OpenReport { path: path@ },
            Command::Report { sink, record } => CommandView::Report {
                sink: *sink,
                record: record@,
            },
        }
    }
}

/// What came of a command.
#[derive(Debug, Clone, PartialEq, Eq)]
pub enum Outcome {
    /// The operation succeeded and has nothing to tell.
    Done,
    /// The answer to `QueryLimiter`.
    Found(bool),
    /// The answer to `ReadBasePolicy`.
    Text(String),
    /// The operation failed.
    Failed(TrafficShapingError),
}

/// `Outcome` with its texts as sequences of characters.
pub enum OutcomeView {
    Done,
    Found(bool),
    Text(Seq<char>),
    Failed(ErrorView),
}

impl View for Outcome {
    type V = OutcomeView;

    open spec fn view(&self) -> OutcomeView {
        match self {
            Outcome::Done => OutcomeView::Done,
            Outcome::Found(exists) => OutcomeView::Found(*exists),
            Outcome::Text(text) => OutcomeView::Text(text@),
            Outcome::Failed(error) => OutcomeView::Failed(error@),
        }
    }
}

/// The diagnostic of a reply that is of the wrong kind for what it answers.
pub open spec fn unexpected_reply() -> Seq<char> {
    "unexpected reply from the backend"@
}

/// The error that an outcome other than the awaited one stands for: its own
/// when it is a failure, and a command error otherwise.
pub open spec fn failure_of(outcome: OutcomeView) -> ErrorView {
    match outcome {
        OutcomeView::Failed(error) => error,
        _ => ErrorView::CommandError(unexpected_reply()),
    }
}

/// The error that an outcome other than the awaited one stands for.
pub fn error_of(outcome: Outcome) -> (error: TrafficShapingError)
    ensures
        error@ == failure_of(outcome@),
{
    match outcome {
        Outcome::Failed(error) => error,
        _ => TrafficShapingError::CommandError("unexpected reply from the backend".to_owned()),
    }
}

/// The next move of a machine: a command to perform, or the result of the
/// operation that has come to its end.
#[derive(Debug, PartialEq, Eq)]
pub enum Step {
    Run(Command),
    Finished(Result<(), TrafficShapingError>),
}

/// `Step` with its texts as sequences of characters. A finished step holds
/// the error, if there was one.
pub enum StepView {
    Run(CommandView),
    Finished(Option<ErrorView>),
}

impl View for Step {
    type V = StepView;

    open spec fn view(&self) -> StepView {
        match self {
            Step::Run(command) => StepView::Run(command@),
            Step::Finished(Ok(_)) => StepView::Finished(None),
            Step::Finished(Err(error)) => StepView::Finished(Some(error@)),
        }
    }
}

} // verus!
