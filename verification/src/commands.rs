//! The packet filter and the dummynet limiter as command lines: which program
//! to run with which arguments for each backend operation, and how to read
//! what the program reports.
//!
//! Nothing is run here. A command line is handed out as an `Invocation`;
//! whoever runs it hands its exit status and its output to `interpret`.

use crate::backend::{Outcome, OutcomeView};
use crate::config::{ErrorView, TrafficShapingError};
use crate::text::{chars_of, contains, decimal, find, push_decimal};
use vstd::prelude::*;
use vstd::string::StringExecFns;

verus! {

pub struct PfctlCommands;

pub struct DnctlCommands;

/// How the report of a program is read.
#[derive(Debug, Clone, Copy, PartialEq, Eq, Structural)]
pub enum Reading {
    /// As `Status`, but that the packet filter was enabled already is no
    /// failure.
    Activation,
    /// A failing exit status is a command error, with the error output as its
    /// text.
    Status,
    /// As `Status`, and on success the output is searched for the entry of
    /// the limiter `pipe_num`.
    Listing { pipe_num: u32 },
}

/// A command line, and how to read what the program reports.
#[derive(Debug, Clone, PartialEq, Eq)]
pub struct Invocation {
    pub program: String,
    pub args: Vec<String>,
    pub reading: Reading,
}

/// `Invocation` with its texts as sequences of characters.
pub struct InvocationView {
    pub program: Seq<char>,
    pub args: Seq<Seq<char>>,
    pub reading: Reading,
}

/// The texts of the strings, in order.
pub open spec fn texts(strings: Seq<String>) -> Seq<Seq<char>> {
    Seq::new(strings.len(), |i: int| strings[i]@)
}

impl View for Invocation {
    type V = InvocationView;

    open spec fn view(&self) -> InvocationView {
        InvocationView { program: self.program@, args: texts(self.args@), reading: self.reading }
    }
}

/// The host's persisted base policy.
pub open spec fn base_policy_path() -> Seq<char> {
    "/etc/pf.conf"@
}

/// The text by which a listing of the limiters names the limiter `pipe_num`.
pub open spec fn listing_entry(pipe_num: u32) -> Seq<char> {
    "pipe "@ + decimal(pipe_num as nat) + " "@
}

/// The words with which `pfctl` refuses to enable a packet filter that is
/// enabled.
pub open spec fn already_enabled() -> Seq<char> {
    "pf already enabled"@
}

/// What a report means under a reading.
pub open spec fn outcome_of(
    reading: Reading,
    success: bool,
    stdout: Seq<char>,
    stderr: Seq<char>,
) -> OutcomeView {
    match reading {
        Reading::Activation => if success || contains(stderr, already_enabled()) {
            OutcomeView::Done
        } else {
            OutcomeView::Failed(ErrorView::CommandError(stderr))
        },
        Reading::Status => if success {
            OutcomeView::Done
        } else {
            OutcomeView::Failed(ErrorView::CommandError(stderr))
        },
        Reading::Listing { pipe_num } => if success {
            OutcomeView::Found(contains(stdout, listing_entry(pipe_num)))
        } else {
            OutcomeView::Failed(ErrorView::CommandError(stderr))
        },
    }
}

/// The arguments that load a file of rules, under an anchor if one is named.
pub open spec fn load_args(rules_file: Seq<char>, anchor_name: Option<Seq<char>>) -> Seq<
    Seq<char>,
> {
    match anchor_name {
        Some(name) => seq!["-a"@, name, "-f"@, rules_file],
        None => seq!["-f"@, rules_file],
    }
}

/// The arguments that set a limiter's bandwidth in bits per second.
pub open spec fn bandwidth_args(bandwidth: Option<u64>) -> Seq<Seq<char>> {
    match bandwidth {
        Some(bits) => seq!["bw"@, decimal(bits as nat) + "bit/s"@],
        None => seq![],
    }
}

/// The arguments that set a limiter's delay in milliseconds.
pub open spec fn delay_args(delay: Option<u32>) -> Seq<Seq<char>> {
    match delay {
        Some(millis) => seq!["delay"@, decimal(millis as nat) + "ms"@],
        None => seq![],
    }
}

/// The arguments that set a limiter's packet loss rate; `plr` is the rate as
/// the limiter reads it, a number between 0 and 1.
pub open spec fn loss_args(plr: Option<Seq<char>>) -> Seq<Seq<char>> {
    match plr {
        Some(rate) => seq!["plr"@, rate],
        None => seq![],
    }
}

/// The arguments that configure the limiter `pipe_num`.
pub open spec fn configure_args(
    pipe_num: u32,
    bandwidth: Option<u64>,
    delay: Option<u32>,
    plr: Option<Seq<char>>,
) -> Seq<Seq<char>> {
    seq!["pipe"@, decimal(pipe_num as nat), "config"@] + bandwidth_args(bandwidth) + delay_args(
        delay,
    ) + loss_args(plr)
}

/// The text of a string slice that may be absent.
pub open spec fn slice_view(text: Option<&str>) -> Option<Seq<char>> {
    match text {
        Some(text) => Some(text@),
        None => None,
    }
}

fn push_arg(args: &mut Vec<String>, text: &str)
    ensures
        texts(final(args)@) == texts(old(args)@).push(text@),
{
    args.push(String::from_str(text));
    assert(texts(args@) =~= texts(old(args)@).push(text@));
}

fn push_number(args: &mut Vec<String>, number: u64)
    ensures
        texts(final(args)@) == texts(old(args)@).push(decimal(number as nat)),
{
    let mut text = String::new();
    push_decimal(&mut text, number);
    assert(text@ =~= decimal(number as nat));
    args.push(text);
    assert(texts(args@) =~= texts(old(args)@).push(decimal(number as nat)));
}

fn push_quantity(args: &mut Vec<String>, quantity: u64, unit: &str)
    ensures
        texts(final(args)@) == texts(old(args)@).push(decimal(quantity as nat) + unit@),
{
    let mut text = String::new();
    push_decimal(&mut text, quantity);
    text.append(unit);
    assert(text@ =~= decimal(quantity as nat) + unit@);
    args.push(text);
    assert(texts(args@) =~= texts(old(args)@).push(decimal(quantity as nat) + unit@));
}

fn invocation(program: &str, args: Vec<String>, reading: Reading) -> (invocation: Invocation)
    ensures
        invocation@ == (InvocationView { program: program@, args: texts(args@), reading }),
{
    Invocation { program: String::from_str(program), args, reading }
}

// pfctl - packet filter control
impl PfctlCommands {
    /// Loads PF rules from a file
    pub fn load_rules(rules_file: &str, anchor_name: Option<&str>) -> (invocation: Invocation)
        ensures
            invocation@ == (InvocationView {
                program: "pfctl"@,
                args: load_args(rules_file@, slice_view(anchor_name)),
                reading: Reading::Status,
            }),
    {
        let mut args: Vec<String> = Vec::new();
        assert(texts(args@) =~= seq![]);
        if let Some(name) = anchor_name {
            push_arg(&mut args, "-a");
            push_arg(&mut args, name);
        }
        push_arg(&mut args, "-f");
        push_arg(&mut args, rules_file);
        assert(texts(args@) =~= load_args(rules_file@, slice_view(anchor_name)));
        invocation("pfctl", args, Reading::Status)
    }

    /// Restores the PF rules that the host had, from /etc/pf.conf
    pub fn restore_original_rules() -> (invocation: Invocation)
        ensures
            invocation@ == (InvocationView {
                program: "pfctl"@,
                args: seq!["-f"@, base_policy_path()],
                reading: Reading::Status,
            }),
    {
        let mut args: Vec<String> = Vec::new();
        assert(texts(args@) =~= seq![]);
        push_arg(&mut args, "-f");
        push_arg(&mut args, "/etc/pf.conf");
        assert(texts(args@) =~= seq!["-f"@, base_policy_path()]);
        invocation("pfctl", args, Reading::Status)
    }

    /// Enables PF
    ///
    /// `pfctl -e` keeps no count of who enabled the packet filter: it
    /// switches the filter on, and fails when the filter is on already. That
    /// failure is read as success, so that a session can be enabled beside
    /// another; any other failure is a command error.
    pub fn enable() -> (invocation: Invocation)
        ensures
            invocation@ == (InvocationView {
                program: "pfctl"@,
                args: seq!["-e"@],
                reading: Reading::Activation,
            }),
    {
        let mut args: Vec<String> = Vec::new();
        assert(texts(args@) =~= seq![]);
        push_arg(&mut args, "-e");
        assert(texts(args@) =~= seq!["-e"@]);
        invocation("pfctl", args, Reading::Activation)
    }

    /// Disables PF
    pub fn disable() -> (invocation: Invocation)
        ensures
            invocation@ == (InvocationView {
                program: "pfctl"@,
                args: seq!["-d"@],
                reading: Reading::Status,
            }),
    {
        let mut args: Vec<String> = Vec::new();
        assert(texts(args@) =~= seq![]);
        push_arg(&mut args, "-d");
        assert(texts(args@) =~= seq!["-d"@]);
        invocation("pfctl", args, Reading::Status)
    }
}

// dnctl - dummynet control
impl DnctlCommands {
    /// Checks if a pipe exists
    pub fn pipe_exists(pipe_num: u32) -> (invocation: Invocation)
        ensures
            invocation@ == (InvocationView {
                program: "dnctl"@,
                args: seq!["show"@],
                reading: Reading::Listing { pipe_num },
            }),
    {
        let mut args: Vec<String> = Vec::new();
        assert(texts(args@) =~= seq![]);
        push_arg(&mut args, "show");
        assert(texts(args@) =~= seq!["show"@]);
        invocation("dnctl", args, Reading::Listing { pipe_num })
    }

    /// Creates or updates a pipe with specified configuration
    ///
    /// `plr` is the packet loss rate as text, as the limiter reads it.
    pub fn configure_pipe(
        pipe_num: u32,
        bandwidth: Option<u64>,
        delay: Option<u32>,
        plr: Option<&str>,
    ) -> (invocation: Invocation)
        ensures
            invocation@ == (InvocationView {
                program: "dnctl"@,
                args: configure_args(pipe_num, bandwidth, delay, slice_view(plr)),
                reading: Reading::Status,
            }),
    {
        let mut args: Vec<String> = Vec::new();
        assert(texts(args@) =~= seq![]);
        push_arg(&mut args, "pipe");
        push_number(&mut args, pipe_num as u64);
        push_arg(&mut args, "config");
        assert(texts(args@) =~= seq!["pipe"@, decimal(pipe_num as nat), "config"@]);
        if let Some(bits) = bandwidth {
            push_arg(&mut args, "bw");
            push_quantity(&mut args, bits, "bit/s");
        }
        assert(texts(args@) =~= seq!["pipe"@, decimal(pipe_num as nat), "config"@]
            + bandwidth_args(bandwidth));
        if let Some(millis) = delay {
            push_arg(&mut args, "delay");
            push_quantity(&mut args, millis as u64, "ms");
        }
        assert(texts(args@) =~= seq!["pipe"@, decimal(pipe_num as nat), "config"@]
            + bandwidth_args(bandwidth) + delay_args(delay));
        if let Some(rate) = plr {
            push_arg(&mut args, "plr");
            push_arg(&mut args, rate);
        }
        assert(texts(args@) =~= configure_args(pipe_num, bandwidth, delay, slice_view(plr)));
        invocation("dnctl", args, Reading::Status)
    }

    /// Flushes all pipes
    pub fn flush_pipes() -> (invocation: Invocation)
        ensures
            invocation@ == (InvocationView {
                program: "dnctl"@,
                args: seq!["-q"@, "flush"@],
                reading: Reading::Status,
            }),
    {
        let mut args: Vec<String> = Vec::new();
        assert(texts(args@) =~= seq![]);
        push_arg(&mut args, "-q");
        push_arg(&mut args, "flush");
        assert(texts(args@) =~= seq!["-q"@, "flush"@]);
        invocation("dnctl", args, Reading::Status)
    }
}

fn mentions(text: &str, words: &str) -> (found: bool)
    ensures
        found == contains(text@, words@),
{
    let hay = chars_of(text);
    let needle = chars_of(words);
    find(&hay, &needle)
}

fn listed(stdout: &str, pipe_num: u32) -> (found: bool)
    ensures
        found == contains(stdout@, listing_entry(pipe_num)),
{
    let mut entry = String::new();
    entry.append("pipe ");
    push_decimal(&mut entry, pipe_num as u64);
    entry.append(" ");
    assert(entry@ =~= listing_entry(pipe_num));
    mentions(stdout, entry.as_str())
}

impl Invocation {
    /// Reads what the program reported: whether it exited successfully, and
    /// what it wrote to its output and to its error output.
    pub fn interpret(&self, success: bool, stdout: &str, stderr: &str) -> (outcome: Outcome)
        ensures
            outcome@ == outcome_of(self.reading, success, stdout@, stderr@),
    {
        match self.reading {
            Reading::Activation => {
                if success || mentions(stderr, "pf already enabled") {
                    Outcome::Done
                } else {
                    Outcome::Failed(TrafficShapingError::CommandError(String::from_str(stderr)))
                }
            },
            Reading::Status => {
                if success {
                    Outcome::Done
                } else {
                    Outcome::Failed(TrafficShapingError::CommandError(String::from_str(stderr)))
                }
            },
            Reading::Listing { pipe_num } => {
                if success {
                    Outcome::Found(listed(stdout, pipe_num))
                } else {
                    Outcome::Failed(TrafficShapingError::CommandError(String::from_str(stderr)))
                }
            },
        }
    }
}

} // verus!
