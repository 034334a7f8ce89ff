//! The policy text that sends a session's traffic through its limiter.

use crate::config::{PortRange, Protocol, TrafficConfig, TrafficShapingError};
use crate::text::{decimal, push_decimal};
use vstd::prelude::*;
use vstd::string::StringExecFns;

verus! {

pub struct RuleGenerator;

/// How a rule names the protocols it matches, after the keyword `proto`: one
/// protocol by its name, both as a list in braces.
pub open spec fn protocol_text(protocol: Protocol) -> Seq<char> {
    match protocol {
        Protocol::Tcp => "tcp"@,
        Protocol::Udp => "udp"@,
        Protocol::Both => "{ tcp udp }"@,
    }
}

/// One side of a rule's address part: `side` is the word for the side, and an
/// absent range matches any port.
pub open spec fn ports_text(side: Seq<char>, ports: Option<PortRange>) -> Seq<char> {
    match ports {
        Some(range) => side + " port "@ + decimal(range.start as nat) + ":"@ + decimal(
            range.end as nat,
        ) + " "@,
        None => side + " any "@,
    }
}

/// The rule for one direction of traffic, with its line end.
pub open spec fn rule_text(direction: Seq<char>, config: TrafficConfig, pipe_num: u32) -> Seq<
    char,
> {
    "dummynet "@ + direction + " quick proto "@ + protocol_text(config.protocol) + " "@
        + ports_text("from"@, config.src_ports) + ports_text("to"@, config.dst_ports) + "pipe "@
        + decimal(pipe_num as nat) + "\n"@
}

/// The whole policy: the inbound rule, then the same rule for outbound traffic.
pub open spec fn policy_text(config: TrafficConfig, pipe_num: u32) -> Seq<char> {
    rule_text("in"@, config, pipe_num) + rule_text("out"@, config, pipe_num)
}

/// A base policy followed by the section that declares the anchor `name`.
pub open spec fn anchor_text(name: Seq<char>, existing_rules: Seq<char>) -> Seq<char> {
    existing_rules + "\n\n# Traffic shaping rules added by traffic_shaper\n"@
        + "dummynet-anchor \""@ + name + "\"\n"@ + "anchor \""@ + name + "\"\n\n"@
}

fn push_ports(out: &mut String, side: &str, ports: &Option<PortRange>)
    ensures
        final(out)@ == old(out)@ + ports_text(side@, *ports),
{
    out.append(side);
    match ports {
        Some(range) => {
            out.append(" port ");
            push_decimal(out, range.start as u64);
            out.append(":");
            push_decimal(out, range.end as u64);
            out.append(" ");
        },
        None => {
            out.append(" any ");
        },
    }
    assert(final(out)@ =~= old(out)@ + ports_text(side@, *ports));
}

fn push_rule(out: &mut String, direction: &str, config: &TrafficConfig, pipe_num: u32)
    ensures
        final(out)@ == old(out)@ + rule_text(direction@, *config, pipe_num),
{
    out.append("dummynet ");
    out.append(direction);
    out.append(" quick proto ");
    match config.protocol {
        Protocol::Tcp => out.append("tcp"),
        Protocol::Udp => out.append("udp"),
        Protocol::Both => out.append("{ tcp udp }"),
    }
    out.append(" ");
    push_ports(out, "from", &config.src_ports);
    push_ports(out, "to", &config.dst_ports);
    out.append("pipe ");
    push_decimal(out, pipe_num as u64);
    out.append("\n");
    assert(final(out)@ =~= old(out)@ + rule_text(direction@, *config, pipe_num));
}

impl RuleGenerator {
    /// The rules that send the traffic `config` selects through the limiter
    /// `pipe_num`, once inbound and once outbound.
    pub fn generate_pf_rules(config: &TrafficConfig, pipe_num: u32) -> (res: Result<
        String,
        TrafficShapingError,
    >)
        ensures
            res matches Ok(rules) && rules@ == policy_text(*config, pipe_num),
    {
        let mut rules = String::new();
        push_rule(&mut rules, "in", config, pipe_num);
        push_rule(&mut rules, "out", config, pipe_num);
        assert(rules@ =~= policy_text(*config, pipe_num));
        Ok(rules)
    }

    /// The base policy `existing_rules` with the declaration of the anchor
    /// `name` after it, so that what is loaded under the anchor can be removed
    /// without touching the rest.
    pub fn generate_anchor_rules(name: &str, existing_rules: &str) -> (res: Result<
        String,
        TrafficShapingError,
    >)
        ensures
            res matches Ok(rules) && rules@ == anchor_text(name@, existing_rules@),
    {
        let mut rules = String::new();
        rules.append(existing_rules);
        rules.append("\n\n# Traffic shaping rules added by traffic_shaper\n");
        rules.append("dummynet-anchor \"");
        rules.append(name);
        rules.append("\"\n");
        rules.append("anchor \"");
        rules.append(name);
        rules.append("\"\n\n");
        assert(rules@ =~= anchor_text(name@, existing_rules@));
        Ok(rules)
    }
}

} // verus!
