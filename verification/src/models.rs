//! A scripted session as it is written down: the shaping parameters and the
//! timed changes to replay.

use crate::config::{
    ApplyConfig,
    Output,
    PacketLoss,
    PortRange,
    Protocol,
    TrafficConfig,
};
use vstd::prelude::*;
use vstd::std_specs::convert::FromSpecImpl;

verus! {

/// A session's script.
#[derive(Debug, Clone, PartialEq, Eq)]
pub struct Manifest {
    pub config: Config,
    pub events: Vec<Events>,
}

/// The shaping parameters as a manifest holds them.
#[derive(Debug, Clone, PartialEq, Eq)]
pub struct Config {
    pub packet_loss: PacketLoss,
    pub latency: u32,
    pub bandwidth: u64,
    pub protocol: Protocol,
    pub src_ports: Option<(u16, u16)>,
    pub dst_ports: Option<(u16, u16)>,
    pub report_output: Option<Output>,
}

/// One timed change of the limiter's parameters.
#[derive(Debug, Clone, Copy, PartialEq, Eq, Structural)]
pub struct Events {
    /// Whole seconds after the session's epoch at which the change is due.
    pub time: u64,
    pub latency: u32,
    pub bandwidth: u64,
    pub packet_loss: PacketLoss,
}

/// A pair of ports as a range, unchecked.
pub open spec fn ports_of(pair: Option<(u16, u16)>) -> Option<PortRange> {
    match pair {
        Some((start, end)) => Some(PortRange { start, end }),
        None => None,
    }
}

fn port_range(pair: Option<(u16, u16)>) -> (ports: Option<PortRange>)
    ensures
        ports == ports_of(pair),
{
    match pair {
        Some((start, end)) => Some(PortRange { start, end }),
        None => None,
    }
}

impl From<Config> for TrafficConfig {
    /// The same parameters, field by field and unchecked; a manifest without a
    /// report output reports nowhere.
    fn from(config: Config) -> (ret: TrafficConfig) {
        TrafficConfig {
            packet_loss: config.packet_loss,
            latency: config.latency,
            max_bandwidth: config.bandwidth,
            protocol: config.protocol,
            src_ports: port_range(config.src_ports),
            dst_ports: port_range(config.dst_ports),
            report_output: match config.report_output {
                Some(output) => output,
                None => Output::Off,
            },
        }
    }
}

impl FromSpecImpl<Config> for TrafficConfig {
    open spec fn obeys_from_spec() -> bool {
        true
    }

    open spec fn from_spec(config: Config) -> TrafficConfig {
        TrafficConfig {
            packet_loss: config.packet_loss,
            latency: config.latency,
            max_bandwidth: config.bandwidth,
            protocol: config.protocol,
            src_ports: ports_of(config.src_ports),
            dst_ports: ports_of(config.dst_ports),
            report_output: match config.report_output {
                Some(output) => output,
                None => Output::Off,
            },
        }
    }
}

impl From<Events> for ApplyConfig {
    /// The parameters that the event asks for, without its time.
    fn from(event: Events) -> (ret: ApplyConfig) {
        ApplyConfig {
            packet_loss: event.packet_loss,
            latency: event.latency,
            max_bandwidth: event.bandwidth,
        }
    }
}

impl FromSpecImpl<Events> for ApplyConfig {
    open spec fn obeys_from_spec() -> bool {
        true
    }

    open spec fn from_spec(event: Events) -> ApplyConfig {
        ApplyConfig {
            packet_loss: event.packet_loss,
            latency: event.latency,
            max_bandwidth: event.bandwidth,
        }
    }
}

} // verus!
