//! Control plane for shaping a host's network traffic: validated shaping
//! parameters, the policy text that routes traffic through a rate limiter,
//! and the step-by-step machines that enable, update and tear down a
//! shaping session while their caller performs the outside work.

pub mod args;
pub mod backend;
pub mod commands;
pub mod config;
pub mod driver;
pub mod memory;
pub mod models;
pub mod rehearsal;
pub mod rules;
pub mod shaper;
pub mod simulation;
pub mod text;

pub use args::{parse_port_range, parse_protocol};
pub use backend::{Command, EventReport, Outcome, ReportSink, Step};
pub use commands::{DnctlCommands, Invocation, PfctlCommands, Reading};
pub use config::{
    ApplyConfig, Output, PacketLoss, PortRange, Protocol, TrafficConfig, TrafficShapingError,
};
pub use driver::{Decision, Driver};
pub use memory::{MemoryBackend, Policy};
pub use models::{Config, Events, Manifest};
pub use rules::RuleGenerator;
pub use shaper::{SessionState, Stage, TrafficShaper, DEFAULT_PIPE_NUMBER};
pub use simulation::{Action, Event, Phase, Simulation, SimulationError};
