//! Shaping parameters and their validation.

use vstd::prelude::*;

verus! {

/// Which transport protocols a session shapes.
#[derive(Debug, Clone, Copy, PartialEq, Eq, Structural)]
pub enum Protocol {
    Tcp,
    Udp,
    Both,
}

/// Where the record of each applied change is written.
#[derive(Debug, Clone, PartialEq, Eq)]
pub enum Output {
    /// Nothing is written.
    Off,
    Stdout,
    File { path: String },
}

/// A packet-loss percentage.
///
/// The value is a single-precision binary floating-point number, held as its
/// bit pattern: sign in the top bit, then eight bits of exponent and
/// twenty-three of fraction. Whoever reads numbers from the outside builds one
/// with `from_bits`, and whoever hands the percentage to the outside takes the
/// pattern back with `to_bits`.
#[derive(Debug, Clone, Copy, PartialEq, Eq, Structural)]
pub struct PacketLoss {
    pub bits: u32,
}

/// The bit pattern of 100.0.
pub const FULL_LOSS_BITS: u32 = 0x42C8_0000;

/// The bit pattern of negative zero, which compares equal to zero.
pub const NEGATIVE_ZERO_BITS: u32 = 0x8000_0000;

impl PacketLoss {
    /// Whether the percentage lies between 0 and 100, both included.
    ///
    /// Among patterns with a clear sign bit the numbers grow with their
    /// patterns, from zero upwards, and every pattern above that of infinity is
    /// not a number: so those that are at most 100 are the patterns up to that
    /// of 100. With the sign bit set only negative zero is not below zero.
    pub open spec fn in_range(self) -> bool {
        self.bits <= FULL_LOSS_BITS || self.bits == NEGATIVE_ZERO_BITS
    }

    pub fn from_bits(bits: u32) -> (loss: Self)
        ensures
            loss.bits == bits,
    {
        PacketLoss { bits }
    }

    pub fn to_bits(&self) -> (bits: u32)
        ensures
            bits == self.bits,
    {
        self.bits
    }

    pub fn is_in_range(&self) -> (ok: bool)
        ensures
            ok == self.in_range(),
    {
        self.bits <= FULL_LOSS_BITS || self.bits == NEGATIVE_ZERO_BITS
    }
}

/// A range of ports, both ends included.
#[derive(Debug, Clone, Copy, PartialEq, Eq, Structural)]
pub struct PortRange {
    pub start: u16,
    pub end: u16,
}

impl PortRange {
    /// Whether the range starts no later than it ends.
    pub open spec fn in_order(self) -> bool {
        self.start <= self.end
    }

    /// The range from `start` to `end`, or `InvalidPortRange` when they are out
    /// of order. The pair is never swapped.
    pub fn new(start: u16, end: u16) -> (res: Result<Self, TrafficShapingError>)
        ensures
            start <= end ==> res == Ok::<PortRange, TrafficShapingError>(PortRange { start, end }),
            start > end ==> res == Err::<PortRange, TrafficShapingError>(
                TrafficShapingError::InvalidPortRange { start, end },
            ),
    {
        if start > end {
            Err(TrafficShapingError::InvalidPortRange { start, end })
        } else {
            Ok(PortRange { start, end })
        }
    }
}

/// The parameters of one shaping session.
#[derive(Debug, Clone, PartialEq, Eq)]
pub struct TrafficConfig {
    /// Packet loss percentage (0 to 100)
    pub packet_loss: PacketLoss,
    /// Latency in milliseconds
    pub latency: u32,
    /// Maximum bandwidth in bits per second
    pub max_bandwidth: u64,
    /// Target protocol (TCP, UDP, or both)
    pub protocol: Protocol,
    pub src_ports: Option<PortRange>,
    pub dst_ports: Option<PortRange>,
    pub report_output: Output,
}

/// New limiter parameters for a session that is already running.
#[derive(Debug, Clone, Copy, PartialEq, Eq, Structural)]
pub struct ApplyConfig {
    /// Packet loss percentage (0 to 100)
    pub packet_loss: PacketLoss,
    /// Latency in milliseconds
    pub latency: u32,
    /// Maximum bandwidth in bits per second
    pub max_bandwidth: u64,
}

/// What can go wrong in a shaping session.
#[derive(Debug, Clone, PartialEq, Eq)]
pub enum TrafficShapingError {
    /// The packet loss is not a percentage between 0 and 100.
    InvalidPacketLoss(PacketLoss),
    /// The range starts after it ends.
    InvalidPortRange { start: u16, end: u16 },
    /// The backend ran a command and it reported failure; the text is the
    /// backend's own.
    CommandError(String),
    /// A file or a process could not be opened, read, written or started.
    SystemError(String),
}

/// `TrafficShapingError` with its texts as sequences of characters.
pub enum ErrorView {
    InvalidPacketLoss(PacketLoss),
    InvalidPortRange { start: u16, end: u16 },
    CommandError(Seq<char>),
    SystemError(Seq<char>),
}

impl View for TrafficShapingError {
    type V = ErrorView;

    open spec fn view(&self) -> ErrorView {
        match self {
            TrafficShapingError::InvalidPacketLoss(loss) => ErrorView::InvalidPacketLoss(*loss),
            TrafficShapingError::InvalidPortRange { start, end } => ErrorView::InvalidPortRange {
                start: *start,
                end: *end,
            },
            TrafficShapingError::CommandError(text) => ErrorView::CommandError(text@),
            TrafficShapingError::SystemError(text) => ErrorView::SystemError(text@),
        }
    }
}

impl TrafficShapingError {
    /// A copy of the error.
    pub fn duplicate(&self) -> (copy: Self)
        ensures
            copy@ == self@,
    {
        match self {
            TrafficShapingError::InvalidPacketLoss(loss) => TrafficShapingError::InvalidPacketLoss(
                *loss,
            ),
            TrafficShapingError::InvalidPortRange { start, end } => {
                TrafficShapingError::InvalidPortRange { start: *start, end: *end }
            },
            TrafficShapingError::CommandError(text) => TrafficShapingError::CommandError(
                text.clone(),
            ),
            TrafficShapingError::SystemError(text) => TrafficShapingError::SystemError(
                text.clone(),
            ),
        }
    }
}

/// Whether a range that may be absent is in order; an absent one is.
pub open spec fn ports_in_order(ports: Option<PortRange>) -> bool {
    ports matches Some(range) ==> range.in_order()
}

/// Why a set of parameters is refused: the packet loss first, then the source
/// ports, then the destination ports. `None` when nothing is wrong.
pub open spec fn rejection(
    packet_loss: PacketLoss,
    src_ports: Option<PortRange>,
    dst_ports: Option<PortRange>,
) -> Option<ErrorView> {
    if !packet_loss.in_range() {
        Some(ErrorView::InvalidPacketLoss(packet_loss))
    } else if !ports_in_order(src_ports) {
        Some(ErrorView::InvalidPortRange { start: src_ports->0.start, end: src_ports->0.end })
    } else if !ports_in_order(dst_ports) {
        Some(ErrorView::InvalidPortRange { start: dst_ports->0.start, end: dst_ports->0.end })
    } else {
        None
    }
}

impl TrafficConfig {
    /// What construction guarantees of a configuration.
    pub open spec fn valid(&self) -> bool {
        &&& self.packet_loss.in_range()
        &&& ports_in_order(self.src_ports)
        &&& ports_in_order(self.dst_ports)
    }

    /// Why the configuration would be refused at construction, if it would.
    pub open spec fn rejection(&self) -> Option<ErrorView> {
        rejection(self.packet_loss, self.src_ports, self.dst_ports)
    }

    /// Checks a configuration that was put together field by field.
    pub fn validate(&self) -> (res: Result<(), TrafficShapingError>)
        ensures
            self.rejection() matches Some(error) ==> res matches Err(e) && e@ == error,
            self.rejection() is None ==> res is Ok,
            res is Ok <==> self.valid(),
    {
        if !self.packet_loss.is_in_range() {
            return Err(TrafficShapingError::InvalidPacketLoss(self.packet_loss));
        }
        if let Some(range) = self.src_ports {
            if range.start > range.end {
                return Err(
                    TrafficShapingError::InvalidPortRange { start: range.start, end: range.end },
                );
            }
        }
        if let Some(range) = self.dst_ports {
            if range.start > range.end {
                return Err(
                    TrafficShapingError::InvalidPortRange { start: range.start, end: range.end },
                );
            }
        }
        Ok(())
    }

    /// Creates a new TrafficConfig with validation
    pub fn new(
        packet_loss: PacketLoss,
        latency: u32,
        max_bandwidth: u64,
        protocol: Protocol,
        src_ports: Option<PortRange>,
        dst_ports: Option<PortRange>,
        output: Output,
    ) -> (res: Result<Self, TrafficShapingError>)
        ensures
            rejection(packet_loss, src_ports, dst_ports) matches Some(error) ==> res matches Err(e)
                && e@ == error,
            rejection(packet_loss, src_ports, dst_ports) is None ==> res == Ok::<
                TrafficConfig,
                TrafficShapingError,
            >(
                (TrafficConfig {
                    packet_loss,
                    latency,
                    max_bandwidth,
                    protocol,
                    src_ports,
                    dst_ports,
                    report_output: output,
                }),
            ),
            res matches Ok(config) ==> config.valid(),
    {
        if !packet_loss.is_in_range() {
            return Err(TrafficShapingError::InvalidPacketLoss(packet_loss));
        }
        if let Some(range) = src_ports {
            if range.start > range.end {
                return Err(
                    TrafficShapingError::InvalidPortRange { start: range.start, end: range.end },
                );
            }
        }
        if let Some(range) = dst_ports {
            if range.start > range.end {
                return Err(
                    TrafficShapingError::InvalidPortRange { start: range.start, end: range.end },
                );
            }
        }
        Ok(
            TrafficConfig {
                packet_loss,
                latency,
                max_bandwidth,
                protocol,
                src_ports,
                dst_ports,
                report_output: output,
            },
        )
    }
}

} // verus!
