//! The packets that a signal observation hands to a port, and the port's
//! one operation.

use vstd::prelude::*;
use crate::error::ZxError;
use crate::signal::Signal;

verus! {

/// What a port packet says of one signal observation.
#[derive(Clone, Copy, Debug, PartialEq, Eq, Structural)]
pub struct PacketSignal {
    /// The mask that was waited for.
    pub trigger: Signal,
    /// The object's signal when the packet was made.
    pub observed: Signal,
    /// How many observations the packet stands for.
    pub count: u64,
    /// Left at zero here: the port stamps packets with its own clock.
    pub timestamp: u64,
    pub _reserved1: u64,
}

/// The payload of a port packet.
#[derive(Clone, Copy, Debug, PartialEq, Eq, Structural)]
pub enum PayloadRepr {
    Signal(PacketSignal),
}

/// A packet as a port takes it.
#[derive(Clone, Copy, Debug, PartialEq, Eq, Structural)]
pub struct PortPacketRepr {
    /// The tag that the caller chose.
    pub key: u64,
    pub status: ZxError,
    pub data: PayloadRepr,
}

impl PortPacketRepr {
    /// The packet for one observation of `observed` by a wait for `trigger`.
    pub open spec fn spec_signal(key: u64, trigger: Signal, observed: Signal) -> PortPacketRepr {
        PortPacketRepr {
            key,
            status: ZxError::OK,
            data: PayloadRepr::Signal(
                PacketSignal { trigger, observed, count: 1, timestamp: 0, _reserved1: 0 },
            ),
        }
    }

    /// The packet for one observation of `observed` by a wait for `trigger`.
    #[verifier::when_used_as_spec(spec_signal)]
    pub fn signal(key: u64, trigger: Signal, observed: Signal) -> (packet: PortPacketRepr)
        ensures
            packet == Self::spec_signal(key, trigger, observed),
    {
        PortPacketRepr {
            key,
            status: ZxError::OK,
            data: PayloadRepr::Signal(
                PacketSignal { trigger, observed, count: 1, timestamp: 0, _reserved1: 0 },
            ),
        }
    }
}

/// A delivery queue that buffers packets for one consumer.
///
/// Nothing is promised of `push`: what a queue does with a packet is its own
/// affair.
pub trait Port: Send {
    /// Enqueues `packet`.
    fn push(&self, packet: PortPacketRepr);
}

} // verus!
