//! What an operation on a channel can report instead of a byte count.

use vstd::prelude::*;

verus! {

/// The broad class of a [`ChannelError`].
#[derive(Clone, Copy, Debug, PartialEq, Eq, Structural)]
pub enum ErrorKind {
    /// Nothing could be moved right now. Wait for the half's readiness event
    /// and try again.
    WouldBlock,
    /// The other half has been dropped. The condition is final.
    PeerClosed,
    /// The capacity handed to `create` is not one a channel can have.
    InvalidCapacity,
    /// The poll loop of the other half could not be woken.
    Notify,
}

/// Why a call returned no byte count.
#[derive(Clone, Copy, Debug, PartialEq, Eq, Structural)]
pub enum ChannelError {
    /// A write found no free slot in the ring.
    RingFull,
    /// A read found no byte in the ring while the producer is still there.
    RingEmpty,
    /// A write found that the consumer has been dropped.
    ConsumerClosed,
    /// A read found the ring drained and the producer dropped.
    ProducerClosed,
    /// `create` was asked for a capacity of zero or for one above
    /// [`MAX_CAPACITY`](crate::protocol::MAX_CAPACITY).
    InvalidCapacity,
    /// Bytes were moved, but raising the other half's readiness failed.
    NotifyFailed,
}

impl ChannelError {
    /// The class of this error.
    pub open spec fn kind_of(self) -> ErrorKind {
        match self {
            ChannelError::RingFull => ErrorKind::WouldBlock,
            ChannelError::RingEmpty => ErrorKind::WouldBlock,
            ChannelError::ConsumerClosed => ErrorKind::PeerClosed,
            ChannelError::ProducerClosed => ErrorKind::PeerClosed,
            ChannelError::InvalidCapacity => ErrorKind::InvalidCapacity,
            ChannelError::NotifyFailed => ErrorKind::Notify,
        }
    }

    /// The text that goes with this error.
    pub open spec fn text_of(self) -> Seq<char> {
        match self {
            ChannelError::RingFull => "Ring buffer is full"@,
            ChannelError::RingEmpty => "Ring buffer is empty"@,
            ChannelError::ConsumerClosed => "Consumer was closed"@,
            ChannelError::ProducerClosed => "Producer was closed"@,
            ChannelError::InvalidCapacity => "Capacity is out of range"@,
            ChannelError::NotifyFailed => "Peer could not be notified"@,
        }
    }

    /// Whether a later call may succeed where this one failed.
    pub open spec fn is_transient(self) -> bool {
        self.kind_of() == ErrorKind::WouldBlock
    }

    pub fn kind(&self) -> (k: ErrorKind)
        ensures
            k == self.kind_of(),
    {
        match self {
            ChannelError::RingFull => ErrorKind::WouldBlock,
            ChannelError::RingEmpty => ErrorKind::WouldBlock,
            ChannelError::ConsumerClosed => ErrorKind::PeerClosed,
            ChannelError::ProducerClosed => ErrorKind::PeerClosed,
            ChannelError::InvalidCapacity => ErrorKind::InvalidCapacity,
            ChannelError::NotifyFailed => ErrorKind::Notify,
        }
    }

    pub fn description(&self) -> (text: &'static str)
        ensures
            text@ == self.text_of(),
    {
        match self {
            ChannelError::RingFull => "Ring buffer is full",
            ChannelError::RingEmpty => "Ring buffer is empty",
            ChannelError::ConsumerClosed => "Consumer was closed",
            ChannelError::ProducerClosed => "Producer was closed",
            ChannelError::InvalidCapacity => "Capacity is out of range",
            ChannelError::NotifyFailed => "Peer could not be notified",
        }
    }
}

} // verus!
