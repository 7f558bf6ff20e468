//! A fixed-capacity, non-blocking byte channel with one writing half and one
//! reading half, made to be driven by a `mio` poll loop.
//!
//! [`create`] builds the two halves around one shared ring. [`Producer::write`]
//! and [`Consumer::read`] each try once and never wait: they move what fits,
//! report `WouldBlock` when nothing can move, and report `PeerClosed` when the
//! other half has been dropped. A write that makes an empty ring non-empty
//! wakes the reading half through its registration, and a read that makes a
//! full ring non-full wakes the writing half.
//!
//! The bytes themselves live in an `rb` ring and the wake-ups travel through
//! `mio` registrations. Everything this crate decides on top of them is in
//! [`protocol`]. [`channel`] proves of the two halves, on whatever threads
//! they run, that what one receives is what the other sent. [`model`]
//! describes the channel as seen from a single thread and [`schedule`] proves
//! what the decisions add up to there over whole transfers.

pub mod channel;
pub mod error;
pub mod model;
pub mod protocol;
pub mod ring;
pub mod schedule;
pub mod signal;

pub use channel::{create, Consumer, Producer};
pub use error::{ChannelError, ErrorKind};
