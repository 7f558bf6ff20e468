//! The decisions a half takes around one access to the ring.
//!
//! A half looks at the ring and at the liveness flag, lets the ring move
//! bytes, and then has to decide two things: what to answer, and whether the
//! other half must be woken. Both depend only on what was observed, so they
//! are plain functions here, with nothing of the ring or the poll loop in
//! them.

use vstd::prelude::*;
use crate::error::ChannelError;

verus! {

/// The largest capacity a channel can be created with.
pub const MAX_CAPACITY: usize = 0x4000_0000;

/// Why the ring moved nothing.
#[derive(Clone, Copy, Debug, PartialEq, Eq, Structural)]
pub enum RingFault {
    /// No free slot was left.
    Full,
    /// No byte was stored.
    Empty,
}

/// A wake-up: the readiness that one half raises on the registration of the
/// other.
#[derive(Clone, Copy, Debug, PartialEq, Eq, Structural)]
pub enum Wake {
    /// "There is something to read": raised by a write on the consumer's
    /// registration.
    Readable,
    /// "There is room to write": raised by a read on the producer's
    /// registration.
    Writable,
    /// Every readiness at once: raised by a half that is dropped.
    All,
}

/// What a half does after one access to the ring.
#[derive(Clone, Copy, Debug, PartialEq, Eq)]
pub struct Verdict {
    /// The answer for the caller, provided the wake-up (if any) goes through.
    pub reply: Result<usize, ChannelError>,
    /// Whether the other half's readiness has to be raised first.
    pub wake_peer: bool,
}

/// A capacity is valid when it is at least one and at most [`MAX_CAPACITY`].
pub open spec fn valid_capacity(capacity: int) -> bool {
    1 <= capacity <= MAX_CAPACITY
}

/// Whether a write is refused as closed before the ring is touched: when the
/// half has already seen the consumer gone, or when the liveness flag no
/// longer reads "both halves are there".
pub open spec fn write_is_refused(latched: bool, peer_open: bool) -> bool {
    latched || !peer_open
}

/// The verdict on a write, given whether the ring was empty just before it
/// and what the ring answered.
///
/// Whatever the ring accepted is reported as it is; a ring that took nothing
/// is reported as full. The reader is woken exactly when the write put the
/// first bytes into an empty ring.
pub open spec fn write_verdict(was_empty: bool, outcome: Result<usize, RingFault>) -> Verdict {
    match outcome {
        Ok(n) => Verdict { reply: Ok(n), wake_peer: n > 0 && was_empty },
        Err(_) => Verdict { reply: Err(ChannelError::RingFull), wake_peer: false },
    }
}

/// The verdict on a read, given whether the producer was still there and
/// whether the ring was full just before the read, and what the ring answered.
///
/// Whatever the ring handed out is reported as it is, also when the producer
/// is gone: bytes written before it left stay readable. A ring that had
/// nothing is reported as empty while the producer lives and as closed once it
/// is gone. The writer is woken exactly when the read took the first bytes out
/// of a full ring.
pub open spec fn read_verdict(
    peer_open: bool,
    was_full: bool,
    outcome: Result<usize, RingFault>,
) -> Verdict {
    match outcome {
        Ok(n) => Verdict { reply: Ok(n), wake_peer: n > 0 && was_full },
        Err(_) => Verdict {
            reply: Err(
                if peer_open {
                    ChannelError::RingEmpty
                } else {
                    ChannelError::ProducerClosed
                },
            ),
            wake_peer: false,
        },
    }
}

/// The answer once the wake-up has been attempted: a failed wake-up replaces
/// the reply, a successful one (or none) leaves it.
pub open spec fn final_reply(verdict: Verdict, notified: bool) -> Result<usize, ChannelError> {
    if verdict.wake_peer && !notified {
        Err(ChannelError::NotifyFailed)
    } else {
        verdict.reply
    }
}

/// What a write of `data` may answer, and what it then has done to the
/// stream of bytes sent: `sent` before the call, `sent_after` behind it.
///
/// A count says that this many leading bytes of `data` went onto the stream,
/// and it is zero only for empty `data`. A refusal because the consumer is
/// gone or the ring is full moved nothing, and the ring is never reported
/// full to empty `data`. A failed wake-up comes only after at least one byte
/// went onto the stream. No other error is ever returned.
pub open spec fn write_allows(
    data: Seq<u8>,
    sent: Seq<u8>,
    reply: Result<usize, ChannelError>,
    sent_after: Seq<u8>,
) -> bool {
    match reply {
        Ok(n) => {
            &&& n <= data.len()
            &&& n == 0 <==> data.len() == 0
            &&& sent_after == sent + data.take(n as int)
        },
        Err(ChannelError::ConsumerClosed) => sent_after == sent,
        Err(ChannelError::RingFull) => data.len() > 0 && sent_after == sent,
        Err(ChannelError::NotifyFailed) => exists|n: int|
            0 < n <= data.len() && sent_after == sent + #[trigger] data.take(n),
        Err(_) => false,
    }
}

/// What a read into `buf` may answer, and what it then has done to the
/// buffer and to the stream of bytes received: `buf` and `received` before
/// the call, `buf_after` and `received_after` behind it.
///
/// The buffer keeps its length. A count says that this many bytes went onto
/// the stream and lie at the front of the buffer, with the rest of the buffer
/// untouched, and it is zero only for an empty buffer. A refusal because the
/// ring is empty or the producer is gone touched neither buffer nor stream,
/// and is never given to an empty buffer. A failed wake-up comes only after
/// at least one byte was moved. No other error is ever returned.
pub open spec fn read_allows(
    buf: Seq<u8>,
    received: Seq<u8>,
    reply: Result<usize, ChannelError>,
    buf_after: Seq<u8>,
    received_after: Seq<u8>,
) -> bool {
    &&& buf_after.len() == buf.len()
    &&& match reply {
        Ok(n) => {
            &&& n <= buf.len()
            &&& n == 0 <==> buf.len() == 0
            &&& buf_after.skip(n as int) == buf.skip(n as int)
            &&& received_after == received + buf_after.take(n as int)
        },
        Err(ChannelError::RingEmpty) | Err(ChannelError::ProducerClosed) => {
            &&& buf.len() > 0
            &&& buf_after == buf
            &&& received_after == received
        },
        Err(ChannelError::NotifyFailed) => exists|n: int|
            {
                &&& 0 < n <= buf.len()
                &&& buf_after.skip(n) == buf.skip(n)
                &&& received_after == received + #[trigger] buf_after.take(n)
            },
        Err(_) => false,
    }
}

/// What a call may have handed to the setter of the other half, given its
/// answer: `woke` is all that was handed over before the call, `woke_after`
/// all that was behind it.
///
/// A call raises at most once, and only the readiness `wake`. A call that
/// moved no byte raised nothing. A call that reports a failed wake-up did
/// hand the wake-up over.
pub open spec fn wake_allows(
    wake: Wake,
    reply: Result<usize, ChannelError>,
    woke: Seq<Wake>,
    woke_after: Seq<Wake>,
) -> bool {
    match reply {
        Ok(n) => if n == 0 {
            woke_after == woke
        } else {
            woke_after == woke || woke_after == woke.push(wake)
        },
        Err(ChannelError::NotifyFailed) => woke_after == woke.push(wake),
        Err(_) => woke_after == woke,
    }
}

pub fn capacity_is_valid(capacity: usize) -> (ok: bool)
    ensures
        ok == valid_capacity(capacity as int),
{
    1 <= capacity && capacity <= MAX_CAPACITY
}

pub fn refuse_write(latched: bool, peer_open: bool) -> (refused: bool)
    ensures
        refused == write_is_refused(latched, peer_open),
{
    latched || !peer_open
}

pub fn settle_write(was_empty: bool, outcome: Result<usize, RingFault>) -> (verdict: Verdict)
    ensures
        verdict == write_verdict(was_empty, outcome),
{
    match outcome {
        Ok(n) => Verdict { reply: Ok(n), wake_peer: n > 0 && was_empty },
        Err(_) => Verdict { reply: Err(ChannelError::RingFull), wake_peer: false },
    }
}

pub fn settle_read(peer_open: bool, was_full: bool, outcome: Result<usize, RingFault>) -> (verdict:
    Verdict)
    ensures
        verdict == read_verdict(peer_open, was_full, outcome),
{
    match outcome {
        Ok(n) => Verdict { reply: Ok(n), wake_peer: n > 0 && was_full },
        Err(_) => {
            let reason = if peer_open {
                ChannelError::RingEmpty
            } else {
                ChannelError::ProducerClosed
            };
            Verdict { reply: Err(reason), wake_peer: false }
        },
    }
}

pub fn conclude(verdict: Verdict, notified: bool) -> (reply: Result<usize, ChannelError>)
    ensures
        reply == final_reply(verdict, notified),
{
    if verdict.wake_peer && !notified {
        Err(ChannelError::NotifyFailed)
    } else {
        verdict.reply
    }
}

} // verus!
