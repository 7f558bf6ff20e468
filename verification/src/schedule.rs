//! Whole transfers: any sequence of calls on the two halves.
//!
//! A schedule is a list of calls in the order in which they happen. The
//! producer works its way through a byte sequence: each of its writes offers
//! the next bytes not yet accepted, as many as the schedule says, so a write
//! that was refused or cut short is followed up by the next one. The consumer
//! reads with whatever room the schedule says. Either half may be dropped at
//! any point, and either poll loop may pick up readiness at any point.
//!
//! Beside the channel a run keeps track of which half is parked: a half that
//! was told to wait and has not been woken since.

use vstd::prelude::*;
use crate::error::ChannelError;
use crate::model::{lemma_fresh_channel, lemma_read_step, lemma_write_step, Channel};
use crate::protocol::valid_capacity;

verus! {

/// One call on a channel.
pub enum Op {
    /// The producer offers the next `chunk` bytes of its sequence, or what is
    /// left of it.
    Write { chunk: nat },
    /// The consumer reads into a buffer of `room` bytes.
    Read { room: nat },
    DropProducer,
    DropConsumer,
    /// The consumer's poll loop returns, if there is readiness to report.
    PollReader,
    /// The producer's poll loop returns, if there is readiness to report.
    PollWriter,
}

/// A channel in the middle of a schedule.
pub struct Run {
    pub channel: Channel,
    /// The consumer's last read was refused with `RingEmpty`, and its poll
    /// loop has reported nothing since.
    pub reader_parked: bool,
    /// The producer's last write was refused with `RingFull`, and its poll
    /// loop has reported nothing since.
    pub writer_parked: bool,
}

/// A buffer of `room` bytes, as a caller hands it to a read.
pub open spec fn blank(room: nat) -> Seq<u8> {
    Seq::new(room, |i: int| 0u8)
}

/// The bytes the producer offers next: those of `s` behind the `done` bytes
/// already accepted, `chunk` of them at most.
pub open spec fn next_chunk(s: Seq<u8>, done: nat, chunk: nat) -> Seq<u8> {
    if done >= s.len() {
        Seq::empty()
    } else if done + chunk >= s.len() {
        s.skip(done as int)
    } else {
        s.subrange(done as int, (done + chunk) as int)
    }
}

impl Run {
    /// The start of every schedule: a new channel, nobody parked.
    pub open spec fn start(capacity: nat) -> Run {
        Run { channel: Channel::fresh(capacity), reader_parked: false, writer_parked: false }
    }

    /// The run after one more call. A call on a half that has been dropped
    /// cannot happen and changes nothing; so does dropping a half twice.
    pub open spec fn step(self, s: Seq<u8>, op: Op) -> Run {
        let ch = self.channel;
        match op {
            Op::Write { chunk } => {
                if ch.producer_gone {
                    self
                } else {
                    let done = ch.write(next_chunk(s, ch.sent.len(), chunk));
                    Run {
                        channel: done.next,
                        writer_parked: self.writer_parked || done.reply == Err::<
                            usize,
                            ChannelError,
                        >(ChannelError::RingFull),
                        ..self
                    }
                }
            },
            Op::Read { room } => {
                if ch.consumer_gone {
                    self
                } else {
                    let done = ch.read(blank(room));
                    Run {
                        channel: done.next,
                        reader_parked: self.reader_parked || done.reply == Err::<
                            usize,
                            ChannelError,
                        >(ChannelError::RingEmpty),
                        ..self
                    }
                }
            },
            Op::DropProducer => {
                if ch.producer_gone {
                    self
                } else {
                    Run { channel: ch.drop_producer(), ..self }
                }
            },
            Op::DropConsumer => {
                if ch.consumer_gone {
                    self
                } else {
                    Run { channel: ch.drop_consumer(), ..self }
                }
            },
            Op::PollReader => {
                if ch.reader_ready {
                    Run { channel: ch.poll_reader(), reader_parked: false, ..self }
                } else {
                    self
                }
            },
            Op::PollWriter => {
                if ch.writer_ready {
                    Run { channel: ch.poll_writer(), writer_parked: false, ..self }
                } else {
                    self
                }
            },
        }
    }

    /// Nothing was lost, doubled or moved out of order so far: what the
    /// producer got into the ring is a leading part of `s`, and what the
    /// consumer got out is a leading part of that.
    pub open spec fn faithful_to(self, s: Seq<u8>) -> bool {
        &&& self.channel.wf()
        &&& self.channel.sent.len() <= s.len()
        &&& self.channel.sent == s.take(self.channel.sent.len() as int)
        &&& self.channel.received.len() <= self.channel.sent.len()
        &&& self.channel.received == s.take(self.channel.received.len() as int)
    }

    /// No wake-up is owed: a parked consumer whose ring has bytes, or whose
    /// producer is gone, has readiness waiting for it; a parked producer
    /// whose ring has room, or whose consumer is gone, has too.
    pub open spec fn nobody_stranded(self) -> bool {
        let ch = self.channel;
        &&& self.reader_parked && !ch.consumer_gone && (!ch.is_empty() || ch.producer_gone)
            ==> ch.reader_ready
        &&& self.writer_parked && !ch.producer_gone && (!ch.is_full() || ch.consumer_gone)
            ==> ch.writer_ready
    }
}

/// The run that a schedule leads to on a new channel of the given capacity,
/// with the producer working through `s`.
pub open spec fn play(capacity: nat, s: Seq<u8>, ops: Seq<Op>) -> Run
    decreases ops.len(),
{
    if ops.len() == 0 {
        Run::start(capacity)
    } else {
        play(capacity, s, ops.drop_last()).step(s, ops.last())
    }
}

/// The run after `rounds` rounds of "write all that is left, then read all
/// that the ring can hold".
pub open spec fn pump(run: Run, s: Seq<u8>, rounds: nat) -> Run
    decreases rounds,
{
    if rounds == 0 {
        run
    } else {
        pump(
            run.step(s, Op::Write { chunk: s.len() }).step(s, Op::Read { room: run.channel.capacity }),
            s,
            (rounds - 1) as nat,
        )
    }
}

/// One call keeps a transfer faithful, whatever the call is.
pub proof fn lemma_step_keeps_faithful(run: Run, s: Seq<u8>, op: Op)
    requires
        run.faithful_to(s),
    ensures
        run.step(s, op).faithful_to(s),
        run.step(s, op).channel.capacity == run.channel.capacity,
        run.step(s, op).channel.sent.len() >= run.channel.sent.len(),
        run.step(s, op).channel.received.len() >= run.channel.received.len(),
{
    let ch = run.channel;
    match op {
        Op::Write { chunk } => {
            if !ch.producer_gone {
                let offer = next_chunk(s, ch.sent.len(), chunk);
                lemma_write_step(ch, offer);
                let done = ch.write(offer);
                if let Ok(n) = done.reply {
                    let from = ch.sent.len() as int;
                    assert(n <= offer.len());
                    assert(from + n <= s.len());
                    assert(ch.sent + offer.take(n as int) =~= s.take(from + n));
                }
            }
        },
        Op::Read { room } => {
            if !ch.consumer_gone {
                let buf = blank(room);
                lemma_read_step(ch, buf);
                let done = ch.read(buf);
                if let Ok(n) = done.reply {
                    let from = ch.received.len() as int;
                    assert(ch.sent.len() == from + ch.queue.len());
                    assert forall|i: int| 0 <= i < n implies ch.queue.take(n as int)[i] == s[from
                        + i] by {
                        assert(ch.queue[i] == (ch.received + ch.queue)[from + i]);
                        assert(ch.sent[from + i] == s[from + i]);
                    }
                    assert(ch.received + ch.queue.take(n as int) =~= s.take(from + n));
                }
            }
        },
        Op::DropProducer => {},
        Op::DropConsumer => {},
        Op::PollReader => {},
        Op::PollWriter => {},
    }
}

/// One call leaves nobody stranded, whatever the call is: a half that is
/// parked when there is something for it to do has its wake-up waiting.
pub proof fn lemma_step_strands_nobody(run: Run, s: Seq<u8>, op: Op)
    requires
        run.channel.wf(),
        run.nobody_stranded(),
    ensures
        run.step(s, op).nobody_stranded(),
{
    let ch = run.channel;
    match op {
        Op::Write { chunk } => {
            if !ch.producer_gone {
                lemma_write_step(ch, next_chunk(s, ch.sent.len(), chunk));
            }
        },
        Op::Read { room } => {
            if !ch.consumer_gone {
                lemma_read_step(ch, blank(room));
            }
        },
        Op::DropProducer => {},
        Op::DropConsumer => {},
        Op::PollReader => {},
        Op::PollWriter => {},
    }
}

/// On a channel whose calls happen one after the other, whatever the
/// capacity, the byte sequence and the schedule: however the writes and reads
/// are split, however often they are refused and tried again, and whenever a
/// half is dropped, the bytes read are at every moment the leading bytes of
/// the sequence, in order, with none missing and none doubled. Once as many
/// bytes are read as the sequence has, they are the sequence.
pub proof fn lemma_transfer_is_faithful(capacity: nat, s: Seq<u8>, ops: Seq<Op>)
    requires
        valid_capacity(capacity as int),
    ensures
        play(capacity, s, ops).faithful_to(s),
        play(capacity, s, ops).channel.capacity == capacity,
        play(capacity, s, ops).channel.received.len() == s.len() ==> play(
            capacity,
            s,
            ops,
        ).channel.received == s,
    decreases ops.len(),
{
    if ops.len() == 0 {
        lemma_fresh_channel(capacity);
        assert(s.take(0) =~= Seq::<u8>::empty());
    } else {
        lemma_transfer_is_faithful(capacity, s, ops.drop_last());
        lemma_step_keeps_faithful(play(capacity, s, ops.drop_last()), s, ops.last());
    }
    assert(s.take(s.len() as int) =~= s);
}

/// On a channel whose calls happen one after the other, whatever the
/// capacity, the byte sequence and the schedule: no wake-up is ever lost. A
/// consumer that was told to wait finds readiness on its registration as soon
/// as the ring has bytes or the producer is gone, and a producer that was
/// told to wait finds it as soon as the ring has room or the consumer is
/// gone.
pub proof fn lemma_no_wakeup_is_lost(capacity: nat, s: Seq<u8>, ops: Seq<Op>)
    requires
        valid_capacity(capacity as int),
    ensures
        play(capacity, s, ops).nobody_stranded(),
    decreases ops.len(),
{
    if ops.len() > 0 {
        lemma_no_wakeup_is_lost(capacity, s, ops.drop_last());
        lemma_transfer_is_faithful(capacity, s, ops.drop_last());
        lemma_step_strands_nobody(play(capacity, s, ops.drop_last()), s, ops.last());
    }
}

/// A round of "write all that is left, then read all that the ring can
/// hold" on a drained channel leaves it drained and moves at least one more
/// byte of the sequence across, as long as one is left.
pub proof fn lemma_round_makes_progress(run: Run, s: Seq<u8>)
    requires
        run.faithful_to(s),
        run.channel.is_empty(),
        !run.channel.producer_gone,
        !run.channel.consumer_gone,
    ensures
        pump(run, s, 1).faithful_to(s),
        pump(run, s, 1).channel.is_empty(),
        !pump(run, s, 1).channel.producer_gone,
        !pump(run, s, 1).channel.consumer_gone,
        pump(run, s, 1).channel.capacity == run.channel.capacity,
        run.channel.received.len() < s.len() ==> pump(run, s, 1).channel.received.len()
            > run.channel.received.len(),
        run.channel.received.len() == s.len() ==> pump(run, s, 1).channel.received.len()
            == s.len(),
{
    let ch = run.channel;
    let write = Op::Write { chunk: s.len() };
    let read = Op::Read { room: ch.capacity };
    let offer = next_chunk(s, ch.sent.len(), s.len());
    assert(ch.received + ch.queue =~= ch.received);
    assert(offer.len() == s.len() - ch.sent.len());
    lemma_write_step(ch, offer);
    lemma_step_keeps_faithful(run, s, write);
    let written = run.step(s, write);
    lemma_read_step(written.channel, blank(ch.capacity));
    lemma_step_keeps_faithful(written, s, read);
    let read_back = written.step(s, read);
    assert(pump(run, s, 1) == pump(read_back, s, 0)) by {
        reveal_with_fuel(pump, 2);
    }
    let filled = written.channel;
    assert(filled.received + filled.queue == filled.sent);
    assert(filled.sent.len() == filled.received.len() + filled.queue.len());
}

/// Rounds of "write all that is left, then read all that the ring can hold"
/// on a drained channel deliver the sequence: after `rounds` rounds the
/// consumer has at least `rounds` more bytes, or all of them.
pub proof fn lemma_pump_makes_progress(run: Run, s: Seq<u8>, rounds: nat)
    requires
        run.faithful_to(s),
        run.channel.is_empty(),
        !run.channel.producer_gone,
        !run.channel.consumer_gone,
    ensures
        pump(run, s, rounds).faithful_to(s),
        pump(run, s, rounds).channel.is_empty(),
        pump(run, s, rounds).channel.capacity == run.channel.capacity,
        pump(run, s, rounds).channel.received.len() >= run.channel.received.len() + rounds
            || pump(run, s, rounds).channel.received.len() == s.len(),
    decreases rounds,
{
    if rounds > 0 {
        lemma_round_makes_progress(run, s);
        let after = pump(run, s, 1);
        assert(pump(run, s, 1) == run.step(s, Op::Write { chunk: s.len() }).step(
            s,
            Op::Read { room: run.channel.capacity },
        )) by {
            reveal_with_fuel(pump, 2);
        }
        lemma_pump_makes_progress(after, s, (rounds - 1) as nat);
    }
}

/// On a channel whose calls happen one after the other, whatever the
/// capacity and the byte sequence, also one longer than the capacity: writing
/// what is left and draining the ring, over and over, brings the whole
/// sequence across, unchanged. As many rounds as the sequence has bytes are
/// always enough.
pub proof fn lemma_write_drain_cycles_deliver(capacity: nat, s: Seq<u8>)
    requires
        valid_capacity(capacity as int),
    ensures
        pump(Run::start(capacity), s, s.len()).channel.received == s,
        pump(Run::start(capacity), s, s.len()).channel.sent == s,
        pump(Run::start(capacity), s, s.len()).channel.is_empty(),
{
    let start = Run::start(capacity);
    lemma_fresh_channel(capacity);
    assert(s.take(0) =~= Seq::<u8>::empty());
    lemma_pump_makes_progress(start, s, s.len());
    let end = pump(start, s, s.len()).channel;
    assert(s.take(s.len() as int) =~= s);
    assert(end.received + end.queue =~= end.received);
}

} // verus!
