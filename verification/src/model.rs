//! The channel as one thread sees it.
//!
//! The halves of a real channel run on two threads, and neither can know what
//! the other does between two of its own calls. This module describes the
//! channel for the case where the calls of both halves happen one after the
//! other: a bounded queue of bytes, two liveness marks and two readiness
//! flags. Each step puts the queue's answer through the verdicts of
//! [`protocol`](crate::protocol), which are the verdicts the halves run, so
//! what is proved here is proved of the decisions the halves take.
//!
//! Two things are taken for granted in this picture: the ring moves bytes
//! first in, first out, as many at a time as it has slots or bytes for, and
//! every wake-up goes through. The model is ghost: nothing in it is compiled.

use vstd::prelude::*;
use crate::error::{ChannelError, ErrorKind};
use crate::protocol::{
    final_reply, read_allows, read_verdict, valid_capacity, write_allows, write_is_refused,
    write_verdict, RingFault,
};

verus! {

/// A channel between two calls.
pub struct Channel {
    /// The number of bytes the ring can hold.
    pub capacity: nat,
    /// The bytes in the ring, oldest first.
    pub queue: Seq<u8>,
    /// Every byte the producer has put in, oldest first.
    pub sent: Seq<u8>,
    /// Every byte the consumer has taken out, oldest first.
    pub received: Seq<u8>,
    /// Whether the producer has been dropped.
    pub producer_gone: bool,
    /// Whether the consumer has been dropped.
    pub consumer_gone: bool,
    /// Whether the consumer's registration has readiness that no poll has
    /// picked up yet.
    pub reader_ready: bool,
    /// Whether the producer's registration has readiness that no poll has
    /// picked up yet.
    pub writer_ready: bool,
}

/// A write: the channel after it and the answer to the caller.
pub struct WriteStep {
    pub next: Channel,
    pub reply: Result<usize, ChannelError>,
}

/// A read: the channel after it, the answer to the caller, and the caller's
/// buffer as the read leaves it.
pub struct ReadStep {
    pub next: Channel,
    pub reply: Result<usize, ChannelError>,
    pub buf: Seq<u8>,
}

/// The number of bytes the ring moved.
pub open spec fn moved(outcome: Result<usize, RingFault>) -> int {
    match outcome {
        Ok(n) => n as int,
        Err(_) => 0,
    }
}

impl Channel {
    /// The channel that `create` makes: empty, both halves there, nothing
    /// raised.
    pub open spec fn fresh(capacity: nat) -> Channel {
        Channel {
            capacity,
            queue: Seq::empty(),
            sent: Seq::empty(),
            received: Seq::empty(),
            producer_gone: false,
            consumer_gone: false,
            reader_ready: false,
            writer_ready: false,
        }
    }

    /// What holds of a channel at all times: the ring never holds more than
    /// its capacity, and what was sent is what was received followed by what
    /// is still in the ring.
    pub open spec fn wf(self) -> bool {
        &&& valid_capacity(self.capacity as int)
        &&& self.queue.len() <= self.capacity
        &&& self.received + self.queue == self.sent
    }

    pub open spec fn is_empty(self) -> bool {
        self.queue.len() == 0
    }

    pub open spec fn is_full(self) -> bool {
        self.queue.len() >= self.capacity
    }

    /// The number of free slots.
    pub open spec fn free(self) -> nat {
        (self.capacity - self.queue.len()) as nat
    }

    /// What the ring answers when offered `data`: nothing to do for no
    /// bytes, a refusal when it is full, and otherwise as many bytes as it has
    /// free slots for.
    pub open spec fn ring_takes(self, data: Seq<u8>) -> Result<usize, RingFault> {
        if data.len() == 0 {
            Ok(0usize)
        } else if self.is_full() {
            Err(RingFault::Full)
        } else if data.len() <= self.free() {
            Ok(data.len() as usize)
        } else {
            Ok(self.free() as usize)
        }
    }

    /// What the ring answers when offered `room` slots of a buffer: nothing
    /// to do for no room, a refusal when it is empty, and otherwise as many
    /// bytes as it holds and the room admits.
    pub open spec fn ring_gives(self, room: nat) -> Result<usize, RingFault> {
        if room == 0 {
            Ok(0usize)
        } else if self.is_empty() {
            Err(RingFault::Empty)
        } else if room <= self.queue.len() {
            Ok(room as usize)
        } else {
            Ok(self.queue.len() as usize)
        }
    }

    /// The producer writes `data`. The flag reads "both halves are there" as
    /// long as the consumer is, and whether the write is refused as closed is
    /// decided as the producer decides it.
    pub open spec fn write(self, data: Seq<u8>) -> WriteStep {
        if write_is_refused(false, !self.consumer_gone) {
            WriteStep { next: self, reply: Err(ChannelError::ConsumerClosed) }
        } else {
            let outcome = self.ring_takes(data);
            let verdict = write_verdict(self.is_empty(), outcome);
            let taken = data.take(moved(outcome));
            WriteStep {
                next: Channel {
                    queue: self.queue + taken,
                    sent: self.sent + taken,
                    reader_ready: self.reader_ready || verdict.wake_peer,
                    ..self
                },
                reply: final_reply(verdict, true),
            }
        }
    }

    /// The consumer reads into `buf`.
    pub open spec fn read(self, buf: Seq<u8>) -> ReadStep {
        let outcome = self.ring_gives(buf.len());
        let verdict = read_verdict(!self.producer_gone, self.is_full(), outcome);
        let given = self.queue.take(moved(outcome));
        ReadStep {
            next: Channel {
                queue: self.queue.skip(moved(outcome)),
                received: self.received + given,
                writer_ready: self.writer_ready || verdict.wake_peer,
                ..self
            },
            reply: final_reply(verdict, true),
            buf: given + buf.skip(moved(outcome)),
        }
    }

    /// The producer is dropped: the channel is marked and the consumer woken,
    /// whatever the ring holds.
    pub open spec fn drop_producer(self) -> Channel {
        Channel { producer_gone: true, reader_ready: true, ..self }
    }

    /// The consumer is dropped: the channel is marked and the producer woken,
    /// whatever the ring holds.
    pub open spec fn drop_consumer(self) -> Channel {
        Channel { consumer_gone: true, writer_ready: true, ..self }
    }

    /// The consumer's poll loop picks up the readiness of its registration.
    pub open spec fn poll_reader(self) -> Channel {
        Channel { reader_ready: false, ..self }
    }

    /// The producer's poll loop picks up the readiness of its registration.
    pub open spec fn poll_writer(self) -> Channel {
        Channel { writer_ready: false, ..self }
    }
}

/// A new channel of a valid capacity is well-formed, empty, and has both
/// halves.
pub proof fn lemma_fresh_channel(capacity: nat)
    requires
        valid_capacity(capacity as int),
    ensures
        Channel::fresh(capacity).wf(),
        Channel::fresh(capacity).capacity == capacity,
        Channel::fresh(capacity).is_empty(),
        !Channel::fresh(capacity).producer_gone,
        !Channel::fresh(capacity).consumer_gone,
{
    assert(Seq::<u8>::empty() + Seq::<u8>::empty() =~= Seq::<u8>::empty());
}

/// No step takes a channel out of its bounds, changes its capacity, or
/// brings a dropped half back.
pub proof fn lemma_steps_keep_channel(ch: Channel, data: Seq<u8>, buf: Seq<u8>)
    requires
        ch.wf(),
    ensures
        ch.write(data).next.wf(),
        ch.read(buf).next.wf(),
        ch.drop_producer().wf(),
        ch.drop_consumer().wf(),
        ch.poll_reader().wf(),
        ch.poll_writer().wf(),
        ch.write(data).next.capacity == ch.capacity,
        ch.read(buf).next.capacity == ch.capacity,
        ch.drop_producer().capacity == ch.capacity,
        ch.drop_consumer().capacity == ch.capacity,
        ch.poll_reader().capacity == ch.capacity,
        ch.poll_writer().capacity == ch.capacity,
        ch.producer_gone ==> {
            &&& ch.write(data).next.producer_gone
            &&& ch.read(buf).next.producer_gone
            &&& ch.drop_consumer().producer_gone
            &&& ch.poll_reader().producer_gone
            &&& ch.poll_writer().producer_gone
        },
        ch.consumer_gone ==> {
            &&& ch.write(data).next.consumer_gone
            &&& ch.read(buf).next.consumer_gone
            &&& ch.drop_producer().consumer_gone
            &&& ch.poll_reader().consumer_gone
            &&& ch.poll_writer().consumer_gone
        },
{
    lemma_write_step(ch, data);
    lemma_read_step(ch, buf);
}

/// A write moves a leading part of `data` to the back of the ring, and no
/// more than fits. It fails only when the consumer is gone or when there are
/// bytes to write and no slot to put one in; otherwise it takes as many bytes
/// as there are slots for.
pub proof fn lemma_write_step(ch: Channel, data: Seq<u8>)
    requires
        ch.wf(),
    ensures
        ch.write(data).next.wf(),
        ch.write(data).next.capacity == ch.capacity,
        ch.write(data).next.received == ch.received,
        ch.write(data).next.producer_gone == ch.producer_gone,
        ch.write(data).next.consumer_gone == ch.consumer_gone,
        ch.write(data).next.writer_ready == ch.writer_ready,
        match ch.write(data).reply {
            Ok(n) => {
                &&& !ch.consumer_gone
                &&& n == if data.len() <= ch.free() {
                    data.len()
                } else {
                    ch.free()
                }
                &&& ch.write(data).next.queue == ch.queue + data.take(n as int)
                &&& ch.write(data).next.sent == ch.sent + data.take(n as int)
            },
            Err(e) => {
                &&& ch.write(data).next == ch
                &&& e == if ch.consumer_gone {
                    ChannelError::ConsumerClosed
                } else {
                    ChannelError::RingFull
                }
                &&& !ch.consumer_gone ==> ch.is_full() && data.len() > 0
            },
        },
{
    let step = ch.write(data);
    if !ch.consumer_gone {
        let outcome = ch.ring_takes(data);
        let taken = data.take(moved(outcome));
        assert(ch.received + (ch.queue + taken) =~= (ch.received + ch.queue) + taken);
        if outcome is Err {
            assert(taken =~= Seq::<u8>::empty());
            assert(ch.queue + taken =~= ch.queue);
            assert(ch.sent + taken =~= ch.sent);
        }
    }
}

/// A read moves the oldest bytes of the ring to the front of `buf`, as many
/// as the ring holds and `buf` has room for, and leaves the rest of `buf`
/// alone. It fails only when there is room and no byte to put in it: with
/// `RingEmpty` while the producer is there, with `ProducerClosed` once it is
/// gone.
pub proof fn lemma_read_step(ch: Channel, buf: Seq<u8>)
    requires
        ch.wf(),
    ensures
        ch.read(buf).next.wf(),
        ch.read(buf).next.capacity == ch.capacity,
        ch.read(buf).next.sent == ch.sent,
        ch.read(buf).next.producer_gone == ch.producer_gone,
        ch.read(buf).next.consumer_gone == ch.consumer_gone,
        ch.read(buf).next.reader_ready == ch.reader_ready,
        ch.read(buf).buf.len() == buf.len(),
        match ch.read(buf).reply {
            Ok(n) => {
                &&& n == if buf.len() <= ch.queue.len() {
                    buf.len()
                } else {
                    ch.queue.len()
                }
                &&& ch.read(buf).buf == ch.queue.take(n as int) + buf.skip(n as int)
                &&& ch.read(buf).next.queue == ch.queue.skip(n as int)
                &&& ch.read(buf).next.received == ch.received + ch.queue.take(n as int)
            },
            Err(e) => {
                &&& ch.read(buf).next == ch
                &&& ch.read(buf).buf == buf
                &&& ch.is_empty()
                &&& buf.len() > 0
                &&& e == if ch.producer_gone {
                    ChannelError::ProducerClosed
                } else {
                    ChannelError::RingEmpty
                }
            },
        },
{
    let step = ch.read(buf);
    let outcome = ch.ring_gives(buf.len());
    let n = moved(outcome);
    let given = ch.queue.take(n);
    assert(given + ch.queue.skip(n) =~= ch.queue);
    assert((ch.received + given) + ch.queue.skip(n) =~= ch.received + ch.queue);
    if outcome is Err {
        assert(given =~= Seq::<u8>::empty());
        assert(ch.queue.skip(0) =~= ch.queue);
        assert(ch.received + given =~= ch.received);
        assert(given + buf.skip(0) =~= buf);
    }
}

/// A write on the channel answers and acts as the contract of
/// `Producer::write` allows: the single-threaded picture is one of the
/// behaviours that the halves promise.
pub proof fn lemma_write_step_is_allowed(ch: Channel, data: Seq<u8>)
    requires
        ch.wf(),
    ensures
        write_allows(data, ch.sent, ch.write(data).reply, ch.write(data).next.sent),
{
    lemma_write_step(ch, data);
}

/// A read on the channel answers and acts as the contract of
/// `Consumer::read` allows.
pub proof fn lemma_read_step_is_allowed(ch: Channel, buf: Seq<u8>)
    requires
        ch.wf(),
    ensures
        read_allows(
            buf,
            ch.received,
            ch.read(buf).reply,
            ch.read(buf).buf,
            ch.read(buf).next.received,
        ),
{
    lemma_read_step(ch, buf);
    let done = ch.read(buf);
    if let Ok(n) = done.reply {
        let given = ch.queue.take(n as int);
        assert(done.buf.skip(n as int) =~= buf.skip(n as int));
        assert(done.buf.take(n as int) =~= given);
    }
}

/// Writing to a full ring while the consumer is there is refused as
/// something to wait for: no byte is taken, nobody is woken, and the channel
/// is left as it was.
pub proof fn lemma_full_ring_refuses_write(ch: Channel, data: Seq<u8>)
    requires
        ch.wf(),
        !ch.consumer_gone,
        ch.is_full(),
        data.len() > 0,
    ensures
        ch.write(data).reply == Err::<usize, ChannelError>(ChannelError::RingFull),
        ChannelError::RingFull.kind_of() == ErrorKind::WouldBlock,
        ch.write(data).next == ch,
{
    lemma_write_step(ch, data);
}

/// Reading from an empty ring while the producer is there is refused as
/// something to wait for: no byte is handed out, nobody is woken, and the
/// channel and the buffer are left as they were.
pub proof fn lemma_empty_ring_refuses_read(ch: Channel, buf: Seq<u8>)
    requires
        ch.wf(),
        !ch.producer_gone,
        ch.is_empty(),
        buf.len() > 0,
    ensures
        ch.read(buf).reply == Err::<usize, ChannelError>(ChannelError::RingEmpty),
        ChannelError::RingEmpty.kind_of() == ErrorKind::WouldBlock,
        ch.read(buf).next == ch,
        ch.read(buf).buf == buf,
{
    lemma_read_step(ch, buf);
}

/// Once the consumer is dropped, every write is refused with
/// `ConsumerClosed` and leaves the channel as it was, so the next write meets
/// the same channel and gets the same answer.
pub proof fn lemma_writes_after_consumer_left(ch: Channel, data: Seq<u8>)
    requires
        ch.wf(),
    ensures
        ch.drop_consumer().wf(),
        ch.drop_consumer().write(data).reply == Err::<usize, ChannelError>(
            ChannelError::ConsumerClosed,
        ),
        ChannelError::ConsumerClosed.kind_of() == ErrorKind::PeerClosed,
        ch.drop_consumer().write(data).next == ch.drop_consumer(),
{
}

/// Once the producer is dropped, what it wrote before stays readable: a read
/// with room succeeds as long as the ring holds a byte, and hands out the
/// oldest bytes. Only when the ring is drained is the read refused, with
/// `ProducerClosed`, and it then leaves the channel and the buffer as they
/// were, so the next read meets the same channel and gets the same answer.
pub proof fn lemma_reads_after_producer_left(ch: Channel, buf: Seq<u8>)
    requires
        ch.wf(),
        buf.len() > 0,
    ensures
        ch.drop_producer().wf(),
        ch.drop_producer().queue == ch.queue,
        !ch.is_empty() ==> {
            &&& ch.drop_producer().read(buf).reply matches Ok(n)
            &&& 0 < n <= buf.len()
            &&& ch.drop_producer().read(buf).buf.take(n as int) == ch.queue.take(n as int)
        },
        ch.is_empty() ==> {
            &&& ch.drop_producer().read(buf).reply == Err::<usize, ChannelError>(
                ChannelError::ProducerClosed,
            )
            &&& ch.drop_producer().read(buf).next == ch.drop_producer()
            &&& ch.drop_producer().read(buf).buf == buf
        },
        ChannelError::ProducerClosed.kind_of() == ErrorKind::PeerClosed,
{
    let gone = ch.drop_producer();
    lemma_read_step(gone, buf);
    if !ch.is_empty() {
        let n = moved(gone.ring_gives(buf.len()));
        assert((ch.queue.take(n) + buf.skip(n)).take(n) =~= ch.queue.take(n));
    }
}

/// What fits into a new channel comes out as it went in: a write of no more
/// bytes than the capacity takes them all, and a read into a buffer of the
/// same length returns exactly these bytes and leaves the ring empty.
pub proof fn lemma_round_trip(capacity: nat, s: Seq<u8>, buf: Seq<u8>)
    requires
        valid_capacity(capacity as int),
        s.len() <= capacity,
        buf.len() == s.len(),
    ensures
        Channel::fresh(capacity).write(s).reply == Ok::<usize, ChannelError>(s.len() as usize),
        Channel::fresh(capacity).write(s).next.read(buf).reply == Ok::<usize, ChannelError>(
            s.len() as usize,
        ),
        Channel::fresh(capacity).write(s).next.read(buf).buf == s,
        Channel::fresh(capacity).write(s).next.read(buf).next.is_empty(),
        Channel::fresh(capacity).write(s).next.read(buf).next.received == s,
{
    let start = Channel::fresh(capacity);
    lemma_fresh_channel(capacity);
    lemma_write_step(start, s);
    let filled = start.write(s).next;
    assert(s.take(s.len() as int) =~= s);
    assert(filled.queue =~= s);
    lemma_read_step(filled, buf);
    let drained = filled.read(buf);
    assert(buf.skip(s.len() as int) =~= Seq::<u8>::empty());
    assert(drained.buf =~= s);
    assert(drained.next.received =~= s);
}

/// A write wakes the consumer exactly when it makes an empty ring non-empty.
/// Readiness that was raised before stays raised.
pub proof fn lemma_write_wakes_on_first_bytes(ch: Channel, data: Seq<u8>)
    requires
        ch.wf(),
    ensures
        ch.write(data).next.reader_ready <==> ch.reader_ready || (ch.is_empty() && !ch.write(
            data,
        ).next.is_empty()),
{
    lemma_write_step(ch, data);
}

/// A read wakes the producer exactly when it makes a full ring non-full.
/// Readiness that was raised before stays raised.
pub proof fn lemma_read_wakes_on_first_room(ch: Channel, buf: Seq<u8>)
    requires
        ch.wf(),
    ensures
        ch.read(buf).next.writer_ready <==> ch.writer_ready || (ch.is_full() && !ch.read(
            buf,
        ).next.is_full()),
{
    lemma_read_step(ch, buf);
}

/// Dropping a half wakes the other one, whatever the ring holds, and changes
/// nothing else but the liveness mark.
pub proof fn lemma_drop_wakes_peer(ch: Channel)
    ensures
        ch.drop_producer().reader_ready,
        ch.drop_producer().producer_gone,
        ch.drop_producer() == (Channel { producer_gone: true, reader_ready: true, ..ch }),
        ch.drop_consumer().writer_ready,
        ch.drop_consumer().consumer_gone,
        ch.drop_consumer() == (Channel { consumer_gone: true, writer_ready: true, ..ch }),
{
}

} // verus!
