//! The two halves of a channel and the function that makes them.
//!
//! Each half knows its own history: the bytes it has sent or received, and
//! the wake-ups it has raised. What the other half does in the meantime it
//! cannot know, so the contracts of `write` and `read` say what an answer
//! means for the half's own history, and the laws at the end of this file say
//! what the two histories have to do with each other.
//!
//! A half also keeps the history of what it has stored to the liveness flag.
//! Only a half that is dropped stores anything, and it stores `false`.

use vstd::prelude::*;
use std::sync::atomic::AtomicBool;
use std::sync::Arc;
use rb::Consumer as RingReader;
use rb::Producer as RingWriter;
use rb::SpscRb;
use crate::error::ChannelError;
use crate::protocol::{
    capacity_is_valid, conclude, final_reply, read_allows, refuse_write, settle_read,
    settle_write, valid_capacity, wake_allows, write_allows, Verdict, Wake,
};
use crate::ring::{
    accepted, delivered, drained, fed, ring_byte, ring_capacity, ring_is_empty, ring_is_full,
    ring_new, ring_read, ring_write,
};
use crate::signal::{
    full_fence, handed, made_with, mark_closed, new_flag, peer_is_open, raise, share, stored,
    target_of,
};

verus! {

/// The writing half of a channel.
pub struct Producer {
    /// What a poll loop registers to learn that the ring has room again.
    link: mio::Registration,
    /// Raises the readiness of the consumer's registration.
    wake_reader: mio::SetReadiness,
    ring: Arc<SpscRb<u8>>,
    writer: RingWriter<u8>,
    /// Reads `true` until one of the halves is dropped.
    open: Arc<AtomicBool>,
    /// Set once a write has found the consumer gone.
    peer_gone: bool,
}

/// The reading half of a channel.
pub struct Consumer {
    /// What a poll loop registers to learn that the ring has bytes again.
    link: mio::Registration,
    /// Raises the readiness of the producer's registration.
    wake_writer: mio::SetReadiness,
    ring: Arc<SpscRb<u8>>,
    reader: RingReader<u8>,
    /// Reads `true` until one of the halves is dropped.
    open: Arc<AtomicBool>,
    /// Set once a read has found the ring drained and the producer gone.
    peer_gone: bool,
}

/// Makes a channel that buffers up to `capacity` bytes.
///
/// The capacity has to be at least one and at most
/// [`MAX_CAPACITY`](crate::protocol::MAX_CAPACITY); any other is refused with
/// `InvalidCapacity` and nothing is built. Both halves start with empty
/// streams, and neither has seen the channel closed. They share one ring and
/// one liveness flag, made to read "both halves are there", and each raises
/// the readiness of the other's registration. Nothing has been raised yet
/// and nothing has been stored to the flag.
pub fn create(capacity: usize) -> (made: Result<(Producer, Consumer), ChannelError>)
    ensures
        made is Ok <==> valid_capacity(capacity as int),
        made matches Err(e) ==> e == ChannelError::InvalidCapacity,
        made matches Ok((producer, consumer)) ==> {
            &&& producer.wf()
            &&& consumer.wf()
            &&& producer.capacity() == capacity
            &&& consumer.capacity() == capacity
            &&& producer.sent() == Seq::<u8>::empty()
            &&& consumer.received() == Seq::<u8>::empty()
            &&& !producer.closed()
            &&& !consumer.closed()
            &&& producer.ring_of() == consumer.ring_of()
            &&& producer.flag_of() == consumer.flag_of()
            &&& made_with(producer.flag_of())
            &&& producer.wakes() == consumer.link_of()
            &&& consumer.wakes() == producer.link_of()
            &&& producer.woke() == Seq::<Wake>::empty()
            &&& consumer.woke() == Seq::<Wake>::empty()
            &&& producer.marks() == Seq::<bool>::empty()
            &&& consumer.marks() == Seq::<bool>::empty()
        },
{
    if !capacity_is_valid(capacity) {
        return Err(ChannelError::InvalidCapacity);
    }
    let open = new_flag();
    let (ring, writer, reader) = ring_new(capacity);
    let ring = Arc::new(ring);
    let (producer_link, wake_writer) = mio::Registration::new2();
    let (consumer_link, wake_reader) = mio::Registration::new2();
    let producer = Producer {
        link: producer_link,
        wake_reader,
        ring: share(&ring),
        writer,
        open: share(&open),
        peer_gone: false,
    };
    let consumer = Consumer {
        link: consumer_link,
        wake_writer,
        ring,
        reader,
        open,
        peer_gone: false,
    };
    assert(producer.woke() =~= Seq::<Wake>::empty());
    assert(consumer.woke() =~= Seq::<Wake>::empty());
    Ok((producer, consumer))
}

impl Producer {
    /// What holds of every producer that `create` has made, whatever was
    /// done with it since: the ring it looks at is the ring its handle writes
    /// to, the bytes it has sent are, in order, the first bytes that went
    /// into this ring, and it has stored nothing to the liveness flag but
    /// `false`.
    pub closed spec fn wf(&self) -> bool {
        &&& *self.ring == fed(self.writer)
        &&& forall|i: int|
            0 <= i < accepted(self.writer).len() ==> accepted(self.writer)[i]
                == #[trigger] ring_byte(fed(self.writer), i)
        &&& forall|i: int| 0 <= i < stored(*self.open).len() ==> !#[trigger] stored(*self.open)[i]
    }

    /// Every byte this half has put into the ring so far, oldest first.
    pub closed spec fn sent(&self) -> Seq<u8> {
        accepted(self.writer)
    }

    /// The number of bytes the channel can buffer.
    pub open spec fn capacity(&self) -> nat {
        ring_capacity(self.ring_of())
    }

    /// Whether a write of this half has already found the consumer gone.
    pub closed spec fn closed(&self) -> bool {
        self.peer_gone
    }

    /// The registration of this half.
    pub closed spec fn link_of(&self) -> mio::Registration {
        self.link
    }

    /// The registration whose readiness this half raises.
    pub closed spec fn wakes(&self) -> mio::Registration {
        target_of(self.wake_reader)
    }

    /// Every wake-up this half has raised so far, oldest first.
    pub closed spec fn woke(&self) -> Seq<Wake> {
        handed(self.wake_reader)
    }

    /// The ring this half writes to.
    pub closed spec fn ring_of(&self) -> SpscRb<u8> {
        fed(self.writer)
    }

    /// The liveness flag as this half holds it.
    pub closed spec fn flag_of(&self) -> AtomicBool {
        *self.open
    }

    /// Every value this half has stored to the liveness flag, oldest first.
    pub closed spec fn marks(&self) -> Seq<bool> {
        stored(*self.open)
    }

    /// Puts as many leading bytes of `buf` into the ring as fit, and returns
    /// their number.
    ///
    /// Once the consumer is gone every write is refused with `ConsumerClosed`,
    /// an empty one too, and the half remembers it: after one such answer no
    /// other answer follows. While the consumer is there, an empty `buf` gives
    /// `Ok(0)`; a non-empty one gives the number of bytes taken, at least one,
    /// or `RingFull` when there is no free slot. A refused write changes
    /// nothing.
    ///
    /// When the write puts the first bytes into an empty ring, the consumer's
    /// readiness is raised after the bytes are in place. Should that fail,
    /// the bytes stay in the ring and the call reports `NotifyFailed`. A write
    /// that moved no byte raises nothing, and no write raises more than once
    /// or anything but `Readable`. Whether a write that moved bytes raises is
    /// decided by [`settle_write`] and done by [`wake_if_asked`].
    ///
    /// No write takes more bytes than the ring can hold, and no write stores
    /// anything to the liveness flag.
    pub fn write(&mut self, buf: &[u8]) -> (reply: Result<usize, ChannelError>)
        ensures
            old(self).wf() ==> final(self).wf(),
            write_allows(buf@, old(self).sent(), reply, final(self).sent()),
            wake_allows(Wake::Readable, reply, old(self).woke(), final(self).woke()),
            final(self).sent().len() <= old(self).sent().len() + final(self).capacity(),
            final(self).marks() == old(self).marks(),
            old(self).closed() ==> reply == Err::<usize, ChannelError>(ChannelError::ConsumerClosed),
            final(self).closed() <==> reply == Err::<usize, ChannelError>(
                ChannelError::ConsumerClosed,
            ),
            final(self).ring_of() == old(self).ring_of(),
            final(self).flag_of() == old(self).flag_of(),
            final(self).link_of() == old(self).link_of(),
            final(self).wakes() == old(self).wakes(),
    {
        let peer_open = peer_is_open(&self.open);
        if refuse_write(self.peer_gone, peer_open) {
            self.peer_gone = true;
            return Err(ChannelError::ConsumerClosed);
        }
        let was_empty = ring_is_empty(&self.ring);
        let outcome = ring_write(&mut self.writer, buf);
        let verdict = settle_write(was_empty, outcome);
        wake_if_asked(&mut self.wake_reader, verdict, Wake::Readable)
    }

    /// What a poll loop registers to be told when the ring has room again.
    pub fn registration(&self) -> (link: &mio::Registration)
        ensures
            *link == self.link_of(),
    {
        &self.link
    }
}

impl Consumer {
    /// What holds of every consumer that `create` has made, whatever was
    /// done with it since: the ring it looks at is the ring its handle reads
    /// from, the bytes it has received are, in order, the first bytes that
    /// went into this ring, and it has stored nothing to the liveness flag
    /// but `false`.
    pub closed spec fn wf(&self) -> bool {
        &&& *self.ring == drained(self.reader)
        &&& forall|i: int|
            0 <= i < delivered(self.reader).len() ==> delivered(self.reader)[i]
                == #[trigger] ring_byte(drained(self.reader), i)
        &&& forall|i: int| 0 <= i < stored(*self.open).len() ==> !#[trigger] stored(*self.open)[i]
    }

    /// Every byte this half has taken out of the ring so far, oldest first.
    pub closed spec fn received(&self) -> Seq<u8> {
        delivered(self.reader)
    }

    /// The number of bytes the channel can buffer.
    pub open spec fn capacity(&self) -> nat {
        ring_capacity(self.ring_of())
    }

    /// Whether a read of this half has already found the ring drained and the
    /// producer gone.
    pub closed spec fn closed(&self) -> bool {
        self.peer_gone
    }

    /// The registration of this half.
    pub closed spec fn link_of(&self) -> mio::Registration {
        self.link
    }

    /// The registration whose readiness this half raises.
    pub closed spec fn wakes(&self) -> mio::Registration {
        target_of(self.wake_writer)
    }

    /// Every wake-up this half has raised so far, oldest first.
    pub closed spec fn woke(&self) -> Seq<Wake> {
        handed(self.wake_writer)
    }

    /// The ring this half reads from.
    pub closed spec fn ring_of(&self) -> SpscRb<u8> {
        drained(self.reader)
    }

    /// The liveness flag as this half holds it.
    pub closed spec fn flag_of(&self) -> AtomicBool {
        *self.open
    }

    /// Every value this half has stored to the liveness flag, oldest first.
    pub closed spec fn marks(&self) -> Seq<bool> {
        stored(*self.open)
    }

    /// Moves as many bytes from the ring to the front of `buf` as fit, and
    /// returns their number.
    ///
    /// An empty `buf` gives `Ok(0)`, whatever the state of the channel. A
    /// non-empty one gives the number of bytes moved, at least one, or an
    /// error when the ring has none: `RingEmpty` while the producer is there,
    /// `ProducerClosed` once it is gone. Bytes written before the producer
    /// left are handed out first, and the half remembers the end: after one
    /// `ProducerClosed` a non-empty `buf` gets no other answer. A refused read
    /// changes nothing, and a successful one leaves the rest of `buf` alone.
    ///
    /// The liveness flag is looked at before the ring, so `ProducerClosed`
    /// means that the ring was empty after the producer had left.
    ///
    /// When the read takes the first bytes out of a full ring, the producer's
    /// readiness is raised after the bytes are out. Should that fail, the
    /// bytes stay in `buf` and the call reports `NotifyFailed`. A read that
    /// moved no byte raises nothing, and no read raises more than once or
    /// anything but `Writable`. Whether a read that moved bytes raises is
    /// decided by [`settle_read`] and done by [`wake_if_asked`].
    ///
    /// No read hands out more bytes than the ring can hold, and no read
    /// stores anything to the liveness flag.
    pub fn read(&mut self, buf: &mut [u8]) -> (reply: Result<usize, ChannelError>)
        ensures
            old(self).wf() ==> final(self).wf(),
            read_allows(
                old(buf)@,
                old(self).received(),
                reply,
                final(buf)@,
                final(self).received(),
            ),
            wake_allows(Wake::Writable, reply, old(self).woke(), final(self).woke()),
            final(self).received().len() <= old(self).received().len() + final(self).capacity(),
            final(self).marks() == old(self).marks(),
            old(self).closed() && old(buf)@.len() > 0 ==> reply == Err::<usize, ChannelError>(
                ChannelError::ProducerClosed,
            ),
            final(self).closed() <==> old(self).closed() || reply == Err::<usize, ChannelError>(
                ChannelError::ProducerClosed,
            ),
            final(self).ring_of() == old(self).ring_of(),
            final(self).flag_of() == old(self).flag_of(),
            final(self).link_of() == old(self).link_of(),
            final(self).wakes() == old(self).wakes(),
    {
        if self.peer_gone && buf.len() > 0 {
            return Err(ChannelError::ProducerClosed);
        }
        let peer_open = peer_is_open(&self.open);
        let was_full = ring_is_full(&self.ring);
        let outcome = ring_read(&mut self.reader, buf);
        let verdict = settle_read(peer_open, was_full, outcome);
        let reply = wake_if_asked(&mut self.wake_writer, verdict, Wake::Writable);
        if is_producer_closed(&reply) {
            self.peer_gone = true;
        }
        reply
    }

    /// What a poll loop registers to be told when the ring has bytes again.
    pub fn registration(&self) -> (link: &mio::Registration)
        ensures
            *link == self.link_of(),
    {
        &self.link
    }
}

/// Acts on a verdict. When the verdict wants the other half woken, and only
/// then, `wake` is raised through the setter and a fence is put behind the
/// raise. A raise that fails turns the answer into `NotifyFailed`; in every
/// other case the answer is the verdict's.
pub fn wake_if_asked(setter: &mut mio::SetReadiness, verdict: Verdict, wake: Wake) -> (reply:
    Result<usize, ChannelError>)
    ensures
        handed(*final(setter)) == if verdict.wake_peer {
            handed(*old(setter)).push(wake)
        } else {
            handed(*old(setter))
        },
        target_of(*final(setter)) == target_of(*old(setter)),
        reply == final_reply(verdict, true) || reply == final_reply(verdict, false),
        !verdict.wake_peer ==> reply == verdict.reply,
{
    let mut notified = true;
    if verdict.wake_peer {
        let raised = raise(setter, wake);
        full_fence();
        notified = raised.is_ok();
    }
    conclude(verdict, notified)
}

/// Whether a reply is the final "producer closed".
fn is_producer_closed(reply: &Result<usize, ChannelError>) -> (yes: bool)
    ensures
        yes <==> *reply == Err::<usize, ChannelError>(ChannelError::ProducerClosed),
{
    match reply {
        Err(ChannelError::ProducerClosed) => true,
        _ => false,
    }
}

/// What the consumer has received and what the producer has sent are the
/// same bytes in the same order, as far as both go: no byte is lost, doubled,
/// changed or moved on its way through the ring. This holds of the two halves
/// of a channel at any two moments, also when they run on two threads.
pub proof fn lemma_received_is_what_was_sent(producer: Producer, consumer: Consumer)
    requires
        producer.wf(),
        consumer.wf(),
        producer.ring_of() == consumer.ring_of(),
    ensures
        forall|i: int|
            0 <= i < producer.sent().len() && i < consumer.received().len()
                ==> #[trigger] consumer.received()[i] == producer.sent()[i],
        consumer.received().len() <= producer.sent().len() ==> consumer.received()
            == producer.sent().take(consumer.received().len() as int),
        consumer.received().len() == producer.sent().len() ==> consumer.received()
            == producer.sent(),
{
    let sent = producer.sent();
    let received = consumer.received();
    assert forall|i: int| 0 <= i < sent.len() && i < received.len() implies #[trigger] received[i]
        == sent[i] by {
        assert(received[i] == ring_byte(consumer.ring_of(), i));
        assert(sent[i] == ring_byte(producer.ring_of(), i));
    }
    if received.len() <= sent.len() {
        assert(received =~= sent.take(received.len() as int));
    }
    if received.len() == sent.len() {
        assert(received =~= sent);
    }
}

/// However a byte sequence was cut up for writing, however the reads were
/// cut, and however often either was refused and tried again: once the
/// producer has sent exactly the sequence and the consumer has received as
/// many bytes as it has, the consumer has received the sequence.
pub proof fn lemma_transfer_reproduces(producer: Producer, consumer: Consumer, s: Seq<u8>)
    requires
        producer.wf(),
        consumer.wf(),
        producer.ring_of() == consumer.ring_of(),
        producer.sent() == s,
        consumer.received().len() == s.len(),
    ensures
        consumer.received() == s,
{
    lemma_received_is_what_was_sent(producer, consumer);
}

/// The liveness flag is never set back: whatever a half has stored to it, at
/// whatever moment, is `false`.
pub proof fn lemma_flag_is_never_set_back(producer: Producer, consumer: Consumer)
    requires
        producer.wf(),
        consumer.wf(),
    ensures
        forall|i: int| 0 <= i < producer.marks().len() ==> !#[trigger] producer.marks()[i],
        forall|i: int| 0 <= i < consumer.marks().len() ==> !#[trigger] consumer.marks()[i],
{
}

impl Drop for Producer {
    /// Marks the channel closed by storing `false` to the liveness flag, then
    /// wakes the consumer so that it comes to see it: every readiness is
    /// raised on the consumer's registration, whatever the ring holds. A wake-up that fails is let go, since a
    /// destructor has nobody to tell. The ring and the bytes in it are left
    /// alone.
    fn drop(&mut self)
        ensures
            old(self).wf() ==> final(self).wf(),
            final(self).woke() == old(self).woke().push(Wake::All),
            final(self).marks() == old(self).marks().push(false),
            final(self).sent() == old(self).sent(),
            final(self).ring_of() == old(self).ring_of(),
            final(self).link_of() == old(self).link_of(),
            final(self).wakes() == old(self).wakes(),
            final(self).closed() == old(self).closed(),
        opens_invariants none
        no_unwind
    {
        mark_closed(&mut self.open);
        let _ = raise(&mut self.wake_reader, Wake::All);
        full_fence();
    }
}

impl Drop for Consumer {
    /// Marks the channel closed by storing `false` to the liveness flag, then
    /// wakes the producer so that it comes to see it: every readiness is
    /// raised on the producer's registration, whatever the ring holds. A wake-up that fails is let go, since a
    /// destructor has nobody to tell. The ring and the bytes in it are left
    /// alone.
    fn drop(&mut self)
        ensures
            old(self).wf() ==> final(self).wf(),
            final(self).woke() == old(self).woke().push(Wake::All),
            final(self).marks() == old(self).marks().push(false),
            final(self).received() == old(self).received(),
            final(self).ring_of() == old(self).ring_of(),
            final(self).link_of() == old(self).link_of(),
            final(self).wakes() == old(self).wakes(),
            final(self).closed() == old(self).closed(),
        opens_invariants none
        no_unwind
    {
        mark_closed(&mut self.open);
        let _ = raise(&mut self.wake_writer, Wake::All);
        full_fence();
    }
}

} // verus!
