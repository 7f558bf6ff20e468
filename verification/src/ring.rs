//! The byte ring, as this crate relies on it.
//!
//! The ring is `rb::SpscRb<u8>`, reached through one writing and one reading
//! handle. Nothing in this file is proved: each function states what the `rb`
//! crate does, and the rest of the crate is verified against these statements.
//!
//! A ring is shared between two threads, so what it holds at a given moment is
//! not something one half can know. What a half can know is its own history:
//! the bytes that went in through its writing handle, or came out through its
//! reading handle. The contracts below speak of those two streams.
//!
//! What the two histories have to do with each other is said through the
//! ring's tape: the row of all bytes that ever go into the ring. A write puts
//! its bytes at the next positions of the tape, and a read hands out the bytes
//! at the next positions that no read has handed out. A position of the tape
//! never changes once a byte has reached it, so what is said of it stays true
//! whatever the other thread does.
//!
//! The ring is made for one writer and one reader, and a handle's history is
//! the ring's history only as long as the handle is the only one of its sort.
//! So a ring is made here together with its two handles, in one step, and
//! nothing else in this file makes a handle.

use vstd::prelude::*;
use rb::Consumer as RingReader;
use rb::Producer as RingWriter;
use rb::SpscRb;
use crate::protocol::RingFault;

verus! {

/// `rb::SpscRb`: the ring itself. Opaque here.
#[verifier::external_type_specification]
#[verifier::external_body]
#[verifier::reject_recursive_types(T)]
pub struct ExSpscRb<T>(SpscRb<T>);

/// `rb::Producer`: the writing handle of a ring. Opaque here.
#[verifier::external_type_specification]
#[verifier::external_body]
#[verifier::reject_recursive_types(T)]
pub struct ExRingWriter<T>(RingWriter<T>);

/// `rb::Consumer`: the reading handle of a ring. Opaque here.
#[verifier::external_type_specification]
#[verifier::external_body]
#[verifier::reject_recursive_types(T)]
pub struct ExRingReader<T>(RingReader<T>);

/// The number of bytes the ring was made to hold.
pub uninterp spec fn ring_capacity(ring: SpscRb<u8>) -> nat;

/// Every byte the ring has accepted through this writing handle, oldest first.
pub uninterp spec fn accepted(writer: RingWriter<u8>) -> Seq<u8>;

/// Every byte the ring has handed out through this reading handle, oldest
/// first.
pub uninterp spec fn delivered(reader: RingReader<u8>) -> Seq<u8>;

/// The ring that a writing handle puts its bytes into.
pub uninterp spec fn fed(writer: RingWriter<u8>) -> SpscRb<u8>;

/// The ring that a reading handle takes its bytes from.
pub uninterp spec fn drained(reader: RingReader<u8>) -> SpscRb<u8>;

/// The byte at one position of the ring's tape. The tape is the row of all
/// bytes that go into the ring, in the order in which they go in; position
/// zero is the first byte the ring ever took. A position is settled when its
/// byte goes in and never changes after that; of a position that no byte has
/// reached, nothing is said.
pub uninterp spec fn ring_byte(ring: SpscRb<u8>, index: int) -> u8;

/// `rb::SpscRb::new`, then `rb::RB::producer` and `rb::RB::consumer` on the
/// new ring: a ring that holds up to `capacity` bytes, together with its
/// writing handle and its reading handle. Nothing has gone through either
/// handle yet.
///
/// This is the only place where handles are made, and it makes one of each
/// sort for a ring that nobody else has seen. Whatever is said below of a
/// handle's history and of the ring's tape rests on that.
///
/// The ring allocates one slot more than it is asked for, so the capacity has
/// to stay below the largest size an allocation can have.
#[verifier::external_body]
pub(crate) fn ring_new(capacity: usize) -> (made: (SpscRb<u8>, RingWriter<u8>, RingReader<u8>))
    requires
        capacity < isize::MAX,
    ensures
        ring_capacity(made.0) == capacity,
        fed(made.1) == made.0,
        drained(made.2) == made.0,
        accepted(made.1) == Seq::<u8>::empty(),
        delivered(made.2) == Seq::<u8>::empty(),
{
    let ring = SpscRb::new(capacity);
    let writer = rb::RB::producer(&ring);
    let reader = rb::RB::consumer(&ring);
    (ring, writer, reader)
}

/// `rb::RbInspector::is_empty`: whether the ring held no byte at the moment of
/// the call. The other half may change that at any time, so nothing is
/// claimed of the answer.
#[verifier::external_body]
pub(crate) fn ring_is_empty(ring: &SpscRb<u8>) -> bool {
    rb::RbInspector::is_empty(ring)
}

/// `rb::RbInspector::is_full`: whether the ring had no free slot at the moment
/// of the call. The other half may change that at any time, so nothing is
/// claimed of the answer.
#[verifier::external_body]
pub(crate) fn ring_is_full(ring: &SpscRb<u8>) -> bool {
    rb::RbInspector::is_full(ring)
}

/// `rb::RbProducer::write`: stores as many leading bytes of `data` as there
/// are free slots and returns their number.
///
/// The ring answers `Ok(0)` only to empty `data`. With bytes on offer it
/// either takes at least one of them, always from the front and never more
/// than the ring can hold, or takes none and reports that it is full; it
/// never reports that it is empty. The bytes
/// taken go onto the ring's tape behind those the handle put in before, and
/// the handle stays with its ring.
#[verifier::external_body]
pub(crate) fn ring_write(writer: &mut RingWriter<u8>, data: &[u8]) -> (outcome: Result<
    usize,
    RingFault,
>)
    ensures
        fed(*final(writer)) == fed(*old(writer)),
        forall|i: int|
            accepted(*old(writer)).len() <= i < accepted(*final(writer)).len()
                ==> accepted(*final(writer))[i] == #[trigger] ring_byte(fed(*old(writer)), i),
        match outcome {
            Ok(n) => {
                &&& n <= data@.len()
                &&& n <= ring_capacity(fed(*old(writer)))
                &&& n == 0 <==> data@.len() == 0
                &&& accepted(*final(writer)) == accepted(*old(writer)) + data@.take(n as int)
            },
            Err(fault) => {
                &&& fault == RingFault::Full
                &&& data@.len() > 0
                &&& accepted(*final(writer)) == accepted(*old(writer))
            },
        },
{
    match rb::RbProducer::write(&*writer, data) {
        Ok(n) => Ok(n),
        Err(rb::RbError::Full) => Err(RingFault::Full),
        Err(rb::RbError::Empty) => Err(RingFault::Empty),
    }
}

/// `rb::RbConsumer::read`: moves as many stored bytes as fit to the front of
/// `data` and returns their number.
///
/// The ring answers `Ok(0)` only to empty `data`. With room on offer it either
/// hands out at least one byte, never more than the ring can hold, or hands
/// out none and reports that it is empty; it never reports that it is full. What lies in `data` behind the
/// bytes handed out is left as it was, and on a failure all of `data` is. The
/// bytes handed out are the next ones on the ring's tape, behind those the
/// handle took out before, and the handle stays with its ring.
#[verifier::external_body]
pub(crate) fn ring_read(reader: &mut RingReader<u8>, data: &mut [u8]) -> (outcome: Result<
    usize,
    RingFault,
>)
    ensures
        final(data)@.len() == old(data)@.len(),
        drained(*final(reader)) == drained(*old(reader)),
        forall|i: int|
            delivered(*old(reader)).len() <= i < delivered(*final(reader)).len()
                ==> delivered(*final(reader))[i] == #[trigger] ring_byte(drained(*old(reader)), i),
        match outcome {
            Ok(n) => {
                &&& n <= old(data)@.len()
                &&& n <= ring_capacity(drained(*old(reader)))
                &&& n == 0 <==> old(data)@.len() == 0
                &&& final(data)@.skip(n as int) == old(data)@.skip(n as int)
                &&& delivered(*final(reader)) == delivered(*old(reader)) + final(data)@.take(
                    n as int,
                )
            },
            Err(fault) => {
                &&& fault == RingFault::Empty
                &&& old(data)@.len() > 0
                &&& final(data)@ == old(data)@
                &&& delivered(*final(reader)) == delivered(*old(reader))
            },
        },
{
    match rb::RbConsumer::read(&*reader, data) {
        Ok(n) => Ok(n),
        Err(rb::RbError::Full) => Err(RingFault::Full),
        Err(rb::RbError::Empty) => Err(RingFault::Empty),
    }
}

} // verus!
