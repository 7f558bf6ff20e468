use mio_byte_fifo::protocol::{
    capacity_is_valid, conclude, refuse_write, settle_read, settle_write, RingFault, Verdict,
    MAX_CAPACITY,
};
use mio_byte_fifo::{ChannelError, ErrorKind};

#[test]
fn capacity_bounds() {
    assert_eq!(MAX_CAPACITY, 1 << 30);
    assert!(!capacity_is_valid(0));
    assert!(capacity_is_valid(1));
    assert!(capacity_is_valid(16));
    assert!(capacity_is_valid(MAX_CAPACITY));
    assert!(!capacity_is_valid(MAX_CAPACITY + 1));
    assert!(!capacity_is_valid(usize::MAX));
}

#[test]
fn write_into_empty_ring_wakes_reader() {
    let verdict = settle_write(true, Ok(6));
    assert_eq!(verdict, Verdict { reply: Ok(6), wake_peer: true });
}

#[test]
fn write_into_used_ring_wakes_nobody() {
    let verdict = settle_write(false, Ok(6));
    assert_eq!(verdict, Verdict { reply: Ok(6), wake_peer: false });
}

#[test]
fn write_of_nothing_wakes_nobody() {
    assert_eq!(settle_write(true, Ok(0)), Verdict { reply: Ok(0), wake_peer: false });
    assert_eq!(settle_write(false, Ok(0)), Verdict { reply: Ok(0), wake_peer: false });
}

#[test]
fn refused_write_is_ring_full() {
    for was_empty in [false, true] {
        for fault in [RingFault::Full, RingFault::Empty] {
            let verdict = settle_write(was_empty, Err(fault));
            assert_eq!(verdict, Verdict { reply: Err(ChannelError::RingFull), wake_peer: false });
        }
    }
}

#[test]
fn read_from_full_ring_wakes_writer() {
    for peer_open in [false, true] {
        let verdict = settle_read(peer_open, true, Ok(3));
        assert_eq!(verdict, Verdict { reply: Ok(3), wake_peer: true });
    }
}

#[test]
fn read_from_partly_used_ring_wakes_nobody() {
    for peer_open in [false, true] {
        let verdict = settle_read(peer_open, false, Ok(3));
        assert_eq!(verdict, Verdict { reply: Ok(3), wake_peer: false });
    }
}

#[test]
fn read_of_nothing_wakes_nobody() {
    assert_eq!(settle_read(true, true, Ok(0)), Verdict { reply: Ok(0), wake_peer: false });
    assert_eq!(settle_read(false, true, Ok(0)), Verdict { reply: Ok(0), wake_peer: false });
}

#[test]
fn refused_read_tells_waiting_from_closed() {
    for was_full in [false, true] {
        assert_eq!(
            settle_read(true, was_full, Err(RingFault::Empty)),
            Verdict { reply: Err(ChannelError::RingEmpty), wake_peer: false }
        );
        assert_eq!(
            settle_read(false, was_full, Err(RingFault::Empty)),
            Verdict { reply: Err(ChannelError::ProducerClosed), wake_peer: false }
        );
    }
}

#[test]
fn failed_wake_up_replaces_the_reply() {
    let woken = Verdict { reply: Ok(4), wake_peer: true };
    assert_eq!(conclude(woken, true), Ok(4));
    assert_eq!(conclude(woken, false), Err(ChannelError::NotifyFailed));

    let quiet = Verdict { reply: Ok(4), wake_peer: false };
    assert_eq!(conclude(quiet, true), Ok(4));
    assert_eq!(conclude(quiet, false), Ok(4));

    let refused = Verdict { reply: Err(ChannelError::RingFull), wake_peer: false };
    assert_eq!(conclude(refused, false), Err(ChannelError::RingFull));
}

#[test]
fn error_kinds() {
    assert_eq!(ChannelError::RingFull.kind(), ErrorKind::WouldBlock);
    assert_eq!(ChannelError::RingEmpty.kind(), ErrorKind::WouldBlock);
    assert_eq!(ChannelError::ConsumerClosed.kind(), ErrorKind::PeerClosed);
    assert_eq!(ChannelError::ProducerClosed.kind(), ErrorKind::PeerClosed);
    assert_eq!(ChannelError::InvalidCapacity.kind(), ErrorKind::InvalidCapacity);
    assert_eq!(ChannelError::NotifyFailed.kind(), ErrorKind::Notify);
}

#[test]
fn error_texts() {
    assert_eq!(ChannelError::RingFull.description(), "Ring buffer is full");
    assert_eq!(ChannelError::RingEmpty.description(), "Ring buffer is empty");
    assert_eq!(ChannelError::ConsumerClosed.description(), "Consumer was closed");
    assert_eq!(ChannelError::ProducerClosed.description(), "Producer was closed");
    assert_eq!(ChannelError::InvalidCapacity.description(), "Capacity is out of range");
    assert_eq!(ChannelError::NotifyFailed.description(), "Peer could not be notified");
}

#[test]
fn write_is_refused_once_the_consumer_is_gone() {
    assert!(!refuse_write(false, true));
    assert!(refuse_write(false, false));
    assert!(refuse_write(true, false));
    assert!(refuse_write(true, true));
}
