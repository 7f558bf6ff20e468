use mio_byte_fifo::protocol::MAX_CAPACITY;
use mio_byte_fifo::{create, ChannelError, ErrorKind};

#[test]
fn write_read() {
    let (mut p, mut c) = create(16).unwrap();

    assert_eq!(p.write(b"abcdef").unwrap(), 6);

    let mut buf = [0; 6];
    assert_eq!(c.read(&mut buf).unwrap(), 6);
    assert_eq!(&buf, b"abcdef");
}

#[test]
fn write_read_concat() {
    let (mut p, mut c) = create(16).unwrap();

    assert_eq!(p.write(b"abc").unwrap(), 3);
    assert_eq!(p.write(b"def").unwrap(), 3);

    let mut buf = [0; 6];
    assert_eq!(c.read(&mut buf).unwrap(), 6);
    assert_eq!(&buf, b"abcdef");
}

#[test]
fn write_read_split() {
    let (mut p, mut c) = create(16).unwrap();

    assert_eq!(p.write(b"abcdef").unwrap(), 6);

    let mut buf = [0; 3];
    assert_eq!(c.read(&mut buf).unwrap(), 3);
    assert_eq!(&buf, b"abc");
    assert_eq!(c.read(&mut buf).unwrap(), 3);
    assert_eq!(&buf, b"def");
}

#[test]
fn write_read_empty() {
    let (mut p, mut c) = create(16).unwrap();

    let mut buf = [0; 6];

    assert_eq!(p.write(b"abc").unwrap(), 3);
    assert_eq!(c.read(&mut buf).unwrap(), 3);
    assert_eq!(&buf, b"abc\0\0\0");

    assert_eq!(p.write(b"def").unwrap(), 3);
    assert_eq!(c.read(&mut buf).unwrap(), 3);
    assert_eq!(&buf, b"def\0\0\0");
}

#[test]
fn write_read_full() {
    let (mut p, mut c) = create(8).unwrap();

    let range: Vec<u8> = (0..8).collect();
    let mut buf = [0; 6];

    assert_eq!(p.write(&range).unwrap(), 8);

    assert_eq!(c.read(&mut buf[0..3]).unwrap(), 3);
    assert_eq!(&buf[0..3], &[0, 1, 2]);

    assert_eq!(p.write(b"abcdef").unwrap(), 3);

    assert_eq!(c.read(&mut buf[0..3]).unwrap(), 3);
    assert_eq!(&buf[0..3], &[3, 4, 5]);

    assert_eq!(c.read(&mut buf).unwrap(), 5);
    assert_eq!(&buf[0..5], &[6, 7, b'a', b'b', b'c']);
}

#[test]
fn read_block() {
    let (_p, mut c) = create(16).unwrap();

    let mut buf = [0; 4];
    match c.read(&mut buf) {
        Ok(_) => panic!(),
        Err(err) => {
            assert_eq!(err.kind(), ErrorKind::WouldBlock);
            assert_eq!(err.description(), "Ring buffer is empty");
        }
    }
}

#[test]
fn write_block() {
    const SIZE: usize = 16;
    let (mut p, _c) = create(SIZE).unwrap();

    assert_eq!(p.write(&[0; SIZE]).unwrap(), SIZE);
    match p.write(b"abc") {
        Ok(_) => panic!(),
        Err(err) => {
            assert_eq!(err.kind(), ErrorKind::WouldBlock);
            assert_eq!(err.description(), "Ring buffer is full");
        }
    }
}

#[test]
fn close_cons() {
    let (mut p, c) = create(16).unwrap();

    assert_eq!(p.write(b"abc").unwrap(), 3);

    (move || {
        let _gone = c;
    })();

    match p.write(b"def") {
        Ok(_) => panic!(),
        Err(err) => {
            assert_eq!(err.kind(), ErrorKind::PeerClosed);
            assert_eq!(err.description(), "Consumer was closed");
        }
    }
}

#[test]
fn close_prod() {
    let (mut p, mut c) = create(16).unwrap();
    let mut buf = [0; 6];

    assert_eq!(p.write(b"abcdef").unwrap(), 6);

    assert_eq!(c.read(&mut buf[0..3]).unwrap(), 3);
    assert_eq!(&buf[0..3], b"abc");

    (move || {
        let _gone = p;
    })();

    assert_eq!(c.read(&mut buf).unwrap(), 3);
    assert_eq!(&buf[0..3], b"def");

    match c.read(&mut buf) {
        Ok(_) => panic!(),
        Err(err) => {
            assert_eq!(err.kind(), ErrorKind::PeerClosed);
            assert_eq!(err.description(), "Producer was closed");
        }
    }
    assert_eq!(c.read(&mut buf), Err(ChannelError::ProducerClosed));
}

#[test]
fn read_blocks_then_reports_close() {
    let (p, mut c) = create(16).unwrap();
    let mut buf = [0; 4];

    assert_eq!(c.read(&mut buf), Err(ChannelError::RingEmpty));
    assert_eq!(buf, [0; 4]);

    drop(p);

    assert_eq!(c.read(&mut buf), Err(ChannelError::ProducerClosed));
    assert_eq!(buf, [0; 4]);
}

#[test]
fn partial_write_then_two_reads() {
    let (mut p, mut c) = create(8).unwrap();
    let first: Vec<u8> = (0..8).collect();

    assert_eq!(p.write(&first), Ok(8));

    let mut three = [0; 3];
    assert_eq!(c.read(&mut three), Ok(3));
    assert_eq!(three, [0, 1, 2]);

    assert_eq!(p.write(b"abcdef"), Ok(3));

    assert_eq!(c.read(&mut three), Ok(3));
    assert_eq!(three, [3, 4, 5]);

    let mut five = [0; 5];
    assert_eq!(c.read(&mut five), Ok(5));
    assert_eq!(five, [6, 7, b'a', b'b', b'c']);

    assert_eq!(c.read(&mut five), Err(ChannelError::RingEmpty));
}

#[test]
fn create_refuses_zero_capacity() {
    match create(0) {
        Ok(_) => panic!(),
        Err(err) => {
            assert_eq!(err, ChannelError::InvalidCapacity);
            assert_eq!(err.kind(), ErrorKind::InvalidCapacity);
            assert_eq!(err.description(), "Capacity is out of range");
        }
    }
}

#[test]
fn create_refuses_capacity_above_maximum() {
    assert!(matches!(create(MAX_CAPACITY + 1), Err(ChannelError::InvalidCapacity)));
    assert!(matches!(create(usize::MAX), Err(ChannelError::InvalidCapacity)));
}

#[test]
fn create_accepts_smallest_capacity() {
    let (mut p, mut c) = create(1).unwrap();
    let mut buf = [0; 2];

    assert_eq!(p.write(b"xy"), Ok(1));
    assert_eq!(p.write(b"y"), Err(ChannelError::RingFull));
    assert_eq!(c.read(&mut buf), Ok(1));
    assert_eq!(buf, [b'x', 0]);
    assert_eq!(p.write(b"y"), Ok(1));
    assert_eq!(c.read(&mut buf), Ok(1));
    assert_eq!(buf, [b'y', 0]);
}

#[test]
fn ring_holds_exactly_its_capacity() {
    for capacity in [1usize, 2, 7, 8, 64] {
        let (mut p, mut c) = create(capacity).unwrap();
        let data = vec![0x5a; capacity + 3];
        assert_eq!(p.write(&data), Ok(capacity));
        assert_eq!(p.write(&data), Err(ChannelError::RingFull));

        let mut buf = vec![0; capacity + 3];
        assert_eq!(c.read(&mut buf), Ok(capacity));
        assert_eq!(&buf[..capacity], &data[..capacity]);
        assert_eq!(&buf[capacity..], &[0, 0, 0]);
    }
}

#[test]
fn refused_write_leaves_ring_as_it_was() {
    let (mut p, mut c) = create(4).unwrap();

    assert_eq!(p.write(b"wxyz"), Ok(4));
    assert_eq!(p.write(b"abc"), Err(ChannelError::RingFull));
    assert_eq!(p.write(b"abc"), Err(ChannelError::RingFull));

    let mut buf = [0; 8];
    assert_eq!(c.read(&mut buf), Ok(4));
    assert_eq!(&buf, b"wxyz\0\0\0\0");
    assert_eq!(c.read(&mut buf), Err(ChannelError::RingEmpty));
}

#[test]
fn refused_read_leaves_buffer_and_ring_as_they_were() {
    let (mut p, mut c) = create(4).unwrap();
    let mut buf = [9; 3];

    assert_eq!(c.read(&mut buf), Err(ChannelError::RingEmpty));
    assert_eq!(c.read(&mut buf), Err(ChannelError::RingEmpty));
    assert_eq!(buf, [9; 3]);

    assert_eq!(p.write(b"abcd"), Ok(4));
    assert_eq!(c.read(&mut buf), Ok(3));
    assert_eq!(&buf, b"abc");
}

#[test]
fn empty_write_and_empty_read_succeed_with_zero() {
    let (mut p, mut c) = create(2).unwrap();
    let mut none: [u8; 0] = [];

    assert_eq!(p.write(b""), Ok(0));
    assert_eq!(c.read(&mut none), Ok(0));

    assert_eq!(p.write(b"ab"), Ok(2));
    assert_eq!(p.write(b""), Ok(0));
    assert_eq!(c.read(&mut none), Ok(0));

    let mut buf = [0; 2];
    assert_eq!(c.read(&mut buf), Ok(2));
    assert_eq!(&buf, b"ab");
}

#[test]
fn empty_write_after_close_is_refused() {
    let (mut p, c) = create(2).unwrap();
    drop(c);
    assert_eq!(p.write(b""), Err(ChannelError::ConsumerClosed));
    assert_eq!(p.write(b"a"), Err(ChannelError::ConsumerClosed));
}

#[test]
fn empty_read_after_close_gives_zero() {
    let (p, mut c) = create(2).unwrap();
    drop(p);
    let mut none: [u8; 0] = [];
    let mut one = [0; 1];
    assert_eq!(c.read(&mut none), Ok(0));
    assert_eq!(c.read(&mut one), Err(ChannelError::ProducerClosed));
    assert_eq!(c.read(&mut none), Ok(0));
    assert_eq!(c.read(&mut one), Err(ChannelError::ProducerClosed));
}

#[test]
fn close_is_reported_again_and_again() {
    let (mut p, c) = create(8).unwrap();
    drop(c);
    for _ in 0..5 {
        assert_eq!(p.write(b"abc"), Err(ChannelError::ConsumerClosed));
    }

    let (p, mut c) = create(8).unwrap();
    drop(p);
    let mut buf = [7; 3];
    for _ in 0..5 {
        assert_eq!(c.read(&mut buf), Err(ChannelError::ProducerClosed));
        assert_eq!(buf, [7; 3]);
    }
}

#[test]
fn buffered_bytes_outlive_the_producer() {
    let (mut p, mut c) = create(8).unwrap();
    assert_eq!(p.write(b"abcdefgh"), Ok(8));
    drop(p);

    let mut buf = [0; 3];
    assert_eq!(c.read(&mut buf), Ok(3));
    assert_eq!(&buf, b"abc");
    assert_eq!(c.read(&mut buf), Ok(3));
    assert_eq!(&buf, b"def");
    assert_eq!(c.read(&mut buf), Ok(2));
    assert_eq!(&buf, b"ghf");
    assert_eq!(c.read(&mut buf), Err(ChannelError::ProducerClosed));
    assert_eq!(&buf, b"ghf");
}

#[test]
fn round_trip_of_what_fits() {
    for capacity in [1usize, 3, 16, 100] {
        for len in 1..=capacity.min(20) {
            let (mut p, mut c) = create(capacity).unwrap();
            let data: Vec<u8> = (0..len).map(|i| (i * 7 + 1) as u8).collect();
            assert_eq!(p.write(&data), Ok(len));
            let mut buf = vec![0; len];
            assert_eq!(c.read(&mut buf), Ok(len));
            assert_eq!(buf, data);
            assert_eq!(c.read(&mut buf), Err(ChannelError::RingEmpty));
        }
    }
}

#[test]
fn write_drain_cycles_carry_a_long_sequence() {
    for capacity in [1usize, 2, 5, 16] {
        let (mut p, mut c) = create(capacity).unwrap();
        let data: Vec<u8> = (0..100usize).map(|i| (i * 3) as u8).collect();
        let mut got = Vec::new();
        let mut pos = 0;
        while pos < data.len() {
            let n = p.write(&data[pos..]).unwrap();
            assert_eq!(n, capacity.min(data.len() - pos));
            pos += n;
            let mut buf = vec![0; capacity];
            let m = c.read(&mut buf).unwrap();
            assert_eq!(m, n);
            got.extend_from_slice(&buf[..m]);
        }
        assert_eq!(got, data);
    }
}

#[test]
fn any_split_of_writes_and_reads_keeps_the_stream() {
    let data: Vec<u8> = (0..251usize).map(|i| (i ^ (i >> 3)) as u8).collect();
    for capacity in [1usize, 3, 8, 17] {
        for write_chunk in [1usize, 2, 5, 11, 40] {
            for read_chunk in [1usize, 4, 7, 30] {
                let (mut p, mut c) = create(capacity).unwrap();
                let mut got = Vec::new();
                let mut pos = 0;
                let mut turns = 0;
                while got.len() < data.len() {
                    turns += 1;
                    assert!(turns < 10_000);
                    if pos < data.len() {
                        let end = data.len().min(pos + write_chunk);
                        match p.write(&data[pos..end]) {
                            Ok(n) => {
                                assert!(1 <= n && n <= end - pos);
                                pos += n;
                            }
                            Err(err) => assert_eq!(err, ChannelError::RingFull),
                        }
                    }
                    let mut buf = vec![0; read_chunk];
                    match c.read(&mut buf) {
                        Ok(n) => {
                            assert!(1 <= n && n <= read_chunk);
                            got.extend_from_slice(&buf[..n]);
                        }
                        Err(err) => assert_eq!(err, ChannelError::RingEmpty),
                    }
                    assert_eq!(&got[..], &data[..got.len()]);
                }
                assert_eq!(got, data);
                let mut buf = [0; 1];
                assert_eq!(c.read(&mut buf), Err(ChannelError::RingEmpty));
            }
        }
    }
}

#[test]
fn new_channel_reads_as_open() {
    let (mut p, mut c) = create(4).unwrap();
    let mut buf = [0; 1];

    assert_eq!(p.write(b""), Ok(0));
    assert_eq!(c.read(&mut buf), Err(ChannelError::RingEmpty));
    assert_eq!(p.write(b"a"), Ok(1));
    assert_eq!(c.read(&mut buf), Ok(1));
    assert_eq!(buf, [b'a']);
}
