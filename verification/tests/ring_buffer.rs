use rivulets::databus::{ConsumerHandle, Databus, ProducerHandle};
use rivulets::payload::{Position, WritePayload};
use rivulets::port::PayloadSize;
use rivulets::ring_buffer::{PacketBoundary, RingBuffer};

fn write(ring: &mut RingBuffer<u8>, producer: &ProducerHandle<RingBuffer<u8>>, payload: WritePayload<u8>) {
    let metadata = payload.metadata();
    let written = payload.written_len();
    producer.release_write(ring, metadata, written, payload.as_slice());
}

fn read_all(ring: &mut RingBuffer<u8>, consumer: &ConsumerHandle<RingBuffer<u8>>, len: usize) -> (Vec<u8>, Position) {
    let mut payload = consumer.acquire_read(ring, len).expect("data available");
    let data = payload.as_slice().to_vec();
    let position = payload.position();
    payload.commit_all();
    consumer.release_read(ring, payload.metadata(), payload.consumed_len());
    (data, position)
}

#[test]
fn test_basic_produce_consume_strict() {
    let mut ring: RingBuffer<u8> = RingBuffer::new_static::<16>();
    let producer = ProducerHandle::new(&mut ring, PayloadSize::new(4, 4), true);
    let consumer = ConsumerHandle::new(&mut ring, PayloadSize::new(4, 4), true);

    let mut w = producer.acquire_write(&ring, 4).expect("room");
    for (i, v) in [0xAA, 0xBB, 0xCC, 0xDD].iter().enumerate() {
        w.set(i, *v);
    }
    w.set_position(Position::Single);
    w.commit_all();
    write(&mut ring, &producer, w);

    let mut r = consumer.acquire_read(&ring, 4).expect("data");
    assert_eq!(r.as_slice(), &[0xAA, 0xBB, 0xCC, 0xDD]);
    assert_eq!(r.position(), Position::Single);
    r.commit_all();
    consumer.release_read(&mut ring, r.metadata(), r.consumed_len());
}

#[test]
fn test_producer_wrap_around() {
    let mut ring: RingBuffer<u8> = RingBuffer::new_static::<8>();
    let producer = ProducerHandle::new(&mut ring, PayloadSize::new(4, 4), true);
    let consumer = ConsumerHandle::new(&mut ring, PayloadSize::new(4, 4), true);

    for i in 0..2u8 {
        let mut w = producer.acquire_write(&ring, 4).expect("room");
        w.fill(i);
        w.commit_all();
        write(&mut ring, &producer, w);
    }

    let (first, _) = read_all(&mut ring, &consumer, 4);
    assert_eq!(first[0], 0);

    let mut w = producer.acquire_write(&ring, 4).expect("room after a read");
    w.fill(2);
    w.commit_all();
    write(&mut ring, &producer, w);

    let (second, _) = read_all(&mut ring, &consumer, 4);
    assert_eq!(second[0], 1);
    let (third, _) = read_all(&mut ring, &consumer, 4);
    assert_eq!(third[0], 2);
}

#[test]
fn test_backpressure_full_buffer() {
    let mut ring: RingBuffer<u8> = RingBuffer::new_static::<4>();
    let producer = ProducerHandle::new(&mut ring, PayloadSize::new(4, 4), true);
    let consumer = ConsumerHandle::new(&mut ring, PayloadSize::new(4, 4), true);

    let mut w = producer.acquire_write(&ring, 4).expect("room");
    w.commit_all();
    write(&mut ring, &producer, w);

    // The ring is full: the producer has to wait.
    assert!(producer.acquire_write(&ring, 4).is_none());

    read_all(&mut ring, &consumer, 4);

    let mut w = producer.acquire_write(&ring, 4).expect("room after the consumer read");
    w.set(0, 0xFF);
    w.commit_all();
    write(&mut ring, &producer, w);

    let r_new = consumer.acquire_read(&ring, 4).expect("data");
    assert_eq!(r_new.as_slice()[0], 0xFF);
}

#[test]
fn test_multiple_consumers_slowest_reader() {
    let mut ring: RingBuffer<u8> = RingBuffer::new_static::<8>();
    let producer = ProducerHandle::new(&mut ring, PayloadSize::new(4, 4), true);
    let fast_consumer = ConsumerHandle::new(&mut ring, PayloadSize::new(4, 4), true);
    let slow_consumer = ConsumerHandle::new(&mut ring, PayloadSize::new(4, 4), true);

    for _ in 0..2 {
        let mut w = producer.acquire_write(&ring, 4).expect("room");
        w.commit_all();
        write(&mut ring, &producer, w);
    }

    read_all(&mut ring, &fast_consumer, 4);
    read_all(&mut ring, &fast_consumer, 4);

    assert!(producer.acquire_write(&ring, 4).is_none(), "Producer overwrote unread data from slow consumer");

    read_all(&mut ring, &slow_consumer, 4);

    assert!(producer.acquire_write(&ring, 4).is_some(), "Producer failed to acquire after slow consumer read");
}

#[test]
fn test_packet_assembly_and_boundary_truncation() {
    let mut ring: RingBuffer<u8> = RingBuffer::new_static::<16>();
    let producer = ProducerHandle::new(&mut ring, PayloadSize::new(4, 4), false);
    let consumer = ConsumerHandle::new(&mut ring, PayloadSize::new(4, 4), true);

    let mut w1 = producer.acquire_write(&ring, 4).expect("room");
    w1.set_position(Position::First);
    w1.commit(4);
    write(&mut ring, &producer, w1);

    let mut w2 = producer.acquire_write(&ring, 4).expect("room");
    w2.set_position(Position::Last);
    w2.commit(4);
    write(&mut ring, &producer, w2);

    let (r, position) = read_all(&mut ring, &consumer, 8);
    assert_eq!(r.len(), 8);
    assert_eq!(position, Position::Single);

    let mut w3 = producer.acquire_write(&ring, 4).expect("room");
    w3.set_position(Position::Single);
    w3.commit(4);
    write(&mut ring, &producer, w3);

    let (r2, position2) = read_all(&mut ring, &consumer, 10);
    assert_eq!(r2.len(), 4, "Read should be truncated at the packet boundary");
    assert_eq!(position2, Position::Single);
}

#[test]
fn strict_alloc_refuses_misaligned_capacity() {
    // A buffer of 10 is not a multiple of a chunk of 4.
    let ring: RingBuffer<u8> = RingBuffer::new_static::<10>();
    assert!(!ring.can_register_producer(PayloadSize::new(4, 4), true));
    assert!(ring.can_register_producer(PayloadSize::new(4, 4), false));
    assert!(ring.can_register_producer(PayloadSize::new(5, 5), true));
    assert!(!ring.can_register_producer(PayloadSize::new(0, 0), false));
}

#[test]
fn test_non_strict_variable_length_writes() {
    let mut ring: RingBuffer<u8> = RingBuffer::new_static::<16>();
    let producer = ProducerHandle::new(&mut ring, PayloadSize::new(4, 4), false);
    let consumer = ConsumerHandle::new(&mut ring, PayloadSize::new(4, 4), true);

    let mut w = producer.acquire_write(&ring, 3).expect("room");
    assert_eq!(w.len(), 3);
    w.commit(3);
    write(&mut ring, &producer, w);

    let (r, _) = read_all(&mut ring, &consumer, 10);
    assert_eq!(r.len(), 3);
}

#[test]
fn every_consumer_reads_the_stream_in_order_across_wraps() {
    let mut ring: RingBuffer<u8> = RingBuffer::new_static::<5>();
    let producer = ProducerHandle::new(&mut ring, PayloadSize::new(1, 3), false);
    let a = ConsumerHandle::new(&mut ring, PayloadSize::new(1, 2), true);
    let b = ConsumerHandle::new(&mut ring, PayloadSize::new(1, 4), true);
    assert_eq!(a.id, 0);
    assert_eq!(b.id, 1);

    let mut next: u8 = 0;
    let mut seen_a: Vec<u8> = Vec::new();
    let mut seen_b: Vec<u8> = Vec::new();
    for round in 0..20 {
        if let Some(mut w) = producer.acquire_write(&ring, 3) {
            for i in 0..w.len() {
                w.set(i, next);
                next += 1;
            }
            w.commit_all();
            write(&mut ring, &producer, w);
        }
        if let Some(mut r) = a.acquire_read(&ring, 2) {
            seen_a.extend_from_slice(r.as_slice());
            r.commit_all();
            a.release_read(&mut ring, r.metadata(), r.consumed_len());
        }
        if round % 2 == 0 {
            if let Some(mut r) = b.acquire_read(&ring, 4) {
                seen_b.extend_from_slice(r.as_slice());
                r.commit_all();
                b.release_read(&mut ring, r.metadata(), r.consumed_len());
            }
        }
    }
    let expected_a: Vec<u8> = (0..seen_a.len() as u8).collect();
    let expected_b: Vec<u8> = (0..seen_b.len() as u8).collect();
    assert_eq!(seen_a, expected_a);
    assert_eq!(seen_b, expected_b);
    assert!(seen_b.len() > 5);
}

#[test]
fn partial_read_leaves_the_rest_unread() {
    let mut ring: RingBuffer<u8> = RingBuffer::new_static::<8>();
    let producer = ProducerHandle::new(&mut ring, PayloadSize::new(1, 6), false);
    let consumer = ConsumerHandle::new(&mut ring, PayloadSize::new(1, 6), false);

    let mut w = producer.acquire_write(&ring, 6).expect("room");
    for i in 0..6 {
        w.set(i, 10 + i as u8);
    }
    w.commit_all();
    write(&mut ring, &producer, w);

    let mut r = consumer.acquire_read(&ring, 6).expect("data");
    r.commit(2);
    consumer.release_read(&mut ring, r.metadata(), r.consumed_len());

    let r2 = consumer.acquire_read(&ring, 6).expect("data");
    assert_eq!(r2.as_slice(), &[12, 13, 14, 15]);
}

#[test]
fn reads_stop_at_the_end_of_the_ring() {
    let mut ring: RingBuffer<u8> = RingBuffer::new_static::<6>();
    let producer = ProducerHandle::new(&mut ring, PayloadSize::new(1, 4), false);
    let consumer = ConsumerHandle::new(&mut ring, PayloadSize::new(1, 4), true);

    let mut w = producer.acquire_write(&ring, 4).expect("room");
    w.fill(1);
    w.commit_all();
    write(&mut ring, &producer, w);
    read_all(&mut ring, &consumer, 4);

    // Two slots remain before the end of the ring: a write of four gets two.
    let mut w = producer.acquire_write(&ring, 4).expect("room");
    assert_eq!(w.len(), 2);
    w.fill(7);
    w.commit_all();
    write(&mut ring, &producer, w);
    let mut w = producer.acquire_write(&ring, 4).expect("room");
    assert_eq!(w.len(), 4);
    w.fill(8);
    w.commit_all();
    write(&mut ring, &producer, w);

    let (first, _) = read_all(&mut ring, &consumer, 6);
    assert_eq!(first, vec![7, 7]);
    let (second, _) = read_all(&mut ring, &consumer, 6);
    assert_eq!(second, vec![8, 8, 8, 8]);
}

#[test]
fn nothing_to_read_before_a_write() {
    let mut ring: RingBuffer<u8> = RingBuffer::new_heap(4);
    let _producer = ProducerHandle::new(&mut ring, PayloadSize::new(1, 4), false);
    let consumer = ConsumerHandle::new(&mut ring, PayloadSize::new(1, 4), true);
    assert!(consumer.acquire_read(&ring, 4).is_none());
}

#[test]
fn packet_boundary_positions() {
    let mut b = PacketBoundary::new();
    assert_eq!(b.calculate_position(0, 5), (Position::Middle, 5));
    b.update(Position::Single, 3, 4);
    assert_eq!(b.calculate_position(3, 10), (Position::Single, 4));
    assert_eq!(b.calculate_position(4, 10), (Position::Last, 3));
    assert_eq!(b.calculate_position(3, 2), (Position::First, 2));
    b.update(Position::First, 10, 2);
    assert_eq!(b.calculate_position(10, 6), (Position::First, 6));
    b.update(Position::Middle, 12, 2);
    assert_eq!(b.calculate_position(10, 6), (Position::First, 6));
    b.update(Position::Last, 14, 2);
    assert_eq!(b.calculate_position(10, 6), (Position::Single, 6));
    assert_eq!(b.calculate_position(10, 9), (Position::Single, 6));
}

#[test]
fn packet_markers_fit_on_a_fresh_ring() {
    let mut ring: RingBuffer<u8> = RingBuffer::new_static::<16>();
    let _producer = ProducerHandle::new(&mut ring, PayloadSize::new(4, 4), false);
    assert!(ring.markers_fit_now(Position::Single, 4));
    assert!(ring.markers_fit_now(Position::Middle, 16));
    assert!(!ring.markers_fit_now(Position::Last, u32::MAX as usize));
}
