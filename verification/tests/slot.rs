use rivulets::databus::{ConsumerHandle, Databus, ProducerHandle, TransformerHandle};
use rivulets::payload::{Metadata, Position};
use rivulets::port::PayloadSize;
use rivulets::slot::{State, Slot};

#[test]
fn test_producer_consumer_flow_no_transformer() {
    let mut slot: Slot<u8> = Slot::new_static::<8>();
    let producer = ProducerHandle::new(&mut slot, PayloadSize::new(4, 4), false);
    let consumer = ConsumerHandle::new(&mut slot, PayloadSize::new(4, 4), true);

    assert!(consumer.acquire_read(&slot, 8).is_none());

    let mut write_payload = producer.acquire_write(&mut slot, 8).expect("empty slot");
    assert_eq!(slot.current_state(), State::Writing);
    for (i, v) in [1, 2, 3, 4].iter().enumerate() {
        write_payload.set(i, *v);
    }
    write_payload.commit(4);
    producer.release_write(&mut slot, write_payload.metadata(), write_payload.written_len(), write_payload.as_slice());
    assert_eq!(slot.current_state(), State::ReadyForRead);

    let mut payload = consumer.acquire_read(&slot, 8).expect("published");
    assert_eq!(payload.len(), 4);
    assert_eq!(payload.as_slice(), &[1, 2, 3, 4]);
    payload.commit_all();
    consumer.release_read(&mut slot, payload.metadata(), payload.consumed_len());
    assert_eq!(slot.current_state(), State::Empty);
}

#[test]
fn test_full_pipeline_flow_with_transformer_heap() {
    let mut slot: Slot<u8> = Slot::new_heap(8);
    let producer = ProducerHandle::new(&mut slot, PayloadSize::new(4, 4), false);
    let transformer = TransformerHandle::new(&mut slot, PayloadSize::new(4, 4), false, true);
    let consumer = ConsumerHandle::new(&mut slot, PayloadSize::new(4, 4), true);

    let mut write_payload = producer.acquire_write(&mut slot, 8).expect("empty slot");
    for (i, v) in [1, 2, 3, 4].iter().enumerate() {
        write_payload.set(i, *v);
    }
    write_payload.commit(4);
    producer.release_write(&mut slot, write_payload.metadata(), write_payload.written_len(), write_payload.as_slice());
    assert_eq!(slot.current_state(), State::Full);
    assert!(consumer.acquire_read(&slot, 8).is_none());

    let mut payload = transformer.acquire_transform(&mut slot, 8).expect("written");
    assert_eq!(payload.as_slice(), &[1, 2, 3, 4]);
    for i in 0..payload.len() {
        let v = payload.as_slice()[i];
        payload.set(i, v + 10);
    }
    payload.commit_all();
    transformer.release_transform(&mut slot, payload.metadata(), payload.transformed_len(), payload.as_slice());
    assert_eq!(slot.current_state(), State::ReadyForRead);

    let mut read = consumer.acquire_read(&slot, 8).expect("published");
    assert_eq!(read.len(), 4);
    assert_eq!(read.as_slice(), &[11, 12, 13, 14]);
    read.commit_all();
    consumer.release_read(&mut slot, read.metadata(), read.consumed_len());
    assert_eq!(slot.current_state(), State::Empty);
}

#[test]
fn test_consumer_waits_for_transformer_when_configured() {
    let mut slot: Slot<u8> = Slot::new_static::<8>();
    let producer = ProducerHandle::new(&mut slot, PayloadSize::new(4, 4), false);
    let _transformer = TransformerHandle::new(&mut slot, PayloadSize::new(4, 4), false, true);
    let consumer = ConsumerHandle::new(&mut slot, PayloadSize::new(4, 4), true);

    let mut write_payload = producer.acquire_write(&mut slot, 4).expect("empty slot");
    write_payload.commit_all();
    producer.release_write(&mut slot, write_payload.metadata(), write_payload.written_len(), write_payload.as_slice());
    assert_eq!(slot.current_state(), State::Full);

    assert!(consumer.acquire_read(&slot, 4).is_none(), "Consumer did not wait for transformer and acquired the slot early");
}

#[test]
fn test_two_consumers_flow() {
    let mut slot: Slot<u8> = Slot::new_static::<8>();
    let producer = ProducerHandle::new(&mut slot, PayloadSize::new(4, 4), false);
    let consumer1 = ConsumerHandle::new(&mut slot, PayloadSize::new(4, 4), true);
    let consumer2 = ConsumerHandle::new(&mut slot, PayloadSize::new(4, 4), true);

    let mut write_payload = producer.acquire_write(&mut slot, 4).expect("empty slot");
    for (i, v) in [10, 20, 30, 40].iter().enumerate() {
        write_payload.set(i, *v);
    }
    write_payload.commit(4);
    producer.release_write(&mut slot, write_payload.metadata(), write_payload.written_len(), write_payload.as_slice());
    assert_eq!(slot.current_state(), State::ReadyForRead);

    let mut p1 = consumer1.acquire_read(&slot, 4).expect("published");
    assert_eq!(p1.as_slice(), &[10, 20, 30, 40]);
    p1.commit_all();
    consumer1.release_read(&mut slot, p1.metadata(), p1.consumed_len());

    // One consumer finished, but one remains, so the slot stays published.
    assert_eq!(slot.current_state(), State::ReadyForRead);
    assert!(consumer1.acquire_read(&slot, 4).is_none());

    let mut p2 = consumer2.acquire_read(&slot, 4).expect("published");
    assert_eq!(p2.as_slice(), &[10, 20, 30, 40]);
    p2.commit_all();
    consumer2.release_read(&mut slot, p2.metadata(), p2.consumed_len());

    assert_eq!(slot.current_state(), State::Empty);
}

#[test]
fn producer_waits_while_the_slot_is_in_use() {
    let mut slot: Slot<u8> = Slot::new_static::<4>();
    let producer = ProducerHandle::new(&mut slot, PayloadSize::new(4, 4), false);
    let consumer = ConsumerHandle::new(&mut slot, PayloadSize::new(4, 4), true);

    let w = producer.acquire_write(&mut slot, 4).expect("empty slot");
    assert!(producer.acquire_write(&mut slot, 4).is_none());
    producer.release_write(&mut slot, Metadata::new(Position::Single), 2, w.as_slice());
    assert!(producer.acquire_write(&mut slot, 4).is_none());
    assert_eq!(slot.get_current_metadata(), Some(Metadata::new(Position::Single)));

    let mut r = consumer.acquire_read(&slot, 4).expect("published");
    assert_eq!(r.len(), 2);
    assert_eq!(r.position(), Position::Single);
    r.commit_all();
    consumer.release_read(&mut slot, r.metadata(), r.consumed_len());
    assert!(producer.acquire_write(&mut slot, 4).is_some());
}

#[test]
fn write_window_is_cut_to_the_slot() {
    let mut slot: Slot<u8> = Slot::new_static::<4>();
    let producer = ProducerHandle::new(&mut slot, PayloadSize::new(4, 4), false);
    let w = producer.acquire_write(&mut slot, 10).expect("empty slot");
    assert_eq!(w.len(), 4);
}

#[test]
fn registration_rules_of_a_slot() {
    let mut slot: Slot<u8> = Slot::new_static::<4>();
    assert!(!slot.can_register_consumer(PayloadSize::new(1, 4), false));
    assert!(slot.can_register_consumer(PayloadSize::new(1, 4), true));
    assert!(!slot.can_register_transformer(PayloadSize::new(1, 4), false, false));
    assert!(slot.can_register_transformer(PayloadSize::new(1, 4), false, true));
    let _t = TransformerHandle::new(&mut slot, PayloadSize::new(1, 4), false, true);
    assert!(!slot.can_register_transformer(PayloadSize::new(1, 4), false, true));
    assert!(slot.can_register_producer(PayloadSize::new(1, 4), false));
    let _p = ProducerHandle::new(&mut slot, PayloadSize::new(1, 4), false);
    assert!(!slot.can_register_producer(PayloadSize::new(1, 4), false));
    for i in 0..8u8 {
        let c = ConsumerHandle::new(&mut slot, PayloadSize::new(1, 4), true);
        assert_eq!(c.id, i);
    }
    assert!(!slot.can_register_consumer(PayloadSize::new(1, 4), true));
}

#[test]
fn state_codes_round_trip() {
    for s in [State::Empty, State::Writing, State::Full, State::Transforming, State::ReadyForRead] {
        let b: u8 = s.into();
        assert_eq!(State::try_from(b), Ok(s));
    }
    assert_eq!(u8::from(State::ReadyForRead), 4);
    assert_eq!(State::try_from(5u8), Err(()));
}
