use rivulets::registry::{ParticipantRegistry, Registration, MAX_CONSUMERS};

#[test]
fn registration_fields_are_independent() {
    let r = Registration::new();
    assert!(!r.producer());
    assert!(!r.transformer());
    assert_eq!(r.consumer_count(), 0);
    assert_eq!(r.into_bits(), 0);

    let r = r.with_producer(true).with_consumer_count(5).with_transformer(true);
    assert!(r.producer());
    assert!(r.transformer());
    assert_eq!(r.consumer_count(), 5);
    assert_eq!(r.into_bits(), 1 + 2 + 4 * 5);

    let r = r.with_producer(false);
    assert!(!r.producer());
    assert!(r.transformer());
    assert_eq!(r.consumer_count(), 5);
    let r = r.with_consumer_count(63).with_transformer(false);
    assert!(!r.transformer());
    assert_eq!(r.consumer_count(), 63);
    assert_eq!(r.into_bits(), 252);
}

#[test]
fn registration_bytes_round_trip() {
    for b in 0..=255u8 {
        let r = Registration::from_bits(b);
        assert_eq!(r.into_bits(), b);
        let via_from: Registration = Registration::from(b);
        assert_eq!(via_from, r);
        assert_eq!(u8::from(r), b);
        assert_eq!(r.producer(), b & 1 == 1);
        assert_eq!(r.transformer(), b & 2 == 2);
        assert_eq!(r.consumer_count(), b >> 2);
    }
}

#[test]
fn consumers_get_sequential_ids() {
    let mut reg: ParticipantRegistry<u32, u64, ()> = ParticipantRegistry::new();
    for i in 0..MAX_CONSUMERS {
        let id = reg.register_consumer(100 + i as u64);
        assert_eq!(id as usize, i);
        assert_eq!(reg.registration().consumer_count() as usize, i + 1);
    }
    assert_eq!(*reg.consumer_state(3), 103);
    reg.set_consumer_state(3, 7);
    assert_eq!(*reg.consumer_state(3), 7);
    reg.register_producer(42);
    assert_eq!(*reg.producer_state(), 42);
    reg.register_transformer(());
    let r = reg.registration();
    assert!(r.producer() && r.transformer());
    assert_eq!(r.consumer_count() as usize, MAX_CONSUMERS);
}

#[test]
fn marking_reports_when_every_consumer_finished() {
    let mut reg: ParticipantRegistry<bool, (), ()> = ParticipantRegistry::new();
    reg.register_consumer(());
    reg.register_consumer(());
    reg.register_consumer(());
    assert!(!reg.is_consumer_finished(1));
    assert!(!reg.mark_consumer_as_finished(1));
    assert!(reg.is_consumer_finished(1));
    assert!(!reg.is_consumer_finished(0));
    assert!(!reg.mark_consumer_as_finished(1));
    assert!(!reg.mark_consumer_as_finished(2));
    assert!(reg.mark_consumer_as_finished(0));
    reg.reset_consumers_finished();
    assert!(!reg.is_consumer_finished(0));
    assert!(!reg.is_consumer_finished(2));
}

#[test]
fn marking_without_consumers_never_completes() {
    let mut reg: ParticipantRegistry<bool, (), ()> = ParticipantRegistry::new();
    assert!(!reg.mark_consumer_as_finished(0));
}

#[test]
fn eight_consumers_use_the_whole_mask() {
    let mut reg: ParticipantRegistry<bool, (), ()> = ParticipantRegistry::new();
    for _ in 0..8 {
        reg.register_consumer(());
    }
    for id in 0..7u8 {
        assert!(!reg.mark_consumer_as_finished(id));
    }
    assert!(reg.mark_consumer_as_finished(7));
}
