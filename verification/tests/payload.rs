use rivulets::payload::{Metadata, Position, ReadPayload, TransformPayload, WritePayload};

#[test]
fn commits_are_capped_at_the_payload_length() {
    let mut r = ReadPayload::new(vec![1u8, 2, 3], Metadata::new(Position::First));
    assert_eq!(r.consumed_len(), 0);
    assert_eq!(r.position(), Position::First);
    r.commit(2);
    assert_eq!(r.consumed_len(), 2);
    r.commit(10);
    assert_eq!(r.consumed_len(), 3);
    r.commit(0);
    assert_eq!(r.consumed_len(), 0);
    r.commit_all();
    assert_eq!(r.consumed_len(), 3);

    let mut w = WritePayload::new(vec![0u8; 4]);
    assert_eq!(w.metadata(), Metadata::default());
    assert_eq!(w.metadata().position, Position::Middle);
    w.commit(9);
    assert_eq!(w.written_len(), 4);
    w.commit(1);
    assert_eq!(w.written_len(), 1);
    w.set_position(Position::Last);
    assert_eq!(w.metadata().position, Position::Last);
    w.fill(5);
    w.set(1, 6);
    assert_eq!(w.as_slice(), &[5, 6, 5, 5]);
    w.commit_all();
    assert_eq!(w.written_len(), 4);

    let mut t = TransformPayload::new(vec![9u8, 8], Metadata::new(Position::Single));
    t.commit(5);
    assert_eq!(t.transformed_len(), 2);
    t.commit(1);
    assert_eq!(t.transformed_len(), 1);
    t.set(0, 1);
    assert_eq!(t.as_slice(), &[1, 8]);
    t.commit_all();
    assert_eq!(t.transformed_len(), 2);
    assert_eq!(t.metadata().position, Position::Single);
}

#[test]
fn default_position_is_middle() {
    assert_eq!(Position::default(), Position::Middle);
    assert_eq!(Metadata::default().position, Position::Middle);
}
