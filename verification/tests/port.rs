use rivulets::port::{Dmy, InPlacePort, InPort, OutPort, PayloadSize, PortRequirements};

#[test]
fn requirement_constructors() {
    let a = PayloadSize::new(1, 64);
    let b = PayloadSize::new(2, 32);
    assert_eq!(a.min, 1);
    assert_eq!(a.preferred, 64);
    let r = PortRequirements::new(Some(a), None, true, false, true);
    assert_eq!(r.in_, Some(a));
    assert_eq!(r.out, None);
    assert!(r.in_place && !r.strict_alloc && r.consume_all);
    let p = PortRequirements::new_payload_to_payload(a, b, true, false);
    assert_eq!((p.in_, p.out, p.in_place, p.strict_alloc, p.consume_all), (Some(a), Some(b), false, true, false));
    let t = PortRequirements::new_in_place(b, false, true);
    assert_eq!((t.in_, t.out, t.in_place, t.strict_alloc, t.consume_all), (None, Some(b), true, false, true));
    let s = PortRequirements::sink(a, true);
    assert_eq!((s.in_, s.out, s.in_place, s.strict_alloc, s.consume_all), (Some(a), None, false, true, false));
    let src = PortRequirements::source(b, false);
    assert_eq!((src.in_, src.out, src.in_place, src.strict_alloc, src.consume_all), (None, Some(b), false, false, false));
}

#[test]
fn ports() {
    let none: InPort<Dmy<u8>> = InPort::new_none();
    assert!(matches!(none, InPort::NotConnected));
    let d: InPort<Dmy<u8>> = InPort::default();
    assert!(matches!(d, InPort::NotConnected));
    let out: OutPort<Dmy<f32>> = OutPort::new_none();
    assert!(matches!(out, OutPort::NotConnected));
    let ip: InPlacePort<Dmy<u8>> = InPlacePort::new_none();
    assert!(matches!(ip, InPlacePort::NotConnected));
    let ip2: InPlacePort<Dmy<u8>> = InPlacePort::default();
    assert!(matches!(ip2, InPlacePort::NotConnected));

    let connected: InPort<u32> = InPort::Consumer(7);
    assert_eq!(*connected.consumer_ref(), 7);
    assert_eq!(connected.unwrap(), 7);
    let produced: OutPort<u32> = OutPort::Producer(9);
    assert_eq!(*produced.producer_ref(), 9);
    assert_eq!(produced.unwrap(), 9);
    let _dummy: Dmy<u16> = Dmy::new();
}
