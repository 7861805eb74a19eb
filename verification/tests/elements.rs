use rivulets::config::StandardConfig;
use rivulets::element::{ElementType, ProcessStatus};
use rivulets::elements::cast::Cast;
use rivulets::elements::constant::Constant;
use rivulets::elements::gain::Gain;
use rivulets::elements::map::{Config as MapConfig, Mapper};
use rivulets::format::{EmptyFormat, Format};
use rivulets::payload::{Metadata, Position, ReadPayload, TransformPayload, WritePayload};
use rivulets::port::PayloadSize;

#[test]
fn constant_fills_whole_window() {
    let mut c = Constant::new(7i16, EmptyFormat, StandardConfig::new(4));
    assert_eq!(Constant::<EmptyFormat, i16>::TYPE, ElementType::Source);
    assert_eq!(c.items_per_process(), 4);
    assert_eq!(c.get_in_format(), None);
    assert_eq!(c.get_out_format(), Some(EmptyFormat));
    assert_eq!(c.available(), u32::MAX);
    let reqs = c.get_port_requirements();
    assert_eq!(reqs.in_, None);
    assert_eq!(reqs.out, Some(PayloadSize::new(1, 4)));
    assert!(!reqs.in_place && !reqs.strict_alloc && !reqs.consume_all);
    let mut w = WritePayload::new(vec![0i16; 3]);
    assert_eq!(c.process(&mut w), Ok(ProcessStatus::Fine));
    assert_eq!(w.as_slice(), &[7, 7, 7]);
    assert_eq!(w.written_len(), 3);
}

#[test]
fn gain_scales_in_place() {
    let mut g = Gain::new(3i32, EmptyFormat, StandardConfig::default());
    assert_eq!(g.items_per_process(), 64);
    let reqs = g.get_port_requirements();
    assert_eq!(reqs.out, Some(PayloadSize::new(1, 64)));
    assert!(reqs.in_place && reqs.consume_all && reqs.in_.is_none());
    let mut p = TransformPayload::new(vec![1, -2, 5], Metadata::new(Position::First));
    assert_eq!(g.process(&mut p), Ok(ProcessStatus::Fine));
    assert_eq!(p.as_slice(), &[3, -6, 15]);
    assert_eq!(p.transformed_len(), 3);
    assert_eq!(p.metadata().position, Position::First);
    g.set_factor(-1);
    g.process(&mut p).unwrap();
    assert_eq!(p.as_slice(), &[-3, 6, -15]);
}

#[test]
fn mapper_applies_function() {
    let mut m = Mapper::new(|x: u8| x / 2 + 1, EmptyFormat, MapConfig::default());
    assert_eq!(m.items_per_process(), 64);
    assert!(m.get_port_requirements().in_place);
    let mut p = TransformPayload::new(vec![0u8, 10, 255], Metadata::default());
    assert_eq!(m.process(&mut p), Ok(ProcessStatus::Fine));
    assert_eq!(p.as_slice(), &[1, 6, 128]);
    assert_eq!(p.transformed_len(), 3);
}

#[test]
fn cast_converts_and_carries_position() {
    let mut c: Cast<i32, u8, EmptyFormat> = Cast::new(EmptyFormat, StandardConfig::new(8));
    let reqs = c.get_port_requirements();
    assert_eq!(reqs.in_, Some(PayloadSize::new(1, 8)));
    assert_eq!(reqs.out, Some(PayloadSize::new(1, 8)));
    assert!(reqs.consume_all && !reqs.in_place);
    let mut r = ReadPayload::new(vec![1i32, 256 + 2, -1], Metadata::new(Position::Last));
    let mut w = WritePayload::new(vec![9u8; 5]);
    assert_eq!(c.process(&mut r, &mut w), Ok(ProcessStatus::Fine));
    assert_eq!(w.as_slice(), &[1, 2, 255, 9, 9]);
    assert_eq!(w.written_len(), 3);
    assert_eq!(r.consumed_len(), 3);
    assert_eq!(w.metadata().position, Position::Last);
}

#[test]
fn empty_format_is_mono() {
    assert!(EmptyFormat.is_mono());
    assert_eq!(EmptyFormat.channel_count(), 1);
    assert!(EmptyFormat.valid());
}
