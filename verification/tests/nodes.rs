use rivulets::config::StandardConfig;
use rivulets::databus::Databus;
use rivulets::format::EmptyFormat;
use rivulets::nodes::channel_splitter::{ChannelSplitter2, Config as ChannelConfig};
use rivulets::nodes::mixer::{Config as MixerConfig, Mixer2};
use rivulets::nodes::splitter::Splitter2;
use rivulets::payload::{Metadata, Position, ReadPayload, WritePayload};
use rivulets::port::PayloadSize;
use rivulets::ring_buffer::RingBuffer;
use rivulets::slot::Slot;

#[test]
fn mixer_sums_inputs() {
    let mut in1: Slot<i16> = Slot::new_static::<8>();
    let mut in2: Slot<i16> = Slot::new_static::<8>();
    let mut out: RingBuffer<i16> = RingBuffer::new_static::<8>();
    let mixer: Mixer2<Slot<i16>, Slot<i16>, RingBuffer<i16>, EmptyFormat, i16> =
        Mixer2::new(&mut in1, &mut in2, &mut out, EmptyFormat, MixerConfig::default());
    assert_eq!(mixer.items_per_process(), 64);
    assert_eq!(mixer.consumer_1().id, 0);
    assert_eq!(mixer.consumer_2().id, 0);
    assert!(!out.can_register_producer(PayloadSize::new(1, 64), false));

    let mut r1 = ReadPayload::new(vec![1i16, 2, 3], Metadata::new(Position::First));
    let mut r2 = ReadPayload::new(vec![10i16, 20, 30], Metadata::new(Position::Last));
    let mut w = WritePayload::new(vec![0i16; 4]);
    mixer.mix(&mut r1, &mut r2, &mut w);
    assert_eq!(w.as_slice(), &[11, 22, 33, 0]);
    assert_eq!(w.written_len(), 3);
    assert_eq!(r1.consumed_len(), 3);
    assert_eq!(r2.consumed_len(), 3);
    assert_eq!(w.metadata().position, Position::First);
}

#[test]
fn mixer_with_unequal_inputs_takes_the_shorter() {
    let mut in1: Slot<u32> = Slot::new_static::<8>();
    let mut in2: RingBuffer<u32> = RingBuffer::new_static::<8>();
    let mut out: Slot<u32> = Slot::new_static::<8>();
    let config = MixerConfig { prefer_items_per_process: 4, equicvalent_inputs: false };
    let mixer: Mixer2<Slot<u32>, RingBuffer<u32>, Slot<u32>, EmptyFormat, u32> =
        Mixer2::new(&mut in1, &mut in2, &mut out, EmptyFormat, config);
    let mut r1 = ReadPayload::new(vec![1u32, 2, 3], Metadata::default());
    let mut r2 = ReadPayload::new(vec![5u32], Metadata::default());
    let mut w = WritePayload::new(vec![0u32; 4]);
    mixer.mix(&mut r1, &mut r2, &mut w);
    assert_eq!(w.as_slice(), &[6, 0, 0, 0]);
    assert_eq!(w.written_len(), 1);
    assert_eq!(r1.consumed_len(), 1);
}

#[test]
fn splitter_duplicates() {
    let mut input: RingBuffer<u8> = RingBuffer::new_static::<8>();
    let mut out1: Slot<u8> = Slot::new_static::<8>();
    let mut out2: RingBuffer<u8> = RingBuffer::new_static::<8>();
    let splitter: Splitter2<RingBuffer<u8>, Slot<u8>, RingBuffer<u8>, EmptyFormat, u8> =
        Splitter2::new(&mut input, &mut out1, &mut out2, EmptyFormat, StandardConfig::new(4));
    assert_eq!(splitter.consumer().id, 0);
    let mut r = ReadPayload::new(vec![4u8, 5], Metadata::new(Position::Single));
    let mut w1 = WritePayload::new(vec![0u8; 3]);
    let mut w2 = WritePayload::new(vec![1u8; 2]);
    splitter.split(&mut r, &mut w1, &mut w2);
    assert_eq!(w1.as_slice(), &[4, 5, 0]);
    assert_eq!(w2.as_slice(), &[4, 5]);
    assert_eq!((r.consumed_len(), w1.written_len(), w2.written_len()), (2, 2, 2));
    assert_eq!(w1.metadata().position, Position::Single);
    assert_eq!(w2.metadata().position, Position::Single);
}

#[test]
fn channel_splitter_duplicates() {
    let mut input: Slot<u8> = Slot::new_static::<8>();
    let mut out1: Slot<u8> = Slot::new_static::<8>();
    let mut out2: Slot<u8> = Slot::new_static::<8>();
    let node: ChannelSplitter2<Slot<u8>, Slot<u8>, Slot<u8>, EmptyFormat, u8> =
        ChannelSplitter2::new(&mut input, &mut out1, &mut out2, EmptyFormat, ChannelConfig::default());
    assert_eq!(node.items_per_process(), 64);
    let mut r = ReadPayload::new(vec![3u8], Metadata::new(Position::Middle));
    let mut w1 = WritePayload::new(vec![0u8; 1]);
    let mut w2 = WritePayload::new(vec![0u8; 1]);
    node.duplicate(&mut r, &mut w1, &mut w2);
    assert_eq!(w1.as_slice(), &[3]);
    assert_eq!(w2.as_slice(), &[3]);
    assert_eq!(r.consumed_len(), 1);
}
