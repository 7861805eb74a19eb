//! A node that duplicates one input stream into two output streams.
use vstd::prelude::*;
use crate::config::StandardConfig;
use crate::databus::{ConsumerHandle, Databus, ProducerHandle};
use crate::format::Format;
use crate::payload::{ReadPayload, WritePayload};
use crate::port::PayloadSize;

verus! {

pub type Config = StandardConfig;

/// The windows after a copy of `data` into their front.
pub open spec fn copied_into<T>(window: Seq<T>, data: Seq<T>) -> Seq<T> {
    Seq::new(window.len(), |i: int| if i < data.len() { data[i] } else { window[i] })
}

/// Copies every item of `src` into the front of `dst`.
pub fn copy_into<T: Copy>(src: &ReadPayload<T>, dst: &mut WritePayload<T>)
    requires
        src.items().len() <= old(dst).items().len(),
    ensures
        final(dst).items() == copied_into(old(dst).items(), src.items()),
        final(dst).meta() == old(dst).meta(),
        final(dst).written() == old(dst).written(),
{
    let n = src.len();
    let mut i: usize = 0;
    while i < n
        invariant
            n == src.items().len(),
            n <= old(dst).items().len(),
            i <= n,
            dst.items() == copied_into(old(dst).items(), src.items().take(i as int)),
            dst.meta() == old(dst).meta(),
            dst.written() == old(dst).written(),
        decreases n - i,
    {
        let x = src.as_slice()[i];
        dst.set(i, x);
        i = i + 1;
        assert(dst.items() =~= copied_into(old(dst).items(), src.items().take(i as int)));
    }
    assert(src.items().take(n as int) =~= src.items());
}

/// A node that splits (duplicates) a mono input stream into two output streams.
pub struct Splitter2<DI, DO1, DO2, F, T> {
    consumer: ConsumerHandle<DI>,
    producer1: ProducerHandle<DO1>,
    producer2: ProducerHandle<DO2>,
    format: F,
    config: Config,
    marker: core::marker::PhantomData<T>,
}

impl<DI: Databus, DO1: Databus, DO2: Databus, F: Format, T: Copy> Splitter2<DI, DO1, DO2, F, T> {
    pub closed spec fn config_of(&self) -> Config {
        self.config
    }

    pub closed spec fn consumer_id(&self) -> u8 {
        self.consumer.id
    }

    /// Registers as a consumer of the mono input and as a non-strict producer
    /// on both outputs.
    pub fn new(databus_in: &mut DI, databus_out1: &mut DO1, databus_out2: &mut DO2, in_format: F, config: Config) -> (r: Self)
        requires
            in_format.channels_of() == 1,
            old(databus_in).wf(),
            old(databus_out1).wf(),
            old(databus_out2).wf(),
            old(databus_in).accepts_consumer(PayloadSize::new_spec(1, config.prefer_items_per_process), false),
            old(databus_out1).accepts_producer(PayloadSize::new_spec(1, config.prefer_items_per_process), false),
            old(databus_out2).accepts_producer(PayloadSize::new_spec(1, config.prefer_items_per_process), false),
        ensures
            final(databus_in).wf(),
            final(databus_out1).wf(),
            final(databus_out2).wf(),
            r.config_of() == config,
            r.consumer_id() == old(databus_in).registration_of().count(),
            final(databus_in).registration_of().count() == old(databus_in).registration_of().count() + 1,
            final(databus_out1).registration_of().has_producer(),
            final(databus_out2).registration_of().has_producer(),
            final(databus_in).registration_of().has_producer() == old(databus_in).registration_of().has_producer(),
            final(databus_in).registration_of().has_transformer() == old(databus_in).registration_of().has_transformer(),
            final(databus_out1).registration_of().has_transformer() == old(databus_out1).registration_of().has_transformer(),
            final(databus_out1).registration_of().count() == old(databus_out1).registration_of().count(),
            final(databus_out2).registration_of().has_transformer() == old(databus_out2).registration_of().has_transformer(),
            final(databus_out2).registration_of().count() == old(databus_out2).registration_of().count(),
            old(databus_in).consumer_registered(&*final(databus_in), PayloadSize::new_spec(1, config.prefer_items_per_process), false),
            old(databus_out1).producer_registered(&*final(databus_out1), PayloadSize::new_spec(1, config.prefer_items_per_process), false),
            old(databus_out2).producer_registered(&*final(databus_out2), PayloadSize::new_spec(1, config.prefer_items_per_process), false),
    {
        let payload_size = PayloadSize::new(1, config.prefer_items_per_process);
        let consumer = ConsumerHandle::new(databus_in, payload_size, false);
        let producer1 = ProducerHandle::new(databus_out1, payload_size, false);
        let producer2 = ProducerHandle::new(databus_out2, payload_size, false);
        Splitter2 { consumer, producer1, producer2, format: in_format, config, marker: core::marker::PhantomData }
    }

    pub fn consumer(&self) -> (c: &ConsumerHandle<DI>)
        ensures
            c.id == self.consumer_id(),
    {
        &self.consumer
    }

    pub fn producer1(&self) -> &ProducerHandle<DO1> {
        &self.producer1
    }

    pub fn producer2(&self) -> &ProducerHandle<DO2> {
        &self.producer2
    }

    pub fn config(&self) -> (c: Config)
        ensures
            c == self.config_of(),
    {
        self.config
    }

    /// How many items a step asks each output for; the input is then asked for
    /// as many as the smaller output window holds.
    pub fn items_per_process(&self) -> (n: usize)
        ensures
            n == self.config_of().prefer_items_per_process,
    {
        self.config.prefer_items_per_process as usize
    }

    /// One step: copies the read items into the front of both output windows,
    /// commits as many items of each payload as were read, and gives both
    /// outputs the input's position.
    pub fn split(&self, read_payload: &mut ReadPayload<T>, write_payload1: &mut WritePayload<T>, write_payload2: &mut WritePayload<T>)
        requires
            old(read_payload).items().len() <= old(write_payload1).items().len(),
            old(read_payload).items().len() <= old(write_payload2).items().len(),
        ensures
            final(write_payload1).items() == copied_into(old(write_payload1).items(), old(read_payload).items()),
            final(write_payload2).items() == copied_into(old(write_payload2).items(), old(read_payload).items()),
            final(read_payload).items() == old(read_payload).items(),
            final(read_payload).consumed() == old(read_payload).items().len(),
            final(write_payload1).written() == old(read_payload).items().len(),
            final(write_payload2).written() == old(read_payload).items().len(),
            final(write_payload1).meta().position == old(read_payload).meta().position,
            final(write_payload2).meta().position == old(read_payload).meta().position,
            final(read_payload).meta() == old(read_payload).meta(),
    {
        let process_len = read_payload.len();
        copy_into(read_payload, write_payload1);
        copy_into(read_payload, write_payload2);
        read_payload.commit(process_len);
        write_payload1.commit(process_len);
        write_payload2.commit(process_len);
        write_payload1.set_position(read_payload.position());
        write_payload2.set_position(read_payload.position());
    }
}

} // verus!
