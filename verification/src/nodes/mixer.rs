//! A node that sums two input streams into one output stream.
use vstd::prelude::*;
use vstd::std_specs::ops::AddSpec;
use crate::databus::{ConsumerHandle, Databus, ProducerHandle};
use crate::format::Format;
use crate::payload::{ReadPayload, WritePayload};
use crate::port::PayloadSize;

verus! {

/// The configuration of a mixer.
#[derive(Debug, Clone, Copy, PartialEq, Eq, Structural)]
pub struct Config {
    pub prefer_items_per_process: u16,
    /// Whether both inputs always deliver payloads of the same length.
    pub equicvalent_inputs: bool,
}

impl Default for Config {
    fn default() -> (r: Self)
        ensures
            r == (Config { prefer_items_per_process: 64, equicvalent_inputs: true }),
    {
        Config { prefer_items_per_process: 64, equicvalent_inputs: true }
    }
}

/// How many items a mixing step processes for inputs of `len1` and `len2` items.
pub open spec fn mix_len(config: Config, len1: int, len2: int) -> int {
    if config.equicvalent_inputs || len1 <= len2 { len1 } else { len2 }
}

/// A step mixes the whole first input when the inputs are equivalent, and
/// otherwise exactly as many items as the shorter input holds: never more than
/// either input, and all of one of them.
pub proof fn lemma_mix_len(config: Config, len1: int, len2: int)
    ensures
        config.equicvalent_inputs ==> mix_len(config, len1, len2) == len1,
        !config.equicvalent_inputs ==> {
            &&& mix_len(config, len1, len2) <= len1
            &&& mix_len(config, len1, len2) <= len2
            &&& (mix_len(config, len1, len2) == len1 || mix_len(config, len1, len2) == len2)
        },
{
}

/// A node that mixes (sums) two input streams into one output stream.
pub struct Mixer2<D1, D2, DO, F, T> {
    consumer_1: ConsumerHandle<D1>,
    consumer_2: ConsumerHandle<D2>,
    producer: ProducerHandle<DO>,
    format: F,
    config: Config,
    marker: core::marker::PhantomData<T>,
}

impl<D1: Databus, D2: Databus, DO: Databus, F: Format, T: Copy + core::ops::Add<Output = T>> Mixer2<D1, D2, DO, F, T> {
    pub closed spec fn config_of(&self) -> Config {
        self.config
    }

    pub closed spec fn consumer_1_id(&self) -> u8 {
        self.consumer_1.id
    }

    pub closed spec fn consumer_2_id(&self) -> u8 {
        self.consumer_2.id
    }

    /// Registers as a consumer on both inputs (consuming whole payloads when the
    /// inputs are equivalent) and as a non-strict producer on the output.
    pub fn new(databus_in_1: &mut D1, databus_in_2: &mut D2, databus_out: &mut DO, format: F, config: Config) -> (r: Self)
        requires
            old(databus_in_1).wf(),
            old(databus_in_2).wf(),
            old(databus_out).wf(),
            old(databus_in_1).accepts_consumer(PayloadSize::new_spec(1, config.prefer_items_per_process), config.equicvalent_inputs),
            old(databus_in_2).accepts_consumer(PayloadSize::new_spec(1, config.prefer_items_per_process), config.equicvalent_inputs),
            old(databus_out).accepts_producer(PayloadSize::new_spec(1, config.prefer_items_per_process), false),
        ensures
            final(databus_in_1).wf(),
            final(databus_in_2).wf(),
            final(databus_out).wf(),
            r.config_of() == config,
            r.consumer_1_id() == old(databus_in_1).registration_of().count(),
            r.consumer_2_id() == old(databus_in_2).registration_of().count(),
            final(databus_in_1).registration_of().count() == old(databus_in_1).registration_of().count() + 1,
            final(databus_in_2).registration_of().count() == old(databus_in_2).registration_of().count() + 1,
            final(databus_out).registration_of().has_producer(),
            final(databus_in_1).registration_of().has_producer() == old(databus_in_1).registration_of().has_producer(),
            final(databus_in_1).registration_of().has_transformer() == old(databus_in_1).registration_of().has_transformer(),
            final(databus_in_2).registration_of().has_producer() == old(databus_in_2).registration_of().has_producer(),
            final(databus_in_2).registration_of().has_transformer() == old(databus_in_2).registration_of().has_transformer(),
            final(databus_out).registration_of().has_transformer() == old(databus_out).registration_of().has_transformer(),
            final(databus_out).registration_of().count() == old(databus_out).registration_of().count(),
            old(databus_in_1).consumer_registered(&*final(databus_in_1), PayloadSize::new_spec(1, config.prefer_items_per_process), config.equicvalent_inputs),
            old(databus_in_2).consumer_registered(&*final(databus_in_2), PayloadSize::new_spec(1, config.prefer_items_per_process), config.equicvalent_inputs),
            old(databus_out).producer_registered(&*final(databus_out), PayloadSize::new_spec(1, config.prefer_items_per_process), false),
    {
        let payload_size = PayloadSize::new(1, config.prefer_items_per_process);
        let strict_alloc = false;
        let consume_all = config.equicvalent_inputs;
        let consumer_1 = ConsumerHandle::new(databus_in_1, payload_size, consume_all);
        let consumer_2 = ConsumerHandle::new(databus_in_2, payload_size, consume_all);
        let producer = ProducerHandle::new(databus_out, payload_size, strict_alloc);
        Mixer2 { consumer_1, consumer_2, producer, format, config, marker: core::marker::PhantomData }
    }

    pub fn consumer_1(&self) -> (c: &ConsumerHandle<D1>)
        ensures
            c.id == self.consumer_1_id(),
    {
        &self.consumer_1
    }

    pub fn consumer_2(&self) -> (c: &ConsumerHandle<D2>)
        ensures
            c.id == self.consumer_2_id(),
    {
        &self.consumer_2
    }

    pub fn producer(&self) -> &ProducerHandle<DO> {
        &self.producer
    }

    pub fn config(&self) -> (c: Config)
        ensures
            c == self.config_of(),
    {
        self.config
    }

    /// How many items a step asks the output for; each input is then asked for
    /// as many as the output window holds.
    pub fn items_per_process(&self) -> (n: usize)
        ensures
            n == self.config_of().prefer_items_per_process,
    {
        self.config.prefer_items_per_process as usize
    }

    /// One step: sums the inputs item by item into the front of the output
    /// window, over the length both inputs provide (which must be equal when
    /// the inputs are equivalent), commits that many items of each payload
    /// and gives the output the first input's position.
    pub fn mix(&self, read_payload_1: &mut ReadPayload<T>, read_payload_2: &mut ReadPayload<T>, write_payload: &mut WritePayload<T>)
        requires
            self.config_of().equicvalent_inputs ==> old(read_payload_1).items().len() == old(read_payload_2).items().len(),
            mix_len(self.config_of(), old(read_payload_1).items().len() as int, old(read_payload_2).items().len() as int)
                <= old(write_payload).items().len(),
            forall|i: int| 0 <= i < mix_len(self.config_of(), old(read_payload_1).items().len() as int, old(read_payload_2).items().len() as int)
                ==> #[trigger] old(read_payload_1).items()[i].add_req(old(read_payload_2).items()[i]),
        ensures
            ({
                let process_len = mix_len(self.config_of(), old(read_payload_1).items().len() as int, old(read_payload_2).items().len() as int);
                &&& final(write_payload).items().len() == old(write_payload).items().len()
                &&& forall|i: int| 0 <= i < process_len ==>
                    call_ensures(T::add, (old(read_payload_1).items()[i], old(read_payload_2).items()[i]), #[trigger] final(write_payload).items()[i])
                &&& forall|i: int| process_len <= i < old(write_payload).items().len() ==>
                    #[trigger] final(write_payload).items()[i] == old(write_payload).items()[i]
                &&& final(read_payload_1).consumed() == process_len
                &&& final(read_payload_2).consumed() == process_len
                &&& final(write_payload).written() == process_len
            }),
            final(read_payload_1).items() == old(read_payload_1).items(),
            final(read_payload_2).items() == old(read_payload_2).items(),
            final(write_payload).meta().position == old(read_payload_1).meta().position,
            final(read_payload_1).meta() == old(read_payload_1).meta(),
            final(read_payload_2).meta() == old(read_payload_2).meta(),
    {
        let len1 = read_payload_1.len();
        let len2 = read_payload_2.len();
        let process_len = if self.config.equicvalent_inputs {
            len1
        } else {
            if len1 < len2 { len1 } else { len2 }
        };
        let mut i: usize = 0;
        while i < process_len
            invariant
                process_len <= len1,
                process_len <= len2,
                len1 == read_payload_1.items().len(),
                len2 == read_payload_2.items().len(),
                process_len <= old(write_payload).items().len(),
                write_payload.items().len() == old(write_payload).items().len(),
                i <= process_len,
                *read_payload_1 == *old(read_payload_1),
                *read_payload_2 == *old(read_payload_2),
                forall|j: int| 0 <= j < process_len ==> #[trigger] old(read_payload_1).items()[j].add_req(old(read_payload_2).items()[j]),
                forall|j: int| 0 <= j < i ==>
                    call_ensures(T::add, (old(read_payload_1).items()[j], old(read_payload_2).items()[j]), #[trigger] write_payload.items()[j]),
                forall|j: int| i <= j < old(write_payload).items().len() ==> #[trigger] write_payload.items()[j] == old(write_payload).items()[j],
                write_payload.meta() == old(write_payload).meta(),
            decreases process_len - i,
        {
            let in1 = read_payload_1.as_slice()[i];
            let in2 = read_payload_2.as_slice()[i];
            let out = in1 + in2;
            write_payload.set(i, out);
            i = i + 1;
        }
        read_payload_1.commit(process_len);
        read_payload_2.commit(process_len);
        write_payload.commit(process_len);
        write_payload.set_position(read_payload_1.position());
    }
}

} // verus!
