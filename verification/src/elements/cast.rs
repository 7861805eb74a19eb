//! A processor that converts items from one primitive type to another.
use vstd::prelude::*;
use crate::config::StandardConfig;
use crate::element::{ElementType, ProcessStatus};
use crate::format::Format;
use crate::payload::{ReadPayload, WritePayload};
use crate::port::{PayloadSize, PortRequirements};

verus! {

pub type Config = StandardConfig;

/// Converts one item with `num_traits::AsPrimitive::as_`, which performs the
/// primitive `as` conversion from `I` to `O`. The contract claims nothing of
/// the value returned: which value `as` gives depends on the two types, and a
/// name for that result would have to be generic.
#[verifier::external_body]
fn as_primitive<I: num_traits::AsPrimitive<O>, O: Copy + 'static>(x: I) -> O {
    x.as_()
}

/// Whether `y` is what converting `x` with `as_primitive` gives.
pub closed spec fn converts_to<I: num_traits::AsPrimitive<O>, O: Copy + 'static>(x: I, y: O) -> bool {
    call_ensures(as_primitive::<I, O>, (x,), y)
}

/// A processor that converts each item from `I` to `O`.
pub struct Cast<I, O, F> {
    format: F,
    config: Config,
    marker: core::marker::PhantomData<(I, O)>,
}

impl<I: Copy + 'static, O: Copy + 'static, F: Format> Cast<I, O, F> {
    pub const TYPE: ElementType = ElementType::Processor;

    pub closed spec fn format_of(&self) -> F {
        self.format
    }

    pub closed spec fn config_of(&self) -> Config {
        self.config
    }

    pub fn new(format: F, config: Config) -> (r: Self)
        ensures
            r.format_of() == format,
            r.config_of() == config,
    {
        Cast { format, config, marker: core::marker::PhantomData }
    }

    pub fn get_in_format(&self) -> (r: Option<F>)
        ensures
            r == Some(self.format_of()),
    {
        Some(self.format)
    }

    pub fn get_out_format(&self) -> (r: Option<F>)
        ensures
            r == Some(self.format_of()),
    {
        Some(self.format)
    }

    /// Reads and writes one to the preferred number of items, consuming whole
    /// read payloads.
    pub fn get_port_requirements(&self) -> (r: PortRequirements)
        ensures
            r == PortRequirements::payload_to_payload_spec(
                PayloadSize::new_spec(1, self.config_of().prefer_items_per_process),
                PayloadSize::new_spec(1, self.config_of().prefer_items_per_process),
                false,
                true,
            ),
    {
        PortRequirements::new_payload_to_payload(
            PayloadSize::new(1, self.config.prefer_items_per_process),
            PayloadSize::new(1, self.config.prefer_items_per_process),
            false,
            true,
        )
    }

    pub fn available(&self) -> (n: u32)
        ensures
            n == u32::MAX,
    {
        u32::MAX
    }

    /// How many items a step asks the output for; the input is then asked for
    /// as many as the output window holds.
    pub fn items_per_process(&self) -> (n: usize)
        ensures
            n == self.config_of().prefer_items_per_process,
    {
        self.config.prefer_items_per_process as usize
    }

}

impl<I: Copy + 'static + num_traits::AsPrimitive<O>, O: Copy + 'static, F: Format> Cast<I, O, F> {
    /// One step: converts every read item into the front of the write window,
    /// consumes the whole read payload, commits as many items as were read,
    /// and carries the read payload's position over.
    pub fn process(&mut self, read_payload: &mut ReadPayload<I>, write_payload: &mut WritePayload<O>) -> (r: Result<ProcessStatus, ()>)
        requires
            old(read_payload).items().len() <= old(write_payload).items().len(),
        ensures
            r == Ok::<ProcessStatus, ()>(ProcessStatus::Fine),
            final(write_payload).items().len() == old(write_payload).items().len(),
            forall|i: int| 0 <= i < old(read_payload).items().len() ==>
                converts_to(old(read_payload).items()[i], #[trigger] final(write_payload).items()[i]),
            forall|i: int| old(read_payload).items().len() <= i < old(write_payload).items().len() ==>
                #[trigger] final(write_payload).items()[i] == old(write_payload).items()[i],
            final(read_payload).items() == old(read_payload).items(),
            final(read_payload).consumed() == old(read_payload).items().len(),
            final(write_payload).written() == old(read_payload).items().len(),
            final(write_payload).meta().position == old(read_payload).meta().position,
            final(read_payload).meta() == old(read_payload).meta(),
            *final(self) == *old(self),
    {
        let actual_len = read_payload.len();
        let mut i: usize = 0;
        while i < actual_len
            invariant
                actual_len == read_payload.items().len(),
                actual_len <= old(write_payload).items().len(),
                write_payload.items().len() == old(write_payload).items().len(),
                i <= actual_len,
                forall|j: int| 0 <= j < i ==> converts_to(old(read_payload).items()[j], #[trigger] write_payload.items()[j]),
                forall|j: int| actual_len <= j < old(write_payload).items().len() ==> #[trigger] write_payload.items()[j] == old(write_payload).items()[j],
                write_payload.meta() == old(write_payload).meta(),
                *read_payload == *old(read_payload),
            decreases actual_len - i,
        {
            let item = read_payload.as_slice()[i];
            let converted = as_primitive::<I, O>(item);
            write_payload.set(i, converted);
            i = i + 1;
        }
        read_payload.commit_all();
        write_payload.commit(actual_len);
        write_payload.set_position(read_payload.position());
        Ok(ProcessStatus::Fine)
    }
}

} // verus!
