//! An in-place transformer that applies a function to every item.
use vstd::prelude::*;
use crate::element::{ElementType, ProcessStatus};
use crate::format::Format;
use crate::payload::TransformPayload;
use crate::port::{PayloadSize, PortRequirements};

verus! {

/// The configuration of a `Mapper` element.
#[derive(Debug, Clone, Copy)]
pub struct Config {
    pub prefer_items_per_process: u16,
}

impl Default for Config {
    fn default() -> (r: Self)
        ensures
            r.prefer_items_per_process == 64,
    {
        Config { prefer_items_per_process: 64 }
    }
}

/// An in-place transformer that replaces every item `x` by `op(x)`.
pub struct Mapper<F, T, Op> {
    op: Op,
    format: F,
    config: Config,
    marker: core::marker::PhantomData<T>,
}

impl<F: Format, T: Copy, Op: Fn(T) -> T> Mapper<F, T, Op> {
    pub const TYPE: ElementType = ElementType::InPlaceTransformer;

    pub closed spec fn op_of(&self) -> Op {
        self.op
    }

    pub closed spec fn format_of(&self) -> F {
        self.format
    }

    pub closed spec fn config_of(&self) -> Config {
        self.config
    }

    pub fn new(op: Op, format: F, config: Config) -> (r: Self)
        ensures
            r.op_of() == op,
            r.format_of() == format,
            r.config_of() == config,
    {
        Mapper { op, format, config, marker: core::marker::PhantomData }
    }

    pub fn get_in_format(&self) -> (r: Option<F>)
        ensures
            r == Some(self.format_of()),
    {
        Some(self.format)
    }

    pub fn get_out_format(&self) -> (r: Option<F>)
        ensures
            r == Some(self.format_of()),
    {
        Some(self.format)
    }

    /// In-place processing of one to the preferred number of items, consuming
    /// whole payloads.
    pub fn get_port_requirements(&self) -> (r: PortRequirements)
        ensures
            r == PortRequirements::in_place_spec(PayloadSize::new_spec(1, self.config_of().prefer_items_per_process), false, true),
    {
        PortRequirements::new_in_place(PayloadSize::new(1, self.config.prefer_items_per_process), false, true)
    }

    pub fn available(&self) -> (n: u32)
        ensures
            n == u32::MAX,
    {
        u32::MAX
    }

    /// How many items a step asks the transformer port for.
    pub fn items_per_process(&self) -> (n: usize)
        ensures
            n == self.config_of().prefer_items_per_process,
    {
        self.config.prefer_items_per_process as usize
    }

    /// One step: replaces every item of the acquired payload by the function's
    /// result on it and commits all of it.
    pub fn process(&mut self, payload: &mut TransformPayload<T>) -> (r: Result<ProcessStatus, ()>)
        requires
            forall|i: int| 0 <= i < old(payload).items().len() ==> call_requires(old(self).op_of(), (#[trigger] old(payload).items()[i],)),
        ensures
            r == Ok::<ProcessStatus, ()>(ProcessStatus::Fine),
            final(payload).items().len() == old(payload).items().len(),
            forall|i: int| 0 <= i < old(payload).items().len() ==>
                call_ensures(old(self).op_of(), (old(payload).items()[i],), #[trigger] final(payload).items()[i]),
            final(payload).transformed() == old(payload).items().len(),
            final(payload).meta() == old(payload).meta(),
            *final(self) == *old(self),
    {
        let n = payload.len();
        let mut i: usize = 0;
        while i < n
            invariant
                n == old(payload).items().len(),
                payload.items().len() == n,
                i <= n,
                forall|j: int| i <= j < n ==> payload.items()[j] == old(payload).items()[j],
                forall|j: int| 0 <= j < n ==> call_requires(self.op_of(), (#[trigger] old(payload).items()[j],)),
                forall|j: int| 0 <= j < i ==> call_ensures(self.op_of(), (old(payload).items()[j],), #[trigger] payload.items()[j]),
                payload.meta() == old(payload).meta(),
            decreases n - i,
        {
            let sample = payload.as_slice()[i];
            assert(sample == old(payload).items()[i as int]);
            let mapped = (self.op)(sample);
            payload.set(i, mapped);
            i = i + 1;
        }
        payload.commit_all();
        Ok(ProcessStatus::Fine)
    }
}

} // verus!
