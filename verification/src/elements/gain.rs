//! An in-place transformer that scales every item by a factor.
use vstd::prelude::*;
use vstd::std_specs::ops::MulSpec;
use crate::config::StandardConfig;
use crate::element::{ElementType, ProcessStatus};
use crate::format::Format;
use crate::payload::TransformPayload;
use crate::port::{PayloadSize, PortRequirements};

verus! {

pub type Config = StandardConfig;

/// An in-place transformer that multiplies every item by `factor`.
pub struct Gain<F, T> {
    factor: T,
    format: F,
    config: Config,
}

impl<F: Format, T: Copy + core::ops::Mul<Output = T>> Gain<F, T> {
    pub const TYPE: ElementType = ElementType::InPlaceTransformer;

    pub closed spec fn factor_of(&self) -> T {
        self.factor
    }

    pub closed spec fn format_of(&self) -> F {
        self.format
    }

    pub closed spec fn config_of(&self) -> Config {
        self.config
    }

    pub fn new(factor: T, format: F, config: Config) -> (r: Self)
        ensures
            r.factor_of() == factor,
            r.format_of() == format,
            r.config_of() == config,
    {
        Gain { factor, format, config }
    }

    pub fn set_factor(&mut self, factor: T)
        ensures
            final(self).factor_of() == factor,
            final(self).format_of() == old(self).format_of(),
            final(self).config_of() == old(self).config_of(),
    {
        self.factor = factor;
    }

    pub fn get_in_format(&self) -> (r: Option<F>)
        ensures
            r == Some(self.format_of()),
    {
        Some(self.format)
    }

    pub fn get_out_format(&self) -> (r: Option<F>)
        ensures
            r == Some(self.format_of()),
    {
        Some(self.format)
    }

    /// In-place processing of one to the preferred number of items, consuming
    /// whole payloads.
    pub fn get_port_requirements(&self) -> (r: PortRequirements)
        ensures
            r == PortRequirements::in_place_spec(PayloadSize::new_spec(1, self.config_of().prefer_items_per_process), false, true),
    {
        PortRequirements::new_in_place(PayloadSize::new(1, self.config.prefer_items_per_process), false, true)
    }

    pub fn available(&self) -> (n: u32)
        ensures
            n == u32::MAX,
    {
        u32::MAX
    }

    /// How many items a step asks the transformer port for.
    pub fn items_per_process(&self) -> (n: usize)
        ensures
            n == self.config_of().prefer_items_per_process,
    {
        self.config.prefer_items_per_process as usize
    }

    /// One step: multiplies every item of the acquired payload by the factor
    /// and commits all of it.
    pub fn process(&mut self, payload: &mut TransformPayload<T>) -> (r: Result<ProcessStatus, ()>)
        requires
            forall|i: int| 0 <= i < old(payload).items().len() ==> #[trigger] old(payload).items()[i].mul_req(old(self).factor_of()),
        ensures
            r == Ok::<ProcessStatus, ()>(ProcessStatus::Fine),
            final(payload).items().len() == old(payload).items().len(),
            forall|i: int| 0 <= i < old(payload).items().len() ==>
                call_ensures(T::mul, (old(payload).items()[i], old(self).factor_of()), #[trigger] final(payload).items()[i]),
            final(payload).transformed() == old(payload).items().len(),
            final(payload).meta() == old(payload).meta(),
            *final(self) == *old(self),
    {
        let n = payload.len();
        let mut i: usize = 0;
        while i < n
            invariant
                n == old(payload).items().len(),
                payload.items().len() == n,
                i <= n,
                forall|j: int| i <= j < n ==> payload.items()[j] == old(payload).items()[j],
                forall|j: int| 0 <= j < n ==> #[trigger] old(payload).items()[j].mul_req(self.factor_of()),
                forall|j: int| 0 <= j < i ==> call_ensures(T::mul, (old(payload).items()[j], self.factor_of()), #[trigger] payload.items()[j]),
                payload.meta() == old(payload).meta(),
            decreases n - i,
        {
            let sample = payload.as_slice()[i];
            assert(sample == old(payload).items()[i as int]);
            let scaled = sample * self.factor;
            payload.set(i, scaled);
            i = i + 1;
        }
        payload.commit_all();
        Ok(ProcessStatus::Fine)
    }
}

} // verus!
