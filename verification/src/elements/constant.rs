//! A source that produces one value over and over.
use vstd::prelude::*;
use crate::config::StandardConfig;
use crate::element::{ElementType, ProcessStatus};
use crate::format::Format;
use crate::payload::WritePayload;
use crate::port::{PayloadSize, PortRequirements};

verus! {

pub type Config = StandardConfig;

/// A source element that fills every payload with `value`.
pub struct Constant<F, T> {
    value: T,
    format: F,
    config: Config,
}

impl<F: Format, T: Copy> Constant<F, T> {
    pub const TYPE: ElementType = ElementType::Source;

    pub closed spec fn value_of(&self) -> T {
        self.value
    }

    pub closed spec fn format_of(&self) -> F {
        self.format
    }

    pub closed spec fn config_of(&self) -> Config {
        self.config
    }

    pub fn new(value: T, format: F, config: Config) -> (r: Self)
        ensures
            r.value_of() == value,
            r.format_of() == format,
            r.config_of() == config,
    {
        Constant { value, format, config }
    }

    /// A source has no input.
    pub fn get_in_format(&self) -> (r: Option<F>)
        ensures
            r is None,
    {
        None
    }

    pub fn get_out_format(&self) -> (r: Option<F>)
        ensures
            r == Some(self.format_of()),
    {
        Some(self.format)
    }

    /// An output of one to the preferred number of items.
    pub fn get_port_requirements(&self) -> (r: PortRequirements)
        ensures
            r == PortRequirements::source_spec(PayloadSize::new_spec(1, self.config_of().prefer_items_per_process), false),
    {
        PortRequirements::source(PayloadSize::new(1, self.config.prefer_items_per_process), false)
    }

    /// A constant source never runs dry.
    pub fn available(&self) -> (n: u32)
        ensures
            n == u32::MAX,
    {
        u32::MAX
    }

    /// How many items a step asks the output for.
    pub fn items_per_process(&self) -> (n: usize)
        ensures
            n == self.config_of().prefer_items_per_process,
    {
        self.config.prefer_items_per_process as usize
    }

    /// One step: fills the acquired window with the value and commits all of it.
    pub fn process(&mut self, payload: &mut WritePayload<T>) -> (r: Result<ProcessStatus, ()>)
        ensures
            r == Ok::<ProcessStatus, ()>(ProcessStatus::Fine),
            final(payload).items() == Seq::new(old(payload).items().len(), |i: int| old(self).value_of()),
            final(payload).written() == old(payload).items().len(),
            final(payload).meta() == old(payload).meta(),
            *final(self) == *old(self),
    {
        payload.fill(self.value);
        payload.commit_all();
        Ok(ProcessStatus::Fine)
    }
}

} // verus!
