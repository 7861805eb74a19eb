//! Stream format descriptions.
use vstd::prelude::*;

verus! {

/// Describes the structure of a stream, such as its channel count,
/// independently of the type of its items.
pub trait Format: core::fmt::Debug + Clone + Copy + PartialEq + Eq {
    /// The number of channels the format describes.
    spec fn channels_of(&self) -> u8;

    /// Whether the format describes a usable stream; every format is, unless
    /// it says otherwise.
    fn valid(&self) -> (b: bool)
        default_ensures
            b,
    {
        true
    }

    /// The number of channels in the stream.
    fn channel_count(&self) -> (c: u8)
        ensures
            c == self.channels_of(),
    ;

    fn is_mono(&self) -> (b: bool)
        ensures
            b == (self.channels_of() == 1),
    {
        self.channel_count() == 1
    }
}

/// The format of pipelines that carry no format information: one channel.
#[derive(Debug, Clone, Copy, PartialEq, Eq, Structural)]
pub struct EmptyFormat;

impl Format for EmptyFormat {
    open spec fn channels_of(&self) -> u8 {
        1
    }

    fn valid(&self) -> (b: bool)
        ensures
            b,
    {
        true
    }

    fn channel_count(&self) -> (c: u8) {
        1
    }
}

} // verus!
