//! What an element is and what a processing step reports.
use vstd::prelude::*;

verus! {

/// The role an element plays in a pipeline.
#[derive(Debug, Clone, Copy, PartialEq, Eq, Structural)]
pub enum ElementType {
    /// Generates data.
    Source,
    /// Consumes data.
    Sink,
    /// Reads one stream and writes another.
    Processor,
    /// Rewrites a stream in place.
    InPlaceTransformer,
}

/// The status of a processing step.
#[derive(Debug, Clone, Copy, PartialEq, Eq, Structural)]
pub enum ProcessStatus {
    /// The step completed, and more data may follow.
    Fine,
    /// The element has reached the end of its stream.
    Eof,
}

} // verus!
