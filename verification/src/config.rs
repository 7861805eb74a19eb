//! The configuration shared by most elements.
use vstd::prelude::*;

verus! {

/// A standard configuration.
#[derive(Debug, Clone, Copy, PartialEq, Eq, Structural)]
pub struct StandardConfig {
    /// The preferred batch size of the processing loop.
    pub prefer_items_per_process: u16,
}

impl Default for StandardConfig {
    fn default() -> (r: Self)
        ensures
            r.prefer_items_per_process == 64,
    {
        StandardConfig { prefer_items_per_process: 64 }
    }
}

impl StandardConfig {
    pub fn new(prefer_items_per_process: u16) -> (r: Self)
        ensures
            r.prefer_items_per_process == prefer_items_per_process,
    {
        StandardConfig { prefer_items_per_process }
    }
}

} // verus!
