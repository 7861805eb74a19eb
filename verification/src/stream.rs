//! Stream states and errors.
use vstd::prelude::*;

verus! {

/// Stream errors.
#[derive(Debug, Clone, Copy, PartialEq, Eq, Structural)]
pub enum Error {
    Unsupported,
    Timeout,
}

/// The states a stream goes through.
#[derive(Debug, Clone, Copy, PartialEq, Eq, Structural)]
pub enum StreamState {
    Uninitialized,
    Initialized,
    Running,
    Paused,
    Stopped,
}

} // verus!
