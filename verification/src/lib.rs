//! Verified core of a small audio dataflow framework: payload bookkeeping,
//! databus state machines (a single-slot bus and a multi-consumer ring
//! buffer), participant registration and the per-step logic of elements
//! and nodes.
use vstd::prelude::*;

pub mod payload;
pub mod registry;
pub mod port;
pub mod databus;
pub mod ring_buffer;
pub mod slot;
pub mod info;
pub mod format;
pub mod element;
pub mod stream;
pub mod config;
pub mod elements;
pub mod nodes;
pub mod bytes;

verus! {

/// Errors of the devices and buses a pipeline runs on.
#[derive(Debug, Clone, Copy, PartialEq, Eq, Structural)]
pub enum Error {
    /// Invalid parameters provided.
    InvalidParameter,
    /// Device is not initialized.
    NotInitialized,
    /// Device is in an invalid state for the requested operation.
    InvalidState,
    /// Device is busy.
    Busy,
    /// Operation timed out.
    Timeout,
    /// Buffer is full.
    BufferFull,
    /// Buffer is empty.
    BufferEmpty,
    /// Device hardware error.
    DeviceError,
    /// Operation not supported.
    Unsupported,
}

} // verus!
