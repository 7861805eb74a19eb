//! Elements: the per-step computations of sources, processors and in-place
//! transformers.
pub mod cast;
pub mod constant;
pub mod gain;
pub mod map;
