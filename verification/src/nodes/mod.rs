//! Nodes that join and split streams: the per-step computations of a mixer,
//! a splitter and a channel splitter.
pub mod channel_splitter;
pub mod mixer;
pub mod splitter;
