//! What a pass over a snapshot reports about it.

pub mod snapshot;
