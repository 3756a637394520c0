//! Rows of what a pass hands on to be kept.

pub mod thread;
