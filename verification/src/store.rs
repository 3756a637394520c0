//! The tables that a pass fills, and what is kept of a class.

pub mod base;
pub mod class;
