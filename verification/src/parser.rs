//! Decoding of the record stream of a snapshot.

pub mod dump;
pub mod hprof;
pub mod parser;
pub mod reader;
