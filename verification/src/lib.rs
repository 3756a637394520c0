//! Decoder for Java heap-dump snapshots in the HPROF binary format.
//!
//! The library works on the bytes of a snapshot that the caller has already
//! loaded. It reads the header, walks the length-framed top-level records,
//! decodes the ones it knows and skips the others, and walks the sub-records
//! of heap dumps. Every function is verified against a mathematical model of
//! the format stated over sequences of bytes.

pub mod args;
pub mod db;
pub mod io;
pub mod parser;
pub mod model;
pub mod store;
