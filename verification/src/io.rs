//! Sequential big-endian reading over the bytes of a snapshot.

pub mod channel;
pub mod error;
pub mod text;
pub mod wrapper;
