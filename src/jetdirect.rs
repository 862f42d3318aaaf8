//! The raw-socket listener's protocol.

pub mod codec;
