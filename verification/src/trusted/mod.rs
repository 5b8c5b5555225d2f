//! The outside code that the library calls, each call with the contract that is
//! taken on trust of it. Nothing here is proved; everything else is proved
//! from what is stated here.

pub mod clock;
pub mod database;
pub mod memory_cache;
pub mod msgpack;
pub mod pipeline;
pub mod text;
