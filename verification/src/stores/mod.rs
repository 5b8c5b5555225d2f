//! The stores.

pub mod disk;
pub mod entries;
pub mod memory;
pub mod redis;
