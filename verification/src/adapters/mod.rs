//! One interface for all schemes.

pub mod accumulators;
pub mod adapter;
