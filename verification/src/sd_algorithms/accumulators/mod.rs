//! Schemes built on cryptographic accumulators.

pub mod csd_jwt;
pub mod positive_accumulator;
