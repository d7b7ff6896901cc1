//! The selective-disclosure schemes and what they share.

pub mod accumulators;
pub mod sd_algorithm;
pub mod signatures;
