//! Adapters of the schemes built on accumulators.

pub mod csd_jwt_adapter;
