//! Schemes built on multi-message signatures.

pub mod bbs;
pub mod bbs_plus;
pub mod signature_sd_algorithm;
