//! Selective disclosure for verifiable credentials: the operations that every
//! scheme shares, the accumulator-based scheme, and the signature-based scheme.

pub mod adapters;
pub mod base64url;
pub mod benchmark;
pub mod common_data;
pub mod error;
pub mod json;
pub mod json_codec;
pub mod json_lists;
pub mod jwt;
pub mod sd_algorithms;
pub mod text;
