//! The life cycle that every scheme offers: make an instance, issue and
//! verify a credential, issue and verify a presentation, and hand out the
//! issuer's keys.

use vstd::prelude::*;
use ark_std::rand::rngs::StdRng;
use crate::error::SdError;
use crate::json::JsonMap;

verus! {

/// Why an operation of an adapter failed.
#[derive(Debug, PartialEq, Eq)]
pub enum AdapterError {
    /// Key material or parameters could not be generated.
    KeyGeneration,
    /// A credential could not be issued.
    Issuance(SdError),
    /// A credential or a presentation did not verify.
    Verification(SdError),
    /// A presentation could not be issued.
    Presentation(SdError),
    /// Key material could not be written out.
    Serialization,
}

impl AdapterError {
    /// The failure of the scheme that lies behind the failure of the adapter.
    pub open spec fn cause(self) -> SdError {
        match self {
            AdapterError::KeyGeneration => SdError::KeyGeneration,
            AdapterError::Issuance(e) => e,
            AdapterError::Verification(e) => e,
            AdapterError::Presentation(e) => e,
            AdapterError::Serialization => SdError::Encoding,
        }
    }
}

/// The outcome of the scheme that lies behind an outcome of the adapter.
pub open spec fn outcome_of_scheme(outcome: Result<(), AdapterError>) -> Result<(), SdError> {
    match outcome {
        Ok(_) => Ok(()),
        Err(e) => Err(e.cause()),
    }
}

/// The key pair with which a holder signs presentations, as PEM. It is the
/// same for all schemes.
#[derive(Clone)]
pub struct HolderKeys {
    /// The key with which presentations are verified.
    pub public_key: Vec<u8>,
    /// The key with which presentations are signed.
    pub private_key: Vec<u8>,
}

/// One selective-disclosure scheme, with its key material.
pub trait Adapter {
    /// The name of the scheme.
    fn sd_algorithm(&self) -> String;

    /// An instance of the scheme for credentials of `claims_len` claims, with
    /// fresh issuer keys drawn from the random source.
    fn new(claims_len: usize, holder: HolderKeys, rng: &mut StdRng) -> Result<Self, AdapterError> where
        Self: Sized;

    /// Issues a credential for the raw credential: the credential and its
    /// envelope.
    fn issue_vc(&self, raw_vc: &JsonMap) -> Result<(JsonMap, String), AdapterError>;

    /// Verifies a credential.
    fn verify_vc(&self, vc: &JsonMap) -> Result<(), AdapterError>;

    /// Issues a presentation of the credential that discloses the given
    /// claims: the presentation and its signed envelope.
    fn issue_vp(&self, vc: &JsonMap, disclosures: &Vec<String>) -> Result<
        (JsonMap, String),
        AdapterError,
    >;

    /// Verifies the signed envelope of a presentation.
    fn verify_vp(&self, vp_jwt: &String) -> Result<(), AdapterError>;

    /// The issuer's public key and secret key, each as text.
    fn issuer_keypair(&self) -> Result<(String, String), AdapterError>;
}

} // verus!
