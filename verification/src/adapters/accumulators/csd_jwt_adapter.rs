//! The accumulator-based scheme behind the common interface.

use vstd::prelude::*;
use ark_std::rand::rngs::StdRng;
use vstd::string::StringExecFns;
use crate::adapters::adapter::{outcome_of_scheme, Adapter, AdapterError, HolderKeys};
use crate::error::SdError;
use crate::json::JsonMap;
use crate::jwt::{is_signed, payload_accepts, signer_pem_accepted};
use crate::sd_algorithms::accumulators::csd_jwt::{is_credential_verdict, issued_credential,
    presentation_of, CsdJwtInstance};
use crate::sd_algorithms::accumulators::positive_accumulator::{derived_public_key, public_key_json,
    public_key_to_json, secret_key_json, secret_key_to_json, IssuerPublicKey, IssuerSecretKey,
    SetupParameters};
use crate::sd_algorithms::sd_algorithm::{claims_of, envelope_input, unsecured_envelope,
    verified_envelope, SdAlgorithm};

verus! {

/// The accumulator-based scheme with the key material of one issuer and of
/// the holder.
pub struct CsdJwtAdapter {
    /// The holder's public key, as PEM.
    pub holder_public_key: Vec<u8>,
    /// The holder's private key, as PEM.
    pub holder_private_key: Vec<u8>,
    /// The key with which credentials of this issuer are verified.
    pub issuer_public_key: IssuerPublicKey,
    /// The key with which this issuer issues credentials.
    pub issuer_private_key: IssuerSecretKey,
    /// The parameters of this issuer's accumulators.
    pub params: SetupParameters,
}

impl Adapter for CsdJwtAdapter {
    fn sd_algorithm(&self) -> (name: String)
        ensures
            name@ == CsdJwtInstance::ALGORITHM@,
    {
        String::from_str(CsdJwtInstance::ALGORITHM)
    }

    /// The number of claims plays no part in this scheme.
    fn new(_claims_len: usize, holder: HolderKeys, rng: &mut StdRng) -> (adapter: Result<
        Self,
        AdapterError,
    >)
        ensures
            adapter is Ok,
            adapter->Ok_0.holder_public_key == holder.public_key,
            adapter->Ok_0.holder_private_key == holder.private_key,
            adapter->Ok_0.issuer_public_key == derived_public_key(
                adapter->Ok_0.issuer_private_key,
                adapter->Ok_0.params,
            ),
    {
        let (params, keypair) = CsdJwtInstance::initialize_params(rng);
        Ok(
            CsdJwtAdapter {
                holder_public_key: holder.public_key,
                holder_private_key: holder.private_key,
                issuer_public_key: keypair.public_key,
                issuer_private_key: keypair.secret_key,
                params,
            },
        )
    }

    fn issue_vc(&self, raw_vc: &JsonMap) -> (issued: Result<(JsonMap, String), AdapterError>)
        ensures
            match claims_of(raw_vc@) {
                Err(e) => issued is Err && issued->Err_0 == AdapterError::Issuance(e),
                Ok(claims) => match issued_credential(
                    raw_vc@,
                    claims,
                    self.issuer_private_key,
                    self.params,
                ) {
                    None => issued is Err && issued->Err_0 == AdapterError::Issuance(
                        SdError::Encoding,
                    ),
                    Some(credential) => match unsecured_envelope(
                        credential,
                        CsdJwtInstance::ALGORITHM@,
                    ) {
                        None => issued is Err && issued->Err_0 == AdapterError::Issuance(
                            SdError::Encoding,
                        ),
                        Some(envelope) => issued is Ok && issued->Ok_0.0@ == credential
                            && issued->Ok_0.1@ == envelope,
                    },
                },
            },
    {
        match CsdJwtInstance::issue_vc(raw_vc, &self.issuer_private_key, &self.params) {
            Ok(issued) => Ok(issued),
            Err(e) => Err(AdapterError::Issuance(e)),
        }
    }

    fn verify_vc(&self, vc: &JsonMap) -> (outcome: Result<(), AdapterError>)
        ensures
            outcome is Err ==> outcome->Err_0 is Verification,
            is_credential_verdict(
                outcome_of_scheme(outcome),
                vc@,
                self.issuer_public_key,
                self.params,
            ),
    {
        match CsdJwtInstance::verify_vc(vc, &self.issuer_public_key, &self.params) {
            Ok(()) => Ok(()),
            Err(e) => Err(AdapterError::Verification(e)),
        }
    }

    fn issue_vp(&self, vc: &JsonMap, disclosures: &Vec<String>) -> (issued: Result<
        (JsonMap, String),
        AdapterError,
    >)
        ensures
            issued is Err ==> issued->Err_0 is Presentation,
            match presentation_of(vc@, disclosures.deep_view()) {
                Err(e) => issued is Err && issued->Err_0 == AdapterError::Presentation(e),
                Ok(presentation) => {
                    &&& issued is Ok ==> issued->Ok_0.0@ == presentation
                    &&& issued is Ok ==> is_signed(
                        issued->Ok_0.1@,
                        envelope_input(presentation, CsdJwtInstance::ALGORITHM@),
                    )
                    &&& !payload_accepts(presentation) ==> issued is Err && issued->Err_0
                        == AdapterError::Presentation(SdError::Encoding)
                    &&& payload_accepts(presentation) && !signer_pem_accepted(
                        self.holder_private_key@,
                    ) ==> issued is Err && issued->Err_0 == AdapterError::Presentation(
                        SdError::KeyFormat,
                    )
                    &&& payload_accepts(presentation) && signer_pem_accepted(
                        self.holder_private_key@,
                    ) ==> issued is Ok || issued->Err_0 == AdapterError::Presentation(
                        SdError::Signing,
                    )
                },
            },
    {
        match CsdJwtInstance::issue_vp(vc, disclosures, &self.holder_private_key) {
            Ok(issued) => Ok(issued),
            Err(e) => Err(AdapterError::Presentation(e)),
        }
    }

    fn verify_vp(&self, vp_jwt: &String) -> (outcome: Result<(), AdapterError>)
        ensures
            outcome is Err ==> outcome->Err_0 is Verification,
            match verified_envelope(vp_jwt@, self.holder_public_key@) {
                Err(e) => outcome is Err && outcome->Err_0 == AdapterError::Verification(e),
                Ok(presentation) => is_credential_verdict(
                    outcome_of_scheme(outcome),
                    presentation,
                    self.issuer_public_key,
                    self.params,
                ),
            },
    {
        match CsdJwtInstance::verify_vp(
            vp_jwt,
            &self.issuer_public_key,
            &self.holder_public_key,
            &self.params,
        ) {
            Ok(()) => Ok(()),
            Err(e) => Err(AdapterError::Verification(e)),
        }
    }

    fn issuer_keypair(&self) -> (keys: Result<(String, String), AdapterError>)
        ensures
            match (public_key_json(self.issuer_public_key), secret_key_json(self.issuer_private_key)) {
                (Some(public), Some(secret)) => keys is Ok && keys->Ok_0.0@ == public
                    && keys->Ok_0.1@ == secret,
                _ => keys is Err && keys->Err_0 == AdapterError::Serialization,
            },
    {
        let issuer_public_key = match public_key_to_json(&self.issuer_public_key) {
            Ok(text) => text,
            Err(_) => {
                return Err(AdapterError::Serialization);
            },
        };
        let issuer_private_key = match secret_key_to_json(&self.issuer_private_key) {
            Ok(text) => text,
            Err(_) => {
                return Err(AdapterError::Serialization);
            },
        };
        Ok((issuer_public_key, issuer_private_key))
    }
}

} // verus!
