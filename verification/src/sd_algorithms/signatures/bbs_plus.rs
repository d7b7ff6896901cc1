//! The scheme built on BBS+ signatures: the issuer signs the messages of all
//! claims, and the holder derives from the signature a proof that discloses
//! some of them.

use vstd::prelude::*;
use vstd::string::StringExecFns;
use zkryptium::bbsplus::keys::{BBSplusPublicKey, BBSplusSecretKey};
use zkryptium::bbsplus::proof::BBSplusPoKSignature;
use zkryptium::bbsplus::signature::BBSplusSignature;
use crate::common_data::{CLAIMS, SIGNATURE};
use crate::error::SdError;
use crate::json::{distinct_keys, inserted, lemma_inserted_lookup, lemma_inserted_other, JsonMap,
    JsonModel, Members};
use crate::json_codec::{value_from_outside, value_to_outside};
use crate::jwt::{is_signed, payload_accepts, signer_pem_accepted};
use crate::json_lists::{bytes_document, bytes_from_json, bytes_to_json, document_bytes,
    document_positions, positions_document, positions_from_json, positions_to_json};
use crate::sd_algorithms::sd_algorithm::{as_ints, canonical_messages, claims_of, decoded_field,
    disclosed_claims, disclosed_positions, envelope_input, field_text, reads_back,
    unsecured_envelope, verified_envelope, SdAlgorithm};
use crate::sd_algorithms::signatures::bbs::{bbs_signature, document_proof, document_signature,
    proof_document, proof_from_value, proof_gen, proof_to_value, proof_verifies, proof_verify,
    random_secret, sign, signature_document, signature_from_value, signature_to_bytes,
    signature_to_value, signature_verifies, verify};
use crate::sd_algorithms::signatures::signature_sd_algorithm::SignatureSdAlgorithm;

verus! {

/// The field that holds the nonce of a presentation.
pub const NONCE: &'static str = "nonce";

/// The field that holds the disclosed positions of a presentation.
pub const INDICES: &'static str = "indices";

/// The length of the nonce of a presentation, in bytes.
pub const NONCE_LENGTH: usize = 32;

/// The text under which a signature is stored, where it can be written.
pub open spec fn signature_field(signature: BBSplusSignature) -> Option<Seq<char>> {
    match signature_document(signature) {
        Some(document) => field_text(document),
        None => None,
    }
}

/// The text under which a proof is stored, where it can be written.
pub open spec fn proof_field(knowledge: BBSplusPoKSignature) -> Option<Seq<char>> {
    match proof_document(knowledge) {
        Some(document) => field_text(document),
        None => None,
    }
}

/// The credential that an issuer makes of a raw credential: the raw
/// credential with the signature of the messages of its claims.
pub open spec fn signed_credential(
    raw: Members,
    public_key: BBSplusPublicKey,
    secret_key: BBSplusSecretKey,
) -> Result<Members, SdError> {
    match claims_of(raw) {
        Err(e) => Err(e),
        Ok(claims) => match bbs_signature(canonical_messages(claims), secret_key, public_key) {
            None => Err(SdError::Signing),
            Some(signature) => match signature_field(signature) {
                None => Err(SdError::Encoding),
                Some(text) => Ok(inserted(raw, SIGNATURE@, JsonModel::Text(text))),
            },
        },
    }
}

/// The signature that a credential carries, or the reason why it cannot be
/// had.
pub open spec fn carried_signature(credential: Members) -> Result<BBSplusSignature, SdError> {
    match decoded_field(credential, SIGNATURE@) {
        Err(e) => Err(e),
        Ok(document) => match document_signature(document) {
            Some(signature) => Ok(signature),
            None => Err(SdError::Decoding),
        },
    }
}

/// What the verification of a credential comes to.
pub open spec fn credential_outcome(credential: Members, public_key: BBSplusPublicKey) -> Result<
    (),
    SdError,
> {
    match carried_signature(credential) {
        Err(e) => Err(e),
        Ok(signature) => match claims_of(credential) {
            Err(e) => Err(e),
            Ok(claims) => if signature_verifies(signature, public_key, canonical_messages(claims)) {
                Ok(())
            } else {
                Err(SdError::SignatureInvalid)
            },
        },
    }
}

/// The presentation that is made of a credential whose claims are cut down
/// already: it gets the proof, the disclosed positions and the nonce.
pub open spec fn presentation_with(
    filtered: Members,
    knowledge: BBSplusPoKSignature,
    positions: Seq<usize>,
    nonce: Seq<u8>,
) -> Option<Members> {
    match (
        proof_field(knowledge),
        field_text(positions_document(positions)),
        field_text(bytes_document(nonce)),
    ) {
        (Some(p), Some(i), Some(n)) => Some(
            inserted(
                inserted(
                    inserted(filtered, SIGNATURE@, JsonModel::Text(p)),
                    INDICES@,
                    JsonModel::Text(i),
                ),
                NONCE@,
                JsonModel::Text(n),
            ),
        ),
        _ => None,
    }
}

/// The proof that a presentation carries, or the reason why it cannot be had.
pub open spec fn carried_proof(presentation: Members) -> Result<BBSplusPoKSignature, SdError> {
    match decoded_field(presentation, SIGNATURE@) {
        Err(e) => Err(e),
        Ok(document) => match document_proof(document) {
            Some(knowledge) => Ok(knowledge),
            None => Err(SdError::Decoding),
        },
    }
}

/// The disclosed positions that a presentation carries.
pub open spec fn carried_positions(presentation: Members) -> Result<Seq<usize>, SdError> {
    match decoded_field(presentation, INDICES@) {
        Err(e) => Err(e),
        Ok(document) => match document_positions(document) {
            Some(positions) => Ok(positions),
            None => Err(SdError::Decoding),
        },
    }
}

/// The nonce that a presentation carries.
pub open spec fn carried_nonce(presentation: Members) -> Result<Seq<u8>, SdError> {
    match decoded_field(presentation, NONCE@) {
        Err(e) => Err(e),
        Ok(document) => match document_bytes(document) {
            Some(nonce) => Ok(nonce),
            None => Err(SdError::Decoding),
        },
    }
}

/// What the verification of a presentation comes to, once the signature of
/// the holder on its envelope is verified.
pub open spec fn presentation_outcome(
    presentation: Members,
    public_key: BBSplusPublicKey,
) -> Result<(), SdError> {
    match carried_proof(presentation) {
        Err(e) => Err(e),
        Ok(knowledge) => match carried_positions(presentation) {
            Err(e) => Err(e),
            Ok(positions) => match carried_nonce(presentation) {
                Err(e) => Err(e),
                Ok(nonce) => match claims_of(presentation) {
                    Err(e) => Err(e),
                    Ok(claims) => if proof_verifies(
                        knowledge,
                        public_key,
                        canonical_messages(claims),
                        positions,
                        nonce,
                    ) {
                        Ok(())
                    } else {
                        Err(SdError::SignatureInvalid)
                    },
                },
            },
        },
    }
}

/// The credential whose claims are cut down to those that the disclosures
/// name.
pub open spec fn filtered_credential(credential: Members, disclosures: Seq<Seq<char>>) -> Members {
    inserted(
        credential,
        CLAIMS@,
        JsonModel::Object(disclosed_claims(claims_of(credential)->Ok_0, disclosures)),
    )
}

/// The names of the field of the signature and of the field of the claims
/// differ.
pub proof fn lemma_signature_is_no_claim()
    ensures
        SIGNATURE@ != CLAIMS@,
{
    reveal_strlit("signature");
    reveal_strlit("credentialSubject");
    assert(SIGNATURE@.len() == 9);
    assert(CLAIMS@.len() == 17);
}

/// Completeness, as far as it rests on this library. Take a credential that
/// was issued for a raw credential. Where the text of its signature is read
/// back as it was written, and the signature of the messages verifies under
/// the issuer's public key, the credential verifies.
pub proof fn lemma_signed_credential_verifies(
    raw: Members,
    public_key: BBSplusPublicKey,
    secret_key: BBSplusSecretKey,
)
    requires
        distinct_keys(raw),
        signed_credential(raw, public_key, secret_key) is Ok,
        reads_back(
            signature_document(
                bbs_signature(
                    canonical_messages(claims_of(raw)->Ok_0),
                    secret_key,
                    public_key,
                ).unwrap(),
            ).unwrap(),
        ),
        document_signature(
            signature_document(
                bbs_signature(
                    canonical_messages(claims_of(raw)->Ok_0),
                    secret_key,
                    public_key,
                ).unwrap(),
            ).unwrap(),
        ) == bbs_signature(canonical_messages(claims_of(raw)->Ok_0), secret_key, public_key),
        signature_verifies(
            bbs_signature(
                canonical_messages(claims_of(raw)->Ok_0),
                secret_key,
                public_key,
            ).unwrap(),
            public_key,
            canonical_messages(claims_of(raw)->Ok_0),
        ),
    ensures
        credential_outcome(signed_credential(raw, public_key, secret_key)->Ok_0, public_key) == Ok::<
            (),
            SdError,
        >(()),
{
    let claims = claims_of(raw)->Ok_0;
    let signature = bbs_signature(canonical_messages(claims), secret_key, public_key).unwrap();
    let document = signature_document(signature).unwrap();
    let text = field_text(document).unwrap();
    let credential = inserted(raw, SIGNATURE@, JsonModel::Text(text));
    assert(signed_credential(raw, public_key, secret_key) == Ok::<Members, SdError>(credential));
    lemma_signature_is_no_claim();
    lemma_inserted_lookup(raw, SIGNATURE@, JsonModel::Text(text));
    lemma_inserted_other(raw, SIGNATURE@, JsonModel::Text(text), CLAIMS@);
    assert(decoded_field(credential, SIGNATURE@) == Ok::<JsonModel, SdError>(document));
    assert(carried_signature(credential) == Ok::<BBSplusSignature, SdError>(signature));
    assert(claims_of(credential) == Ok::<Members, SdError>(claims));
}

/// The scheme built on BBS+ signatures.
pub struct BBSPlusInstance;

impl SdAlgorithm for BBSPlusInstance {
    const ALGORITHM: &'static str = "BBS+";
}

impl SignatureSdAlgorithm for BBSPlusInstance {

}

impl BBSPlusInstance {
    /// Issues a credential: the raw credential together with the signature of
    /// the messages of its claims. Returns the credential and its unsigned
    /// envelope.
    pub fn issue_vc(
        raw_vc: &JsonMap,
        issuer_public_key: &BBSplusPublicKey,
        issuer_private_key: &BBSplusSecretKey,
    ) -> (issued: Result<(JsonMap, String), SdError>)
        ensures
            match signed_credential(raw_vc@, *issuer_public_key, *issuer_private_key) {
                Err(e) => issued is Err && issued->Err_0 == e,
                Ok(credential) => match unsecured_envelope(credential, Self::ALGORITHM@) {
                    None => issued is Err && issued->Err_0 == SdError::Encoding,
                    Some(envelope) => issued is Ok && issued->Ok_0.0@ == credential
                        && issued->Ok_0.1@ == envelope,
                },
            },
    {
        let claims = match Self::extract_claims(raw_vc) {
            Ok(claims) => claims,
            Err(e) => {
                return Err(e);
            },
        };
        let claims_bytes = match Self::convert_claims_to_bytes(&claims) {
            Ok(claims_bytes) => claims_bytes,
            Err(e) => {
                return Err(e);
            },
        };
        let signature = match sign(&claims_bytes, issuer_private_key, issuer_public_key) {
            Ok(signature) => signature,
            Err(_) => {
                return Err(SdError::Signing);
            },
        };
        let document = match signature_to_value(&signature) {
            Ok(value) => value_from_outside(&value),
            Err(_) => {
                return Err(SdError::Encoding);
            },
        };
        let mut vc = raw_vc.clone();
        match Self::serialize_and_insert(&mut vc, String::from_str(SIGNATURE), &document) {
            Ok(()) => {},
            Err(e) => {
                return Err(e);
            },
        }
        match Self::encode_jwt(&vc) {
            Ok(jwt) => Ok((vc, jwt)),
            Err(e) => Err(e),
        }
    }

    /// Verifies a credential: its signature must be one of the messages of
    /// its claims.
    pub fn verify_vc(vc: &JsonMap, issuer_public_key: &BBSplusPublicKey) -> (outcome: Result<
        (),
        SdError,
    >)
        ensures
            outcome == credential_outcome(vc@, *issuer_public_key),
    {
        let signature = match Self::carried_signature_of(vc) {
            Ok(signature) => signature,
            Err(e) => {
                return Err(e);
            },
        };
        let claims = match Self::extract_claims(vc) {
            Ok(claims) => claims,
            Err(e) => {
                return Err(e);
            },
        };
        let claims_bytes = match Self::convert_claims_to_bytes(&claims) {
            Ok(claims_bytes) => claims_bytes,
            Err(e) => {
                return Err(e);
            },
        };
        match verify(&signature, issuer_public_key, &claims_bytes) {
            Ok(()) => Ok(()),
            Err(_) => Err(SdError::SignatureInvalid),
        }
    }

    /// The signature that a credential carries.
    pub fn carried_signature_of(vc: &JsonMap) -> (signature: Result<BBSplusSignature, SdError>)
        ensures
            signature == carried_signature(vc@),
    {
        let document = match Self::get_and_decode(vc, String::from_str(SIGNATURE)) {
            Ok(document) => document,
            Err(e) => {
                return Err(e);
            },
        };
        match signature_from_value(value_to_outside(&document)) {
            Some(signature) => Ok(signature),
            None => Err(SdError::Decoding),
        }
    }

    /// The presentation that is made of a credential whose claims are cut
    /// down already, once the proof and the nonce are there: it gets the
    /// proof in place of the signature, the disclosed positions and the nonce.
    pub fn assemble_presentation(
        filtered: JsonMap,
        knowledge: &BBSplusPoKSignature,
        disclosed_indices: &Vec<usize>,
        nonce: &Vec<u8>,
    ) -> (vp: Result<JsonMap, SdError>)
        ensures
            match presentation_with(filtered@, *knowledge, disclosed_indices@, nonce@) {
                Some(presentation) => vp is Ok && vp->Ok_0@ == presentation,
                None => vp is Err && vp->Err_0 == SdError::Encoding,
            },
    {
        let mut vp = filtered;
        let document = match proof_to_value(knowledge) {
            Ok(value) => value_from_outside(&value),
            Err(_) => {
                return Err(SdError::Encoding);
            },
        };
        match Self::serialize_and_insert(&mut vp, String::from_str(SIGNATURE), &document) {
            Ok(()) => {},
            Err(e) => {
                return Err(e);
            },
        }
        match Self::serialize_and_insert(
            &mut vp,
            String::from_str(INDICES),
            &positions_to_json(disclosed_indices),
        ) {
            Ok(()) => {},
            Err(e) => {
                return Err(e);
            },
        }
        match Self::serialize_and_insert(&mut vp, String::from_str(NONCE), &bytes_to_json(nonce)) {
            Ok(()) => Ok(vp),
            Err(e) => Err(e),
        }
    }

    /// Issues a presentation that discloses the given claims: the claims are
    /// cut down to them, a proof for a fresh nonce takes the place of the
    /// signature, and the envelope is signed with the holder's private key.
    /// The nonce and the proof are drawn at random.
    pub fn issue_vp(
        vc: &JsonMap,
        disclosures: &Vec<String>,
        issuer_public_key: &BBSplusPublicKey,
        holder_private_key: &Vec<u8>,
    ) -> (issued: Result<(JsonMap, String), SdError>)
        ensures
            claims_of(vc@) is Err ==> issued is Err && issued->Err_0 == claims_of(vc@)->Err_0,
            claims_of(vc@) is Ok && carried_signature(
                filtered_credential(vc@, disclosures.deep_view()),
            ) is Err ==> issued is Err && issued->Err_0 == carried_signature(
                filtered_credential(vc@, disclosures.deep_view()),
            )->Err_0,
            issued is Ok ==> exists|knowledge: BBSplusPoKSignature, nonce: Seq<u8>|
                nonce.len() == NONCE_LENGTH && #[trigger] presentation_with(
                    filtered_credential(vc@, disclosures.deep_view()),
                    knowledge,
                    disclosed_positions_of(vc@, disclosures.deep_view()),
                    nonce,
                ) == Some(issued->Ok_0.0@),
            claims_of(vc@) is Ok && carried_signature(
                filtered_credential(vc@, disclosures.deep_view()),
            ) is Ok ==> issued is Ok || issued->Err_0 == SdError::Signing || issued->Err_0
                == SdError::Encoding || issued->Err_0 == SdError::KeyFormat,
            issued is Ok ==> is_signed(
                issued->Ok_0.1@,
                envelope_input(issued->Ok_0.0@, Self::ALGORITHM@),
            ),
            !signer_pem_accepted(holder_private_key@) ==> issued is Err,
            issued is Ok ==> signer_pem_accepted(holder_private_key@) && payload_accepts(
                issued->Ok_0.0@,
            ),
            issued is Err && issued->Err_0 == SdError::KeyFormat ==> !signer_pem_accepted(
                holder_private_key@,
            ),
    {
        let mut vp = vc.clone();
        let claims = match Self::extract_claims(&vp) {
            Ok(claims) => claims,
            Err(e) => {
                return Err(e);
            },
        };
        let disclosed_indices = match Self::filter_claims_by_disclosure_and_insert(
            &mut vp,
            disclosures,
        ) {
            Ok(disclosed_indices) => disclosed_indices,
            Err(e) => {
                return Err(e);
            },
        };
        proof {
            let wanted = disclosed_positions(claims_of(vc@)->Ok_0, disclosures.deep_view());
            assert(as_ints(disclosed_indices@) == wanted);
            assert forall|i: int| 0 <= i < wanted.len() implies disclosed_indices@[i]
                == wanted[i] as usize by {
                assert(as_ints(disclosed_indices@)[i] == disclosed_indices@[i] as int);
            }
            assert(disclosed_indices@ =~= disclosed_positions_of(vc@, disclosures.deep_view()));
            assert(vp@ == filtered_credential(vc@, disclosures.deep_view()));
        }
        let nonce = random_secret(NONCE_LENGTH);
        let bbs_signature = match Self::carried_signature_of(&vp) {
            Ok(signature) => signature,
            Err(e) => {
                return Err(e);
            },
        };
        let claims = match Self::convert_claims_to_bytes(&claims) {
            Ok(claims) => claims,
            Err(e) => {
                return Err(e);
            },
        };
        let knowledge = match proof_gen(
            issuer_public_key,
            &signature_to_bytes(&bbs_signature),
            &nonce,
            &claims,
            &disclosed_indices,
        ) {
            Ok(knowledge) => knowledge,
            Err(_) => {
                return Err(SdError::Signing);
            },
        };
        let ghost filtered = vp@;
        let vp = match Self::assemble_presentation(vp, &knowledge, &disclosed_indices, &nonce) {
            Ok(vp) => vp,
            Err(e) => {
                return Err(e);
            },
        };
        match Self::encode_and_sign_jwt(&vp, holder_private_key) {
            Ok(jwt) => {
                assert(presentation_with(
                    filtered_credential(vc@, disclosures.deep_view()),
                    knowledge,
                    disclosed_positions_of(vc@, disclosures.deep_view()),
                    nonce@,
                ) == Some(vp@));
                Ok((vp, jwt))
            },
            Err(e) => Err(e),
        }
    }

    /// Verifies a presentation: the signature of the holder on its envelope,
    /// and then the proof for the claims that it discloses.
    pub fn verify_vp(
        signed_jwt: &String,
        issuer_public_key: &BBSplusPublicKey,
        holder_public_key: &Vec<u8>,
    ) -> (outcome: Result<(), SdError>)
        ensures
            match verified_envelope(signed_jwt@, holder_public_key@) {
                Err(e) => outcome is Err && outcome->Err_0 == e,
                Ok(presentation) => outcome == presentation_outcome(
                    presentation,
                    *issuer_public_key,
                ),
            },
    {
        let vp = match Self::decode_and_verify_jwt(signed_jwt, holder_public_key) {
            Ok(vp) => vp,
            Err(e) => {
                return Err(e);
            },
        };
        Self::verify_presentation(&vp, issuer_public_key)
    }

    /// Verifies the proof of a presentation for the claims that it discloses.
    pub fn verify_presentation(vp: &JsonMap, issuer_public_key: &BBSplusPublicKey) -> (outcome:
        Result<(), SdError>)
        ensures
            outcome == presentation_outcome(vp@, *issuer_public_key),
    {
        let knowledge = match Self::get_and_decode(vp, String::from_str(SIGNATURE)) {
            Ok(document) => match proof_from_value(value_to_outside(&document)) {
                Some(knowledge) => knowledge,
                None => {
                    return Err(SdError::Decoding);
                },
            },
            Err(e) => {
                return Err(e);
            },
        };
        let disclosed_indices = match Self::get_and_decode(vp, String::from_str(INDICES)) {
            Ok(document) => match positions_from_json(&document) {
                Some(positions) => positions,
                None => {
                    return Err(SdError::Decoding);
                },
            },
            Err(e) => {
                return Err(e);
            },
        };
        let nonce = match Self::get_and_decode(vp, String::from_str(NONCE)) {
            Ok(document) => match bytes_from_json(&document) {
                Some(nonce) => nonce,
                None => {
                    return Err(SdError::Decoding);
                },
            },
            Err(e) => {
                return Err(e);
            },
        };
        let disclosed_claims = match Self::extract_claims(vp) {
            Ok(claims) => claims,
            Err(e) => {
                return Err(e);
            },
        };
        let disclosed_claims = match Self::convert_claims_to_bytes(&disclosed_claims) {
            Ok(claims) => claims,
            Err(e) => {
                return Err(e);
            },
        };
        match proof_verify(
            &knowledge,
            issuer_public_key,
            &disclosed_claims,
            &disclosed_indices,
            &nonce,
        ) {
            Ok(()) => Ok(()),
            Err(_) => Err(SdError::SignatureInvalid),
        }
    }
}

/// The positions, among the claims of the credential, of the disclosures that
/// name a claim.
pub open spec fn disclosed_positions_of(credential: Members, disclosures: Seq<Seq<char>>) -> Seq<
    usize,
> {
    disclosed_positions(claims_of(credential)->Ok_0, disclosures).map_values(
        |p: int| p as usize,
    )
}

} // verus!
