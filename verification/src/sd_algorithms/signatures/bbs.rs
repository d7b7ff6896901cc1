//! BBS+ signatures over BLS12-381 with SHA-256, done by `zkryptium`.

use vstd::prelude::*;
use zkryptium::bbsplus::keys::{BBSplusPublicKey, BBSplusSecretKey};
use zkryptium::bbsplus::proof::BBSplusPoKSignature;
use zkryptium::bbsplus::signature::BBSplusSignature;
use zkryptium::schemes::algorithms::BbsBls12381Sha256;
use zkryptium::schemes::generics::{PoKSignature, Signature};
use crate::json::JsonModel;
use crate::json_codec::outside_value;

verus! {

#[verifier::external_type_specification]
#[verifier::external_body]
pub struct ExBBSplusPublicKey(BBSplusPublicKey);

#[verifier::external_type_specification]
#[verifier::external_body]
pub struct ExBBSplusSecretKey(BBSplusSecretKey);

#[verifier::external_type_specification]
#[verifier::external_body]
pub struct ExBBSplusSignature(BBSplusSignature);

#[verifier::external_type_specification]
#[verifier::external_body]
pub struct ExBBSplusPoKSignature(BBSplusPoKSignature);

#[verifier::external_type_specification]
#[verifier::external_body]
pub struct ExBbsError(zkryptium::errors::Error);

/// The signature of the messages with the key pair, where there is one.
pub uninterp spec fn bbs_signature(
    messages: Seq<Seq<u8>>,
    secret_key: BBSplusSecretKey,
    public_key: BBSplusPublicKey,
) -> Option<BBSplusSignature>;

/// Whether the signature is one of the messages under the public key.
pub uninterp spec fn signature_verifies(
    signature: BBSplusSignature,
    public_key: BBSplusPublicKey,
    messages: Seq<Seq<u8>>,
) -> bool;

/// The bytes of a signature.
pub uninterp spec fn signature_bytes(signature: BBSplusSignature) -> Seq<u8>;

/// Whether the proof shows, under the public key and for the nonce, that the
/// disclosed messages stand at the disclosed positions of a signed list.
pub uninterp spec fn proof_verifies(
    knowledge: BBSplusPoKSignature,
    public_key: BBSplusPublicKey,
    disclosed_messages: Seq<Seq<u8>>,
    disclosed_positions: Seq<usize>,
    nonce: Seq<u8>,
) -> bool;

/// The JSON document of a signature of the scheme, where it has one.
pub uninterp spec fn signature_document(signature: BBSplusSignature) -> Option<JsonModel>;

/// The signature that a JSON document denotes, where it denotes one of the
/// scheme.
pub uninterp spec fn document_signature(document: JsonModel) -> Option<BBSplusSignature>;

/// The JSON document of a proof of the scheme, where it has one.
pub uninterp spec fn proof_document(knowledge: BBSplusPoKSignature) -> Option<JsonModel>;

/// The proof that a JSON document denotes, where it denotes one of the
/// scheme.
pub uninterp spec fn document_proof(document: JsonModel) -> Option<BBSplusPoKSignature>;

/// `Signature::sign` without a header: the signature of the messages, which
/// depends on the messages and the keys alone, or an error.
#[verifier::external_body]
pub(crate) fn sign(
    messages: &Vec<Vec<u8>>,
    secret_key: &BBSplusSecretKey,
    public_key: &BBSplusPublicKey,
) -> (signature: Result<BBSplusSignature, zkryptium::errors::Error>)
    ensures
        match signature {
            Ok(s) => bbs_signature(messages.deep_view(), *secret_key, *public_key) == Some(s),
            Err(_) => bbs_signature(messages.deep_view(), *secret_key, *public_key).is_none(),
        },
{
    Signature::<BbsBls12381Sha256>::sign(Some(messages), secret_key, public_key, None).map(
        |signed| signed.bbsPlusSignature().clone(),
    )
}

/// `Signature::verify` without a header: whether the signature is one of the
/// messages under the public key.
#[verifier::external_body]
pub(crate) fn verify(
    signature: &BBSplusSignature,
    public_key: &BBSplusPublicKey,
    messages: &Vec<Vec<u8>>,
) -> (outcome: Result<(), zkryptium::errors::Error>)
    ensures
        outcome is Ok <==> signature_verifies(*signature, *public_key, messages.deep_view()),
{
    Signature::<BbsBls12381Sha256>::BBSplus(signature.clone()).verify(
        public_key,
        Some(messages),
        None,
    )
}

/// `BBSplusSignature::to_bytes`: the bytes of the signature.
#[verifier::external_body]
pub(crate) fn signature_to_bytes(signature: &BBSplusSignature) -> (bytes: Vec<u8>)
    ensures
        bytes@ == signature_bytes(*signature),
{
    signature.to_bytes().to_vec()
}

/// `generate_random_secret`: as many random bytes as asked for.
#[verifier::external_body]
pub(crate) fn random_secret(length: usize) -> (secret: Vec<u8>)
    ensures
        secret@.len() == length,
{
    zkryptium::utils::util::bbsplus_utils::generate_random_secret(length)
}

/// `PoKSignature::proof_gen` without a header: a proof for the signature, the
/// messages and the disclosed positions, bound to the nonce. The proof is
/// drawn at random, so nothing is said of it.
#[verifier::external_body]
pub(crate) fn proof_gen(
    public_key: &BBSplusPublicKey,
    signature: &Vec<u8>,
    nonce: &Vec<u8>,
    messages: &Vec<Vec<u8>>,
    disclosed_positions: &Vec<usize>,
) -> (knowledge: Result<BBSplusPoKSignature, zkryptium::errors::Error>) {
    PoKSignature::<BbsBls12381Sha256>::proof_gen(
        public_key,
        signature,
        None,
        Some(nonce),
        Some(messages),
        Some(disclosed_positions),
    ).map(|made| made.to_bbsplus_proof().clone())
}

/// `PoKSignature::proof_verify` without a header: whether the proof holds
/// for the disclosed messages, their positions and the nonce.
#[verifier::external_body]
pub(crate) fn proof_verify(
    knowledge: &BBSplusPoKSignature,
    public_key: &BBSplusPublicKey,
    disclosed_messages: &Vec<Vec<u8>>,
    disclosed_positions: &Vec<usize>,
    nonce: &Vec<u8>,
) -> (outcome: Result<(), zkryptium::errors::Error>)
    ensures
        outcome is Ok <==> proof_verifies(
            *knowledge,
            *public_key,
            disclosed_messages.deep_view(),
            disclosed_positions@,
            nonce@,
        ),
{
    PoKSignature::<BbsBls12381Sha256>::BBSplus(knowledge.clone()).proof_verify(
        public_key,
        Some(disclosed_messages),
        Some(disclosed_positions.as_slice()),
        None,
        Some(nonce.as_slice()),
    )
}

/// `serde_json::to_value` on a signature of the scheme: its JSON document.
#[verifier::external_body]
pub(crate) fn signature_to_value(signature: &BBSplusSignature) -> (value: Result<
    serde_json::Value,
    serde_json::Error,
>)
    ensures
        match value {
            Ok(v) => signature_document(*signature) == Some(outside_value(v)),
            Err(_) => signature_document(*signature).is_none(),
        },
{
    serde_json::to_value(&Signature::<BbsBls12381Sha256>::BBSplus(signature.clone()))
}

/// `serde_json::from_value` for a signature: the signature that the document
/// denotes, or nothing where it denotes none of the scheme.
#[verifier::external_body]
pub(crate) fn signature_from_value(value: serde_json::Value) -> (signature: Option<
    BBSplusSignature,
>)
    ensures
        signature == document_signature(outside_value(value)),
{
    match serde_json::from_value::<Signature<BbsBls12381Sha256>>(value) {
        Ok(Signature::BBSplus(inner)) => Some(inner),
        _ => None,
    }
}

/// `serde_json::to_value` on a proof of the scheme: its JSON document.
#[verifier::external_body]
pub(crate) fn proof_to_value(knowledge: &BBSplusPoKSignature) -> (value: Result<
    serde_json::Value,
    serde_json::Error,
>)
    ensures
        match value {
            Ok(v) => proof_document(*knowledge) == Some(outside_value(v)),
            Err(_) => proof_document(*knowledge).is_none(),
        },
{
    serde_json::to_value(&PoKSignature::<BbsBls12381Sha256>::BBSplus(knowledge.clone()))
}

/// `serde_json::from_value` for a proof: the proof that the document denotes,
/// or nothing where it denotes none of the scheme.
#[verifier::external_body]
pub(crate) fn proof_from_value(value: serde_json::Value) -> (knowledge: Option<
    BBSplusPoKSignature,
>)
    ensures
        knowledge == document_proof(outside_value(value)),
{
    match serde_json::from_value::<PoKSignature<BbsBls12381Sha256>>(value) {
        Ok(PoKSignature::BBSplus(inner)) => Some(inner),
        _ => None,
    }
}

} // verus!
