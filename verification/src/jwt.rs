//! Envelopes: a claims object as a compact token, unsigned or signed with
//! ES256, done by `josekit`.

use vstd::prelude::*;
use josekit::jws::alg::ecdsa::{EcdsaJwsSigner, EcdsaJwsVerifier};
use josekit::jws::JwsHeader;
use josekit::jwt::JwtPayload;
use josekit::JoseError;
use crate::json::{inserted, JsonModel, Members};
use crate::json_codec::outside_members;

verus! {

#[verifier::external_type_specification]
#[verifier::external_body]
pub struct ExJwsHeader(JwsHeader);

#[verifier::external_type_specification]
#[verifier::external_body]
pub struct ExJwtPayload(JwtPayload);

#[verifier::external_type_specification]
#[verifier::external_body]
pub struct ExJoseError(JoseError);

#[verifier::external_type_specification]
#[verifier::external_body]
pub struct ExEcdsaJwsSigner(EcdsaJwsSigner);

#[verifier::external_type_specification]
#[verifier::external_body]
pub struct ExEcdsaJwsVerifier(EcdsaJwsVerifier);

/// The claims that a header holds.
pub uninterp spec fn header_claims(header: JwsHeader) -> Members;

/// The claims that a payload holds.
pub uninterp spec fn payload_claims(payload: JwtPayload) -> Members;

/// Whether `JwtPayload::from_map` takes the claims: it refuses registered
/// claims of the wrong type.
pub uninterp spec fn payload_accepts(claims: Members) -> bool;

/// The token that `josekit::jwt::encode_unsecured` writes for a payload and a
/// header, where it writes one.
pub uninterp spec fn unsecured_token(payload: Members, header: Members) -> Option<Seq<char>>;

/// The payload that `josekit::jwt::decode_unsecured` reads from a token, where
/// it reads one.
pub uninterp spec fn unsecured_payload(token: Seq<char>) -> Option<Members>;

/// Whether `signer_from_pem` of ES256 takes the bytes as a private key.
pub uninterp spec fn signer_pem_accepted(pem: Seq<u8>) -> bool;

/// The claims that a signer sets in the header of what it signs: the name of
/// its algorithm under `alg` and, where it has one, its key id under `kid`.
pub uninterp spec fn signer_marks(signer: EcdsaJwsSigner) -> Members;

/// The part of a signed token that is signed: the segment of the header, with
/// the marks of the signer set in it, a dot and the segment of the payload.
/// It does not depend on the key or on chance.
pub uninterp spec fn signing_input(payload: Members, header: Members, marks: Members) -> Seq<char>;

/// The marks of a signer of ES256 without a key id.
pub open spec fn es256_marks() -> Members {
    Members::empty().push(("alg"@, JsonModel::Text("ES256"@)))
}

/// The token is what was signed, a dot and a signature.
pub open spec fn is_signed(token: Seq<char>, input: Seq<char>) -> bool {
    &&& token.len() > input.len()
    &&& token.take(input.len() as int) == input
    &&& token[input.len() as int] == '.'
}

/// Whether `verifier_from_pem` of ES256 takes the bytes as a public key.
pub uninterp spec fn verifier_pem_accepted(pem: Seq<u8>) -> bool;

/// The public key that a verifier holds. The bytes that the key was read
/// from stand for it.
pub uninterp spec fn verifier_key(verifier: EcdsaJwsVerifier) -> Seq<u8>;

/// Whether an error of `josekit` says that a signature did not verify.
pub uninterp spec fn is_signature_error(error: JoseError) -> bool;

/// What `josekit::jwt::decode_with_verifier` reads from a token with the
/// verifier of a public key: the payload, or whether the failure is that of
/// the signature.
pub uninterp spec fn verified_payload(token: Seq<char>, key: Seq<u8>) -> Result<Members, bool>;

/// `JwsHeader::new`: a header without claims.
#[verifier::external_body]
pub(crate) fn header_new() -> (header: JwsHeader)
    ensures
        header_claims(header) == Members::empty(),
{
    JwsHeader::new()
}

/// `JwsHeader::set_algorithm`: stores the name under `alg`.
#[verifier::external_body]
pub(crate) fn header_set_algorithm(header: &mut JwsHeader, name: &str)
    ensures
        header_claims(*final(header)) == inserted(
            header_claims(*old(header)),
            "alg"@,
            JsonModel::Text(name@),
        ),
{
    header.set_algorithm(name)
}

/// `JwtPayload::from_map`: a payload with the claims of the map, or an error
/// where a registered claim has the wrong type.
#[verifier::external_body]
pub(crate) fn payload_from_map(map: serde_json::Map<String, serde_json::Value>) -> (payload: Result<
    JwtPayload,
    JoseError,
>)
    ensures
        match payload {
            Ok(p) => payload_accepts(outside_members(map)) && payload_claims(p) == outside_members(
                map,
            ),
            Err(_) => !payload_accepts(outside_members(map)),
        },
{
    JwtPayload::from_map(map)
}

/// `JwtPayload::claims_set`: the claims of the payload, copied out.
#[verifier::external_body]
pub(crate) fn payload_claims_set(payload: &JwtPayload) -> (map: serde_json::Map<
    String,
    serde_json::Value,
>)
    ensures
        outside_members(map) == payload_claims(*payload),
{
    payload.claims_set().clone()
}

/// `josekit::jwt::encode_unsecured`: the unsigned token, which depends on the
/// claims of the payload and of the header alone.
#[verifier::external_body]
pub(crate) fn encode_unsecured(payload: &JwtPayload, header: &JwsHeader) -> (token: Result<
    String,
    JoseError,
>)
    ensures
        match token {
            Ok(t) => unsecured_token(payload_claims(*payload), header_claims(*header)) == Some(t@),
            Err(_) => unsecured_token(payload_claims(*payload), header_claims(*header)).is_none(),
        },
{
    josekit::jwt::encode_unsecured(payload, header)
}

/// `josekit::jwt::decode_unsecured`: the payload and the header of an
/// unsigned token, or an error where the text is no such token.
#[verifier::external_body]
pub(crate) fn decode_unsecured(token: &str) -> (parts: Result<(JwtPayload, JwsHeader), JoseError>)
    ensures
        match parts {
            Ok((payload, _)) => unsecured_payload(token@) == Some(payload_claims(payload)),
            Err(_) => unsecured_payload(token@).is_none(),
        },
{
    josekit::jwt::decode_unsecured(token)
}

/// `signer_from_pem` of `josekit::jws::ES256`: a signer of that algorithm for
/// the private key, without a key id, or an error where the bytes are no such
/// key.
#[verifier::external_body]
pub(crate) fn signer_from_pem(pem: &[u8]) -> (signer: Result<EcdsaJwsSigner, JoseError>)
    ensures
        signer is Ok <==> signer_pem_accepted(pem@),
        signer matches Ok(s) ==> signer_marks(s) == es256_marks(),
{
    josekit::jws::ES256.signer_from_pem(pem)
}

/// `josekit::jwt::encode_with_signer`: a signed token, which is what was
/// signed, a dot and the signature. The signature differs from call to call,
/// so nothing more is said of it.
#[verifier::external_body]
pub(crate) fn encode_with_signer(
    payload: &JwtPayload,
    header: &JwsHeader,
    signer: &EcdsaJwsSigner,
) -> (token: Result<String, JoseError>)
    ensures
        token matches Ok(t) ==> is_signed(
            t@,
            signing_input(payload_claims(*payload), header_claims(*header), signer_marks(*signer)),
        ),
{
    josekit::jwt::encode_with_signer(payload, header, signer)
}

/// `verifier_from_pem` of `josekit::jws::ES256`: a verifier for the public
/// key, or an error where the bytes are no such key.
#[verifier::external_body]
pub(crate) fn verifier_from_pem(pem: &[u8]) -> (verifier: Result<EcdsaJwsVerifier, JoseError>)
    ensures
        match verifier {
            Ok(v) => verifier_pem_accepted(pem@) && verifier_key(v) == pem@,
            Err(_) => !verifier_pem_accepted(pem@),
        },
{
    josekit::jws::ES256.verifier_from_pem(pem)
}

/// `josekit::jwt::decode_with_verifier`: the payload and the header of a
/// signed token whose signature the verifier accepts, or an error.
#[verifier::external_body]
pub(crate) fn decode_with_verifier(token: &str, verifier: &EcdsaJwsVerifier) -> (parts: Result<
    (JwtPayload, JwsHeader),
    JoseError,
>)
    ensures
        match parts {
            Ok((payload, _)) => verified_payload(token@, verifier_key(*verifier)) == Ok::<
                Members,
                bool,
            >(payload_claims(payload)),
            Err(e) => verified_payload(token@, verifier_key(*verifier)) == Err::<Members, bool>(
                is_signature_error(e),
            ),
        },
{
    josekit::jwt::decode_with_verifier(token, verifier)
}

/// Tells the variant `InvalidSignature` of `JoseError` from the others.
#[verifier::external_body]
pub(crate) fn error_is_invalid_signature(error: &JoseError) -> (yes: bool)
    ensures
        yes == is_signature_error(*error),
{
    matches!(error, JoseError::InvalidSignature(_))
}

} // verus!
