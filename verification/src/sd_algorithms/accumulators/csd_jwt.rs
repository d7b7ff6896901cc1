//! The scheme built on a positive accumulator: every claim is an element of
//! the accumulator, and is disclosed together with a witness of its membership.

use vstd::prelude::*;
use std::collections::HashSet;
use std::hash::Hash;
use ark_std::rand::rngs::StdRng;
use vstd::std_specs::hash::{obeys_key_model, spec_hash_keys_iter};
use vstd::std_specs::iter::IteratorSpec;
use vstd::string::StringExecFns;
use vstd::utf8::encode_utf8;
use vb_accumulator::persistence::{State, UniversalAccumulatorState};
use crate::base64url::{base64url_bytes, base64url_text};
use crate::common_data::CLAIMS;
use crate::error::SdError;
use crate::json::{distinct_keys, has_key, inserted, lemma_array_model, lemma_inserted_keeps_keys,
    lemma_inserted_lookup, lemma_inserted_other, lemma_removed_other, removed, JsonMap, JsonModel,
    JsonValue, Members};
use crate::json_codec::{display_json, displayed_json};
use crate::jwt::{is_signed, payload_accepts, signer_pem_accepted};
use crate::sd_algorithms::accumulators::positive_accumulator::{add_batch, batch_added,
    batch_witnesses, compressed_accumulator, derived_public_key, generate_keypair, generate_params,
    initial_accumulator,
    initialize, membership_holds, membership_witnesses_for_batch, reduced_scalar,
    scalar_from_be_bytes, sha256, sha256_digest, verify_membership, AccumulatorValue, Compressed,
    IssuerKeypair, IssuerPublicKey, IssuerSecretKey, Scalar, SetupParameters, Witness};
use crate::sd_algorithms::sd_algorithm::{claims_of, decoded_field, envelope_input, field_text,
    reads_back, unsecured_envelope, verified_envelope, SdAlgorithm};
use crate::text::contains_text;

verus! {

/// The field that holds the accumulator value.
pub const ACCUMULATOR: &'static str = "accumulator";

/// The field that holds the witness-value container.
pub const WVC: &'static str = "wvc";

/// The value that a text in base64url denotes, where it denotes one.
pub open spec fn decoded_element<D: Compressed>(text: Seq<char>) -> Option<D> {
    match base64url_bytes(text) {
        Some(bytes) => D::decompressed(bytes),
        None => None,
    }
}

/// The text that is hashed for a claim: its key, a colon and its value as
/// JSON.
pub open spec fn claim_text(key: Seq<char>, value: JsonModel) -> Seq<char> {
    key + seq![':'] + displayed_json(value)
}

/// The element of the accumulator that stands for a claim.
pub open spec fn claim_scalar(key: Seq<char>, value: JsonModel) -> Scalar {
    reduced_scalar(sha256(encode_utf8(claim_text(key, value))))
}

/// The elements that stand for the claims, in their order.
pub open spec fn claim_elements(claims: Members) -> Seq<Scalar> {
    Seq::new(claims.len(), |i: int| claim_scalar(claims[i].0, claims[i].1))
}

/// Whether the witness can be written as compressed canonical bytes.
pub open spec fn can_be_written(witness: Witness) -> bool {
    witness.compressed().is_some()
}

/// The text of a witness: its compressed canonical bytes in base64url.
pub open spec fn witness_text(witness: Witness) -> Seq<char> {
    base64url_text(witness.compressed().unwrap())
}

/// The texts of the witnesses, where every one of them can be written.
pub open spec fn witness_texts(witnesses: Seq<Witness>) -> Option<Seq<Seq<char>>> {
    if forall|i: int| 0 <= i < witnesses.len() ==> can_be_written(#[trigger] witnesses[i]) {
        Some(witnesses.map_values(|w: Witness| witness_text(w)))
    } else {
        None
    }
}

/// What the container holds for one claim: the text of its witness, then its
/// value.
pub open spec fn container_entry(witness_text: Seq<char>, value: JsonModel) -> JsonModel {
    JsonModel::Array(seq![JsonModel::Text(witness_text), value])
}

/// The witness-value container of the claims: under the key of each claim,
/// the text of its witness and its value.
pub open spec fn witness_value_container(claims: Members, texts: Seq<Seq<char>>) -> Members {
    Seq::new(claims.len(), |i: int| (claims[i].0, container_entry(texts[i], claims[i].1)))
}

/// The credential that is made of a raw credential: the accumulator and the
/// container are stored in their fields, and the claims are taken out.
pub open spec fn assembled_credential(
    raw: Members,
    accumulator_text: Seq<char>,
    container: Members,
) -> Option<Members> {
    match (
        field_text(JsonModel::Text(accumulator_text)),
        field_text(JsonModel::Object(container)),
    ) {
        (Some(a), Some(w)) => Some(
            removed(
                inserted(
                    inserted(raw, ACCUMULATOR@, JsonModel::Text(a)),
                    WVC@,
                    JsonModel::Text(w),
                ),
                CLAIMS@,
            ),
        ),
        _ => None,
    }
}

/// The credential that an issuer makes of a raw credential with the given
/// claims, where all of its parts can be written.
pub open spec fn issued_credential(
    raw: Members,
    claims: Members,
    key: IssuerSecretKey,
    params: SetupParameters,
) -> Option<Members> {
    let elements = claim_elements(claims);
    let accumulator = batch_added(initial_accumulator(params), elements, key);
    let witnesses = batch_witnesses(accumulator, elements, key);
    match (witness_texts(witnesses), compressed_accumulator(accumulator)) {
        (Some(texts), Some(bytes)) => assembled_credential(
            raw,
            base64url_text(bytes),
            witness_value_container(claims, texts),
        ),
        _ => None,
    }
}

/// What is wrong with an entry of a witness-value container.
#[derive(Debug, PartialEq, Eq)]
pub enum EntryFault {
    /// It is not an array of a text and a value.
    Malformed,
    /// Its text denotes no witness.
    Undecodable,
    /// Its witness does not prove that the claim is a member.
    NotMember,
}

/// What is wrong with the entry of a claim, if anything is.
pub open spec fn entry_fault(
    key: Seq<char>,
    entry: JsonModel,
    accumulator: AccumulatorValue,
    issuer: IssuerPublicKey,
    params: SetupParameters,
) -> Option<EntryFault> {
    match entry {
        JsonModel::Array(parts) => if parts.len() < 2 {
            Some(EntryFault::Malformed)
        } else {
            match parts[0] {
                JsonModel::Text(text) => match decoded_element::<Witness>(text) {
                    None => Some(EntryFault::Undecodable),
                    Some(witness) => if membership_holds(
                        accumulator,
                        claim_scalar(key, parts[1]),
                        witness,
                        issuer,
                        params,
                    ) {
                        None
                    } else {
                        Some(EntryFault::NotMember)
                    },
                },
                _ => Some(EntryFault::Malformed),
            }
        },
        _ => Some(EntryFault::Malformed),
    }
}

/// Every entry of the container proves the membership of its claim.
pub open spec fn all_members(
    container: Members,
    accumulator: AccumulatorValue,
    issuer: IssuerPublicKey,
    params: SetupParameters,
) -> bool {
    forall|i: int|
        0 <= i < container.len() ==> (#[trigger] entry_fault(
            container[i].0,
            container[i].1,
            accumulator,
            issuer,
            params,
        )).is_none()
}

/// The entry at `i` is the first one with which something is wrong.
pub open spec fn first_fault_at(
    container: Members,
    i: int,
    accumulator: AccumulatorValue,
    issuer: IssuerPublicKey,
    params: SetupParameters,
) -> bool {
    &&& 0 <= i < container.len()
    &&& entry_fault(container[i].0, container[i].1, accumulator, issuer, params).is_some()
    &&& all_members(container.take(i), accumulator, issuer, params)
}

/// The error tells what is wrong with the entry of the claim.
pub open spec fn reports(error: SdError, fault: EntryFault, key: Seq<char>) -> bool {
    match fault {
        EntryFault::Malformed => error == SdError::MalformedField,
        EntryFault::Undecodable => error == SdError::Decoding,
        EntryFault::NotMember => error matches SdError::MembershipVerificationFailure(claim)
            && claim@ == key,
    }
}

/// The outcome is the one that the container calls for: success where every
/// entry proves the membership of its claim, and else the error that tells
/// what is wrong with the first entry that does not.
pub open spec fn is_verdict(
    outcome: Result<(), SdError>,
    container: Members,
    accumulator: AccumulatorValue,
    issuer: IssuerPublicKey,
    params: SetupParameters,
) -> bool {
    match outcome {
        Ok(_) => all_members(container, accumulator, issuer, params),
        Err(e) => exists|i: int|
            #![trigger container[i]]
            first_fault_at(container, i, accumulator, issuer, params) && reports(
                e,
                entry_fault(container[i].0, container[i].1, accumulator, issuer, params).unwrap(),
                container[i].0,
            ),
    }
}

/// The container and the accumulator that a credential carries, or the reason
/// why they cannot be had.
pub open spec fn proof_material(credential: Members) -> Result<
    (Members, AccumulatorValue),
    SdError,
> {
    match decoded_field(credential, WVC@) {
        Err(e) => Err(e),
        Ok(JsonModel::Object(container)) => match decoded_field(credential, ACCUMULATOR@) {
            Err(e) => Err(e),
            Ok(JsonModel::Text(text)) => match decoded_element::<AccumulatorValue>(text) {
                Some(accumulator) => Ok((container, accumulator)),
                None => Err(SdError::Decoding),
            },
            Ok(_) => Err(SdError::Decoding),
        },
        Ok(_) => Err(SdError::Decoding),
    }
}

/// The outcome is the one that the credential calls for.
pub open spec fn is_credential_verdict(
    outcome: Result<(), SdError>,
    credential: Members,
    issuer: IssuerPublicKey,
    params: SetupParameters,
) -> bool {
    match proof_material(credential) {
        Err(e) => outcome == Err::<(), SdError>(e),
        Ok((container, accumulator)) => is_verdict(outcome, container, accumulator, issuer, params),
    }
}

/// Whether the key of a member is among the disclosures.
pub open spec fn is_disclosed(disclosures: Seq<Seq<char>>, member: (Seq<char>, JsonModel)) -> bool {
    disclosures.contains(member.0)
}

/// The entries of the container whose claims are disclosed, in the order of
/// the container.
pub open spec fn retained(container: Members, disclosures: Seq<Seq<char>>) -> Members {
    container.filter(|m: (Seq<char>, JsonModel)| is_disclosed(disclosures, m))
}

/// The presentation of a credential that discloses the given claims, or the
/// reason why it cannot be made.
pub open spec fn presentation_of(credential: Members, disclosures: Seq<Seq<char>>) -> Result<
    Members,
    SdError,
> {
    match decoded_field(credential, WVC@) {
        Err(e) => Err(e),
        Ok(JsonModel::Object(container)) => match field_text(
            JsonModel::Object(retained(container, disclosures)),
        ) {
            Some(text) => Ok(inserted(credential, WVC@, JsonModel::Text(text))),
            None => Err(SdError::Encoding),
        },
        Ok(_) => Err(SdError::Decoding),
    }
}

/// Reading the text of the accumulator gives the accumulator.
pub open spec fn accumulator_reads_back(accumulator: AccumulatorValue) -> bool {
    accumulator.compressed().is_some() && decoded_element::<AccumulatorValue>(
        base64url_text(accumulator.compressed().unwrap()),
    ) == Some(accumulator)
}

/// Reading the text of the witness gives the witness.
pub open spec fn witness_reads_back(witness: Witness) -> bool {
    can_be_written(witness) && decoded_element::<Witness>(witness_text(witness)) == Some(witness)
}

/// The accumulator of the credential that is issued for the claims.
pub open spec fn issued_accumulator(
    claims: Members,
    key: IssuerSecretKey,
    params: SetupParameters,
) -> AccumulatorValue {
    batch_added(initial_accumulator(params), claim_elements(claims), key)
}

/// The witnesses of the credential that is issued for the claims.
pub open spec fn issued_witnesses(
    claims: Members,
    key: IssuerSecretKey,
    params: SetupParameters,
) -> Seq<Witness> {
    batch_witnesses(issued_accumulator(claims, key, params), claim_elements(claims), key)
}

/// The names of the reserved fields differ from one another.
pub proof fn lemma_field_names_differ()
    ensures
        ACCUMULATOR@ != WVC@,
        ACCUMULATOR@ != CLAIMS@,
        WVC@ != CLAIMS@,
{
    reveal_strlit("accumulator");
    reveal_strlit("wvc");
    reveal_strlit("credentialSubject");
    assert(ACCUMULATOR@.len() == 11);
    assert(WVC@.len() == 3);
    assert(CLAIMS@.len() == 17);
}

/// Completeness, as far as it rests on this library. Take a credential that
/// was issued for the claims of a raw credential. Where the texts of its
/// accumulator, of its witnesses and of its two fields are read back as they
/// were written, and each witness of the batch proves the membership of its
/// element under the issuer's public key, the credential verifies.
pub proof fn lemma_issued_credential_verifies(
    raw: Members,
    claims: Members,
    key: IssuerSecretKey,
    issuer: IssuerPublicKey,
    params: SetupParameters,
)
    requires
        distinct_keys(raw),
        claims_of(raw) == Ok::<Members, SdError>(claims),
        issued_credential(raw, claims, key, params).is_some(),
        issued_witnesses(claims, key, params).len() == claims.len(),
        accumulator_reads_back(issued_accumulator(claims, key, params)),
        forall|i: int|
            0 <= i < claims.len() ==> witness_reads_back(
                #[trigger] issued_witnesses(claims, key, params)[i],
            ),
        reads_back(
            JsonModel::Text(
                base64url_text(issued_accumulator(claims, key, params).compressed().unwrap()),
            ),
        ),
        reads_back(
            JsonModel::Object(
                witness_value_container(
                    claims,
                    witness_texts(issued_witnesses(claims, key, params)).unwrap(),
                ),
            ),
        ),
        forall|i: int|
            0 <= i < claims.len() ==> membership_holds(
                issued_accumulator(claims, key, params),
                claim_elements(claims)[i],
                #[trigger] issued_witnesses(claims, key, params)[i],
                issuer,
                params,
            ),
    ensures
        is_credential_verdict(
            Ok(()),
            issued_credential(raw, claims, key, params).unwrap(),
            issuer,
            params,
        ),
{
    let accumulator = issued_accumulator(claims, key, params);
    let witnesses = issued_witnesses(claims, key, params);
    let texts = witness_texts(witnesses).unwrap();
    let container = witness_value_container(claims, texts);
    let accumulator_text = base64url_text(accumulator.compressed().unwrap());
    let a = field_text(JsonModel::Text(accumulator_text)).unwrap();
    let w = field_text(JsonModel::Object(container)).unwrap();
    let first = inserted(raw, ACCUMULATOR@, JsonModel::Text(a));
    let second = inserted(first, WVC@, JsonModel::Text(w));
    let credential = removed(second, CLAIMS@);
    assert(issued_credential(raw, claims, key, params) == Some(credential));
    lemma_field_names_differ();
    lemma_inserted_lookup(raw, ACCUMULATOR@, JsonModel::Text(a));
    lemma_inserted_lookup(first, WVC@, JsonModel::Text(w));
    lemma_inserted_other(first, WVC@, JsonModel::Text(w), ACCUMULATOR@);
    lemma_removed_other(second, CLAIMS@, WVC@);
    lemma_removed_other(second, CLAIMS@, ACCUMULATOR@);
    assert(decoded_field(credential, WVC@) == Ok::<JsonModel, SdError>(JsonModel::Object(container)));
    assert(decoded_field(credential, ACCUMULATOR@) == Ok::<JsonModel, SdError>(
        JsonModel::Text(accumulator_text),
    ));
    assert(proof_material(credential) == Ok::<(Members, AccumulatorValue), SdError>(
        (container, accumulator),
    ));
    assert forall|i: int| 0 <= i < container.len() implies (#[trigger] entry_fault(
        container[i].0,
        container[i].1,
        accumulator,
        issuer,
        params,
    )).is_none() by {
        assert(witness_reads_back(witnesses[i]));
        assert(texts[i] == witness_text(witnesses[i]));
        assert(membership_holds(accumulator, claim_elements(claims)[i], witnesses[i], issuer, params));
    }
}

/// The two kinds of failure. A verification that fails says either that the
/// credential does not have the structure of one, or that a witness was read
/// and does not hold, and never both. It says the latter only where the proof
/// material could be read and the first entry at fault carries a witness that
/// does not prove the membership of its claim.
pub proof fn lemma_failure_kinds(
    outcome: Result<(), SdError>,
    credential: Members,
    issuer: IssuerPublicKey,
    params: SetupParameters,
)
    requires
        is_credential_verdict(outcome, credential, issuer, params),
        outcome is Err,
    ensures
        outcome->Err_0.is_structural() != outcome->Err_0.is_cryptographic(),
        outcome->Err_0.is_cryptographic() ==> {
            &&& proof_material(credential) is Ok
            &&& exists|i: int|
                #![trigger proof_material(credential)->Ok_0.0[i]]
                first_fault_at(
                    proof_material(credential)->Ok_0.0,
                    i,
                    proof_material(credential)->Ok_0.1,
                    issuer,
                    params,
                ) && entry_fault(
                    proof_material(credential)->Ok_0.0[i].0,
                    proof_material(credential)->Ok_0.0[i].1,
                    proof_material(credential)->Ok_0.1,
                    issuer,
                    params,
                ) == Some(EntryFault::NotMember)
        },
{
    match proof_material(credential) {
        Err(e) => {},
        Ok((container, accumulator)) => {
            let i = choose|i: int|
                #![trigger container[i]]
                first_fault_at(container, i, accumulator, issuer, params) && reports(
                    outcome->Err_0,
                    entry_fault(container[i].0, container[i].1, accumulator, issuer, params).unwrap(),
                    container[i].0,
                );
            assert(first_fault_at(container, i, accumulator, issuer, params));
        },
    }
}

/// The retained entries are the entries of the container whose keys are
/// disclosed, each of them once.
pub proof fn lemma_retained_entries(container: Members, disclosures: Seq<Seq<char>>)
    ensures
        forall|j: int|
            #![trigger retained(container, disclosures)[j]]
            0 <= j < retained(container, disclosures).len() ==> disclosures.contains(
                retained(container, disclosures)[j].0,
            ) && container.contains(retained(container, disclosures)[j]),
        forall|i: int|
            #![trigger container[i]]
            0 <= i < container.len() && disclosures.contains(container[i].0) ==> retained(
                container,
                disclosures,
            ).contains(container[i]),
        distinct_keys(container) ==> distinct_keys(retained(container, disclosures)),
    decreases container.len(),
{
    reveal(Seq::filter);
    let keep = |m: (Seq<char>, JsonModel)| is_disclosed(disclosures, m);
    let kept = retained(container, disclosures);
    if container.len() > 0 {
        let shorter = container.drop_last();
        let last = container.last();
        let earlier = retained(shorter, disclosures);
        lemma_retained_entries(shorter, disclosures);
        assert(kept == if keep(last) {
            earlier.push(last)
        } else {
            earlier
        });
        assert forall|j: int| #![trigger kept[j]] 0 <= j < kept.len() implies disclosures.contains(
            kept[j].0,
        ) && container.contains(kept[j]) by {
            if j < earlier.len() {
                assert(kept[j] == earlier[j]);
                assert(shorter.contains(earlier[j]));
                let i = choose|i: int| 0 <= i < shorter.len() && shorter[i] == earlier[j];
                assert(container[i] == kept[j]);
            } else {
                assert(container[container.len() - 1] == kept[j]);
            }
        }
        assert forall|i: int|
            #![trigger container[i]]
            0 <= i < container.len() && disclosures.contains(container[i].0) implies kept.contains(
            container[i],
        ) by {
            if i < shorter.len() {
                assert(shorter[i] == container[i]);
                assert(earlier.contains(shorter[i]));
                let j = choose|j: int| 0 <= j < earlier.len() && earlier[j] == shorter[i];
                assert(kept[j] == container[i]);
            } else {
                assert(kept[kept.len() - 1] == container[i]);
            }
        }
        if distinct_keys(container) {
            assert(distinct_keys(shorter)) by {
                assert forall|a: int, b: int| 0 <= a < b < shorter.len() implies shorter[a].0
                    != shorter[b].0 by {
                    assert(container[a].0 != container[b].0);
                }
            }
            assert forall|a: int, b: int| 0 <= a < b < kept.len() implies kept[a].0
                != kept[b].0 by {
                if b < earlier.len() {
                    assert(earlier[a].0 != earlier[b].0);
                } else {
                    assert(kept[a] == earlier[a]);
                    assert(shorter.contains(earlier[a]));
                    let i = choose|i: int| 0 <= i < shorter.len() && shorter[i] == earlier[a];
                    assert(container[i].0 != container[container.len() - 1].0);
                }
            }
        }
    }
}

/// Where every entry of the container proves the membership of its claim, so
/// does every retained entry.
pub proof fn lemma_retained_verifies(
    container: Members,
    disclosures: Seq<Seq<char>>,
    accumulator: AccumulatorValue,
    issuer: IssuerPublicKey,
    params: SetupParameters,
)
    requires
        all_members(container, accumulator, issuer, params),
    ensures
        all_members(retained(container, disclosures), accumulator, issuer, params),
{
    let kept = retained(container, disclosures);
    lemma_retained_entries(container, disclosures);
    assert forall|j: int| 0 <= j < kept.len() implies (#[trigger] entry_fault(
        kept[j].0,
        kept[j].1,
        accumulator,
        issuer,
        params,
    )).is_none() by {
        assert(container.contains(kept[j]));
        let i = choose|i: int| 0 <= i < container.len() && container[i] == kept[j];
        assert(entry_fault(container[i].0, container[i].1, accumulator, issuer, params).is_none());
    }
}

/// A presentation verifies by its own entries alone. Take a credential whose
/// proof material can be read and whose entries all prove the membership of
/// their claims. Where the text of the retained entries is read back as it was
/// written, the presentation of the credential verifies, whatever it
/// discloses.
pub proof fn lemma_presentation_verifies(
    credential: Members,
    disclosures: Seq<Seq<char>>,
    issuer: IssuerPublicKey,
    params: SetupParameters,
)
    requires
        distinct_keys(credential),
        proof_material(credential) is Ok,
        all_members(
            proof_material(credential)->Ok_0.0,
            proof_material(credential)->Ok_0.1,
            issuer,
            params,
        ),
        reads_back(
            JsonModel::Object(retained(proof_material(credential)->Ok_0.0, disclosures)),
        ),
    ensures
        presentation_of(credential, disclosures) is Ok,
        is_credential_verdict(
            Ok(()),
            presentation_of(credential, disclosures)->Ok_0,
            issuer,
            params,
        ),
{
    let container = proof_material(credential)->Ok_0.0;
    let accumulator = proof_material(credential)->Ok_0.1;
    let kept = retained(container, disclosures);
    let text = field_text(JsonModel::Object(kept)).unwrap();
    let presentation = inserted(credential, WVC@, JsonModel::Text(text));
    assert(decoded_field(credential, WVC@) == Ok::<JsonModel, SdError>(JsonModel::Object(container)));
    assert(presentation_of(credential, disclosures) == Ok::<Members, SdError>(presentation));
    lemma_field_names_differ();
    lemma_inserted_lookup(credential, WVC@, JsonModel::Text(text));
    lemma_inserted_other(credential, WVC@, JsonModel::Text(text), ACCUMULATOR@);
    assert(decoded_field(presentation, WVC@) == Ok::<JsonModel, SdError>(JsonModel::Object(kept)));
    assert(decoded_field(presentation, ACCUMULATOR@) == decoded_field(credential, ACCUMULATOR@));
    assert(proof_material(presentation) == Ok::<(Members, AccumulatorValue), SdError>(
        (kept, accumulator),
    ));
    lemma_retained_verifies(container, disclosures, accumulator, issuer, params);
}

/// Disclosure confinement. Where the disclosures are keys of the container,
/// the keys of the retained entries are the disclosures, no more and no fewer,
/// and none of them twice. And where every entry of the container proves the
/// membership of its claim, so does every retained entry: the presentation
/// verifies by its own entries alone, whatever the others were.
pub proof fn lemma_disclosure_confinement(
    container: Members,
    disclosures: Seq<Seq<char>>,
    accumulator: AccumulatorValue,
    issuer: IssuerPublicKey,
    params: SetupParameters,
)
    requires
        distinct_keys(container),
        forall|k: int| 0 <= k < disclosures.len() ==> has_key(container, #[trigger] disclosures[k]),
    ensures
        forall|key: Seq<char>|
            has_key(retained(container, disclosures), key) <==> disclosures.contains(key),
        distinct_keys(retained(container, disclosures)),
        all_members(container, accumulator, issuer, params) ==> is_verdict(
            Ok(()),
            retained(container, disclosures),
            accumulator,
            issuer,
            params,
        ),
{
    let kept = retained(container, disclosures);
    lemma_retained_entries(container, disclosures);
    assert forall|key: Seq<char>| has_key(kept, key) <==> disclosures.contains(key) by {
        if has_key(kept, key) {
            let j = choose|j: int| 0 <= j < kept.len() && #[trigger] kept[j].0 == key;
            assert(disclosures.contains(kept[j].0));
        }
        if disclosures.contains(key) {
            let k = choose|k: int| 0 <= k < disclosures.len() && disclosures[k] == key;
            assert(has_key(container, disclosures[k]));
            let i = choose|i: int| 0 <= i < container.len() && #[trigger] container[i].0 == key;
            assert(kept.contains(container[i]));
            let j = choose|j: int| 0 <= j < kept.len() && kept[j] == container[i];
            assert(kept[j].0 == key);
        }
    }
    if all_members(container, accumulator, issuer, params) {
        lemma_retained_verifies(container, disclosures, accumulator, issuer, params);
    }
}

/// The scheme built on a positive accumulator.
pub struct CsdJwtInstance;

impl SdAlgorithm for CsdJwtInstance {
    const ALGORITHM: &'static str = "CSD-JWT";
}

impl CsdJwtInstance {
    /// Fresh parameters and a fresh pair of issuer keys, drawn from the
    /// random source. The public key is the one that belongs to the secret
    /// key under the parameters.
    pub fn initialize_params(rng: &mut StdRng) -> (material: (SetupParameters, IssuerKeypair))
        ensures
            material.1.public_key == derived_public_key(material.1.secret_key, material.0),
    {
        let params = generate_params(rng);
        let keypair = generate_keypair(rng, &params);
        (params, keypair)
    }

    /// The compressed canonical bytes of a value, as text in base64url.
    pub fn serialize<S: Compressed>(element: &S) -> (encoded: Result<String, SdError>)
        ensures
            match encoded {
                Ok(text) => element.compressed().is_some() && text@ == base64url_text(
                    element.compressed().unwrap(),
                ),
                Err(e) => e == SdError::Encoding && element.compressed().is_none(),
            },
    {
        match element.compress() {
            Ok(compressed_bytes) => Ok(crate::base64url::encode(compressed_bytes.as_slice())),
            Err(_) => Err(SdError::Encoding),
        }
    }

    /// The value that a text in base64url denotes.
    pub fn deserialize<D: Compressed>(encoded_element: &String) -> (element: Result<D, SdError>)
        ensures
            match element {
                Ok(value) => decoded_element::<D>(encoded_element@) == Some(value),
                Err(e) => e == SdError::Decoding && decoded_element::<D>(
                    encoded_element@,
                ).is_none(),
            },
    {
        let decoded = match crate::base64url::decode(encoded_element.as_str()) {
            Ok(byte_array) => byte_array,
            Err(_) => {
                return Err(SdError::Decoding);
            },
        };
        match D::decompress(decoded.as_slice()) {
            Ok(element) => Ok(element),
            Err(_) => Err(SdError::Decoding),
        }
    }

    /// The element of the accumulator that stands for a claim: the digest of
    /// its key, a colon and its value, reduced into the scalar field.
    pub fn convert_claim_to_scalar(key: &String, value: &JsonValue) -> (scalar: Scalar)
        ensures
            scalar == claim_scalar(key@, value.model()),
    {
        let mut hash_input = key.clone();
        proof {
            reveal_strlit(":");
            assert(":"@ =~= seq![':']);
        }
        hash_input.append(":");
        hash_input.append(display_json(value).as_str());
        let result = sha256_digest(hash_input.as_str().as_bytes());
        scalar_from_be_bytes(result.as_slice())
    }

    /// The credential that is made of a raw credential, once the text of the
    /// accumulator and the texts of the witnesses of its claims are there:
    /// both are stored in their fields, and the claims are taken out.
    pub fn assemble_credential(
        raw_vc: &JsonMap,
        accumulator_text: String,
        witness_texts: &Vec<String>,
    ) -> (vc: Result<JsonMap, SdError>)
        ensures
            match claims_of(raw_vc@) {
                Err(e) => vc is Err && vc->Err_0 == e,
                Ok(claims) => if witness_texts@.len() != claims.len() {
                    vc is Err && vc->Err_0 == SdError::WitnessDerivation
                } else {
                    match assembled_credential(
                        raw_vc@,
                        accumulator_text@,
                        witness_value_container(claims, witness_texts.deep_view()),
                    ) {
                        Some(credential) => vc is Ok && vc->Ok_0@ == credential,
                        None => vc is Err && vc->Err_0 == SdError::Encoding,
                    }
                },
            },
    {
        let claims = match Self::extract_claims(raw_vc) {
            Ok(claims) => claims,
            Err(e) => {
                return Err(e);
            },
        };
        let count = claims.len();
        if witness_texts.len() != count {
            return Err(SdError::WitnessDerivation);
        }
        let ghost texts = witness_texts.deep_view();
        let ghost wanted = witness_value_container(claims@, texts);
        let mut witness_value_container_map = JsonMap::new();
        let mut index: usize = 0;
        while index < count
            invariant
                index <= count,
                count == claims@.len(),
                witness_texts@.len() == count,
                distinct_keys(claims@),
                texts == witness_texts.deep_view(),
                wanted == witness_value_container(claims@, texts),
                witness_value_container_map@ == wanted.take(index as int),
            decreases count - index,
        {
            let key = claims.key_at(index).clone();
            let witness = JsonValue::Text(witness_texts[index].clone());
            let value = claims.value_at(index);
            let ghost witness_model = witness.model();
            let ghost value_model = value.model();
            let parts = vec![witness, value];
            let entry = JsonValue::Array(parts);
            proof {
                lemma_array_model(parts);
                assert(texts[index as int] == witness_texts@[index as int]@);
                assert(parts@[0].model() == witness_model);
                assert(parts@[1].model() == value_model);
                assert(entry.model()->Array_0 =~= seq![
                    JsonModel::Text(texts[index as int]),
                    claims@[index as int].1,
                ]);
                assert(entry.model() == wanted[index as int].1);
                let before = wanted.take(index as int);
                assert forall|j: int| 0 <= j < before.len() implies before[j].0 != key@ by {
                    assert(before[j].0 == claims@[j].0);
                }
                assert(!has_key(before, key@));
                assert(before.push((key@, entry.model())) =~= wanted.take(index + 1));
            }
            witness_value_container_map.insert(key, entry);
            index += 1;
        }
        proof {
            assert(wanted.take(index as int) =~= wanted);
        }
        let mut vc = raw_vc.clone();
        match Self::serialize_and_insert(
            &mut vc,
            String::from_str(ACCUMULATOR),
            &JsonValue::Text(accumulator_text),
        ) {
            Ok(()) => {},
            Err(e) => {
                return Err(e);
            },
        }
        let ghost with_accumulator = vc@;
        match Self::serialize_and_insert(
            &mut vc,
            String::from_str(WVC),
            &JsonValue::Object(witness_value_container_map),
        ) {
            Ok(()) => {},
            Err(e) => {
                return Err(e);
            },
        }
        proof {
            let accumulator_field = field_text(JsonModel::Text(accumulator_text@)).unwrap();
            let container_field = field_text(JsonModel::Object(wanted)).unwrap();
            lemma_inserted_keeps_keys(
                raw_vc@,
                ACCUMULATOR@,
                JsonModel::Text(accumulator_field),
                CLAIMS@,
            );
            lemma_inserted_keeps_keys(
                with_accumulator,
                WVC@,
                JsonModel::Text(container_field),
                CLAIMS@,
            );
        }
        match Self::remove_claims(&mut vc) {
            Ok(()) => Ok(vc),
            Err(e) => Err(e),
        }
    }

    /// Issues a credential: the claims of the raw credential become the
    /// elements of a fresh accumulator, and the credential carries the
    /// accumulator and, for every claim, its value and the witness of its
    /// membership, in place of the claims. Returns the credential and its
    /// unsigned envelope.
    #[verifier::loop_isolation(false)]
    pub fn issue_vc(
        raw_vc: &JsonMap,
        issuer_private_key: &IssuerSecretKey,
        params: &SetupParameters,
    ) -> (issued: Result<(JsonMap, String), SdError>)
        ensures
            match claims_of(raw_vc@) {
                Err(e) => issued is Err && issued->Err_0 == e,
                Ok(claims) => match issued_credential(
                    raw_vc@,
                    claims,
                    *issuer_private_key,
                    *params,
                ) {
                    None => issued is Err && issued->Err_0 == SdError::Encoding,
                    Some(credential) => match unsecured_envelope(credential, Self::ALGORITHM@) {
                        None => issued is Err && issued->Err_0 == SdError::Encoding,
                        Some(envelope) => issued is Ok && issued->Ok_0.0@ == credential
                            && issued->Ok_0.1@ == envelope,
                    },
                },
            },
    {
        let claims = match Self::extract_claims(raw_vc) {
            Ok(claims) => claims,
            Err(e) => {
                return Err(e);
            },
        };
        let accumulator = initialize(params);
        let mut state: InMemoryState<Scalar> = InMemoryState::new();
        let count = claims.len();
        let ghost wanted = claim_elements(claims@);
        let mut elements: Vec<Scalar> = Vec::new();
        let mut index: usize = 0;
        while index < count
            invariant
                index <= count,
                count == claims@.len(),
                wanted == claim_elements(claims@),
                elements@ == wanted.take(index as int),
            decreases count - index,
        {
            elements.push(Self::convert_claim_to_scalar(claims.key_at(index), &claims.value_at(index)));
            assert(elements@ =~= wanted.take(index + 1));
            index += 1;
        }
        proof {
            assert(wanted.take(index as int) =~= wanted);
        }
        let accumulator = match add_batch(&accumulator, &elements, issuer_private_key, &mut state) {
            Ok(accumulator) => accumulator,
            Err(_) => {
                return Err(SdError::Accumulation);
            },
        };
        proof {
            assert forall|i: int| 0 <= i < elements@.len() implies state.db@.contains(
                elements@[i],
            ) by {
                assert(elements@.to_set().contains(elements@[i]));
            }
        }
        let witnesses = match membership_witnesses_for_batch(
            &accumulator,
            &elements,
            issuer_private_key,
            &state,
        ) {
            Ok(witnesses) => witnesses,
            Err(_) => {
                return Err(SdError::WitnessDerivation);
            },
        };
        let mut texts: Vec<String> = Vec::new();
        let mut index: usize = 0;
        while index < count
            invariant
                index <= count,
                count == witnesses@.len(),
                texts@.len() == index,
                forall|i: int| 0 <= i < index ==> can_be_written(#[trigger] witnesses@[i]),
                forall|i: int| 0 <= i < index ==> (#[trigger] texts@[i])@ == witness_text(witnesses@[i]),
            decreases count - index,
        {
            let witness = match Self::serialize(&witnesses[index]) {
                Ok(witness) => witness,
                Err(e) => {
                    assert(!can_be_written(witnesses@[index as int]));
                    return Err(e);
                },
            };
            assert(can_be_written(witnesses@[index as int]));
            texts.push(witness);
            index += 1;
        }
        proof {
            assert forall|i: int| 0 <= i < texts@.len() implies texts.deep_view()[i]
                == witness_texts(witnesses@).unwrap()[i] by {
                assert(texts.deep_view()[i] == texts@[i]@);
            }
            assert(texts.deep_view() =~= witness_texts(witnesses@).unwrap());
        }
        let serialized_accumulator = match Self::serialize(&accumulator) {
            Ok(text) => text,
            Err(e) => {
                return Err(e);
            },
        };
        let vc = match Self::assemble_credential(raw_vc, serialized_accumulator, &texts) {
            Ok(vc) => vc,
            Err(e) => {
                return Err(e);
            },
        };
        let jwt = match Self::encode_jwt(&vc) {
            Ok(jwt) => jwt,
            Err(e) => {
                return Err(e);
            },
        };
        Ok((vc, jwt))
    }

    /// Verifies a credential: every claim that it carries must be a member of
    /// the accumulator that it carries.
    pub fn verify_vc(
        vc: &JsonMap,
        issuer_public_key: &IssuerPublicKey,
        params: &SetupParameters,
    ) -> (outcome: Result<(), SdError>)
        ensures
            is_credential_verdict(outcome, vc@, *issuer_public_key, *params),
    {
        let witness_value_container = match Self::get_and_decode(vc, String::from_str(WVC)) {
            Ok(JsonValue::Object(container)) => container,
            Ok(_) => {
                return Err(SdError::Decoding);
            },
            Err(e) => {
                return Err(e);
            },
        };
        let serialized_accumulator = match Self::get_and_decode(vc, String::from_str(ACCUMULATOR)) {
            Ok(JsonValue::Text(text)) => text,
            Ok(_) => {
                return Err(SdError::Decoding);
            },
            Err(e) => {
                return Err(e);
            },
        };
        let accumulator: AccumulatorValue = match Self::deserialize(&serialized_accumulator) {
            Ok(accumulator) => accumulator,
            Err(e) => {
                return Err(e);
            },
        };
        Self::verify_witness_value_container(
            &witness_value_container,
            &accumulator,
            issuer_public_key,
            params,
        )
    }

    /// The presentation of a credential that discloses the given claims: the
    /// credential with the entries of its container cut down to those claims.
    /// A disclosure that names no claim is passed over.
    pub fn present(vc: &JsonMap, disclosures: &Vec<String>) -> (vp: Result<JsonMap, SdError>)
        ensures
            match presentation_of(vc@, disclosures.deep_view()) {
                Ok(presentation) => vp is Ok && vp->Ok_0@ == presentation,
                Err(e) => vp is Err && vp->Err_0 == e,
            },
    {
        let witness_value_container = match Self::get_and_decode(vc, String::from_str(WVC)) {
            Ok(JsonValue::Object(container)) => container,
            Ok(_) => {
                return Err(SdError::Decoding);
            },
            Err(e) => {
                return Err(e);
            },
        };
        let ghost wanted = disclosures.deep_view();
        let ghost keep = |m: (Seq<char>, JsonModel)| is_disclosed(wanted, m);
        let count = witness_value_container.len();
        let mut new_witness_value_container = JsonMap::new();
        let mut index: usize = 0;
        while index < count
            invariant
                index <= count,
                count == witness_value_container@.len(),
                distinct_keys(witness_value_container@),
                wanted == disclosures.deep_view(),
                keep == |m: (Seq<char>, JsonModel)| is_disclosed(wanted, m),
                new_witness_value_container@ == witness_value_container@.take(index as int).filter(
                    keep,
                ),
                forall|j: int|
                    #![trigger new_witness_value_container@[j]]
                    0 <= j < new_witness_value_container@.len() ==> exists|k: int|
                        0 <= k < index && #[trigger] witness_value_container@[k]
                            == new_witness_value_container@[j],
            decreases count - index,
        {
            let field = witness_value_container.key_at(index);
            let value = witness_value_container.value_at(index);
            let ghost source = witness_value_container@;
            let ghost before = new_witness_value_container@;
            proof {
                reveal(Seq::filter);
                assert(source.take(index + 1).drop_last() =~= source.take(index as int));
                assert(source.take(index + 1).last() == source[index as int]);
            }
            if contains_text(disclosures, field.as_str()) {
                proof {
                    assert forall|j: int| 0 <= j < before.len() implies before[j].0
                        != field@ by {
                        let k = choose|k: int| 0 <= k < index && #[trigger] source[k] == before[j];
                        assert(source[k].0 != source[index as int].0);
                    }
                    assert(!has_key(before, field@));
                }
                new_witness_value_container.insert(field.clone(), value);
                proof {
                    let after = new_witness_value_container@;
                    assert(after == before.push(source[index as int]));
                    assert forall|j: int|
                        #![trigger after[j]]
                        0 <= j < after.len() implies exists|k: int|
                        0 <= k < index + 1 && #[trigger] source[k] == after[j] by {
                        if j < before.len() {
                            let k = choose|k: int|
                                0 <= k < index && #[trigger] source[k] == before[j];
                            assert(source[k] == after[j]);
                        } else {
                            assert(source[index as int] == after[j]);
                        }
                    }
                }
            }
            index += 1;
        }
        proof {
            assert(witness_value_container@.take(index as int) =~= witness_value_container@);
        }
        let mut vp = vc.clone();
        match Self::serialize_and_insert(
            &mut vp,
            String::from_str(WVC),
            &JsonValue::Object(new_witness_value_container),
        ) {
            Ok(()) => Ok(vp),
            Err(e) => Err(e),
        }
    }

    /// Issues a presentation that discloses the given claims, and signs its
    /// envelope with the holder's private key.
    pub fn issue_vp(vc: &JsonMap, disclosures: &Vec<String>, holder_private_key: &Vec<u8>) -> (issued:
        Result<(JsonMap, String), SdError>)
        ensures
            match presentation_of(vc@, disclosures.deep_view()) {
                Err(e) => issued is Err && issued->Err_0 == e,
                Ok(presentation) => {
                    &&& issued is Ok ==> issued->Ok_0.0@ == presentation
                    &&& issued is Ok ==> is_signed(
                        issued->Ok_0.1@,
                        envelope_input(presentation, Self::ALGORITHM@),
                    )
                    &&& !payload_accepts(presentation) ==> issued is Err && issued->Err_0
                        == SdError::Encoding
                    &&& payload_accepts(presentation) && !signer_pem_accepted(holder_private_key@)
                        ==> issued is Err && issued->Err_0 == SdError::KeyFormat
                    &&& payload_accepts(presentation) && signer_pem_accepted(holder_private_key@)
                        ==> issued is Ok || issued->Err_0 == SdError::Signing
                },
            },
    {
        let vp = match Self::present(vc, disclosures) {
            Ok(vp) => vp,
            Err(e) => {
                return Err(e);
            },
        };
        match Self::encode_and_sign_jwt(&vp, holder_private_key) {
            Ok(jwt) => Ok((vp, jwt)),
            Err(e) => Err(e),
        }
    }

    /// Verifies a presentation: the signature of the holder on its envelope,
    /// and then every claim that it discloses, as for a credential.
    pub fn verify_vp(
        jwt: &String,
        issuer_public_key: &IssuerPublicKey,
        holder_public_key: &Vec<u8>,
        params: &SetupParameters,
    ) -> (outcome: Result<(), SdError>)
        ensures
            match verified_envelope(jwt@, holder_public_key@) {
                Err(e) => outcome is Err && outcome->Err_0 == e,
                Ok(presentation) => is_credential_verdict(
                    outcome,
                    presentation,
                    *issuer_public_key,
                    *params,
                ),
            },
    {
        let vp = match Self::decode_and_verify_jwt(jwt, holder_public_key) {
            Ok(vp) => vp,
            Err(e) => {
                return Err(e);
            },
        };
        Self::verify_vc(&vp, issuer_public_key, params)
    }

    /// Verifies every entry of a witness-value container against the
    /// accumulator, in the order of the container, and reports the first entry
    /// with which something is wrong.
    pub fn verify_witness_value_container(
        wvc: &JsonMap,
        accumulator: &AccumulatorValue,
        issuer_public_key: &IssuerPublicKey,
        params: &SetupParameters,
    ) -> (outcome: Result<(), SdError>)
        ensures
            is_verdict(outcome, wvc@, *accumulator, *issuer_public_key, *params),
    {
        let mut i: usize = 0;
        while i < wvc.len()
            invariant
                i <= wvc@.len(),
                all_members(wvc@.take(i as int), *accumulator, *issuer_public_key, *params),
            decreases wvc@.len() - i,
        {
            let claim_key = wvc.key_at(i);
            let fault = Self::check_entry(
                claim_key,
                &wvc.value_at(i),
                accumulator,
                issuer_public_key,
                params,
            );
            match fault {
                Some(EntryFault::Malformed) => {
                    return Err(SdError::MalformedField);
                },
                Some(EntryFault::Undecodable) => {
                    return Err(SdError::Decoding);
                },
                Some(EntryFault::NotMember) => {
                    return Err(SdError::MembershipVerificationFailure(claim_key.clone()));
                },
                None => {},
            }
            proof {
                let before = wvc@.take(i as int);
                let after = wvc@.take(i + 1);
                assert forall|j: int| 0 <= j < after.len() implies (#[trigger] entry_fault(
                    after[j].0,
                    after[j].1,
                    *accumulator,
                    *issuer_public_key,
                    *params,
                )).is_none() by {
                    if j < i {
                        assert(after[j] == before[j]);
                        assert(entry_fault(
                            before[j].0,
                            before[j].1,
                            *accumulator,
                            *issuer_public_key,
                            *params,
                        ).is_none());
                    }
                }
            }
            i += 1;
        }
        proof {
            assert(wvc@.take(i as int) =~= wvc@);
        }
        Ok(())
    }

    /// What is wrong with the entry of a claim, if anything is.
    pub fn check_entry(
        claim_key: &String,
        entry: &JsonValue,
        accumulator: &AccumulatorValue,
        issuer_public_key: &IssuerPublicKey,
        params: &SetupParameters,
    ) -> (fault: Option<EntryFault>)
        ensures
            fault == entry_fault(
                claim_key@,
                entry.model(),
                *accumulator,
                *issuer_public_key,
                *params,
            ),
    {
        let array = match entry {
            JsonValue::Array(array) => array,
            _ => {
                return Some(EntryFault::Malformed);
            },
        };
        proof {
            lemma_array_model(*array);
        }
        if array.len() < 2 {
            return Some(EntryFault::Malformed);
        }
        assert(entry.model()->Array_0[0] == array@[0].model());
        assert(entry.model()->Array_0[1] == array@[1].model());
        let witness_string = match &array[0] {
            JsonValue::Text(witness_string) => witness_string,
            _ => {
                return Some(EntryFault::Malformed);
            },
        };
        let witness: Witness = match Self::deserialize(witness_string) {
            Ok(witness) => witness,
            Err(_) => {
                return Some(EntryFault::Undecodable);
            },
        };
        let element = Self::convert_claim_to_scalar(claim_key, &array[1]);
        if verify_membership(accumulator, &element, &witness, issuer_public_key, params) {
            None
        } else {
            Some(EntryFault::NotMember)
        }
    }
}

/// The set of the elements that an accumulator holds, kept in memory.
pub struct InMemoryState<T: Clone> {
    /// The elements.
    pub db: HashSet<T>,
}

impl<T: Clone> InMemoryState<T> {
    /// A state without elements.
    pub fn new() -> (state: Self)
        ensures
            state.db@ == Set::<T>::empty(),
    {
        let db = HashSet::<T>::new();
        Self { db }
    }
}

impl<T: Clone + Hash + Eq + Sized> State<T> for InMemoryState<T> {
    /// Puts the element into the state.
    fn add(&mut self, element: T)
        ensures
            obeys_key_model::<T>() ==> final(self).db@ == old(self).db@.insert(element),
    {
        self.db.insert(element);
    }

    /// Takes the element out of the state.
    fn remove(&mut self, element: &T)
        ensures
            obeys_key_model::<T>() ==> final(self).db@ == old(self).db@.remove(*element),
    {
        self.db.remove(element);
    }

    /// Whether the state holds the element.
    fn has(&self, element: &T) -> (present: bool)
        ensures
            obeys_key_model::<T>() ==> present == self.db@.contains(*element),
    {
        self.db.contains(element)
    }

    /// The number of elements that the state holds.
    fn size(&self) -> (count: u64)
        ensures
            obeys_key_model::<T>() ==> count as nat == self.db@.len(),
    {
        broadcast use vstd::std_specs::hash::group_hash_axioms;

        self.db.len() as u64
    }
}

impl<'a, T: Clone + Hash + Eq + Sized + 'a> UniversalAccumulatorState<'a, T> for InMemoryState<T> {
    type ElementIterator = std::collections::hash_set::Iter<'a, T>;

    /// An iterator over the elements that the state holds: it gives each of
    /// them once, in no particular order, and nothing else.
    fn elements(&'a self) -> (iterator: Self::ElementIterator)
        ensures
            obeys_key_model::<T>() ==> {
                &&& iterator == spec_hash_keys_iter(&self.db)
                &&& IteratorSpec::remaining(&iterator).unref().to_set() == self.db@
                &&& IteratorSpec::remaining(&iterator).no_duplicates()
                &&& IteratorSpec::remaining(&iterator).len() == self.db@.len()
            },
    {
        broadcast use vstd::std_specs::hash::group_hash_axioms;

        self.db.iter()
    }
}

} // verus!
