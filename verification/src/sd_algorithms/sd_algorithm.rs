//! The operations that every selective-disclosure scheme needs: reading,
//! writing and filtering the claims of a credential, and turning claims into
//! the byte messages that signature schemes sign.

use vstd::prelude::*;
use vstd::string::{StrSliceExecFns, StringExecFns};
use vstd::utf8::{decode_utf8, encode_utf8, valid_utf8};
use josekit::jws::JwsHeader;
use josekit::jwt::JwtPayload;
use crate::base64url::{base64url_bytes, base64url_text};
use crate::common_data::CLAIMS;
use crate::error::SdError;
use crate::json::{distinct_keys, has_key, inserted, key_position, lemma_first_match,
    lemma_inserted_lookup, lemma_inserted_other, lemma_key_position, lookup, removed, JsonMap,
    JsonModel, JsonValue, Members};
use crate::json_codec::{map_from_outside, map_to_outside, parse_json, parsed_json, serialize_json,
    serialized_json};
use crate::jwt::{es256_marks, header_claims, is_signed, payload_accepts, payload_claims,
    signer_pem_accepted, signing_input, unsecured_payload, unsecured_token, verified_payload,
    verifier_pem_accepted};

verus! {

/// The claims of a credential: the object stored under the claims field.
pub open spec fn claims_of(m: Members) -> Result<Members, SdError> {
    match lookup(m, CLAIMS@) {
        None => Err(SdError::MissingField),
        Some(JsonModel::Object(claims)) => Ok(claims),
        Some(_) => Err(SdError::MalformedField),
    }
}

/// The positions, among the claims, of the disclosures that name a claim, in
/// the order of the disclosures.
pub open spec fn disclosed_positions(claims: Members, disclosures: Seq<Seq<char>>) -> Seq<int> {
    disclosures.filter(|d: Seq<char>| has_key(claims, d)).map_values(
        |d: Seq<char>| key_position(claims, d),
    )
}

/// The claims that the disclosures name, each with its value, in the order in
/// which the disclosures first name them.
pub open spec fn disclosed_claims(claims: Members, disclosures: Seq<Seq<char>>) -> Members
    decreases disclosures.len(),
{
    if disclosures.len() == 0 {
        Members::empty()
    } else {
        let earlier = disclosed_claims(claims, disclosures.drop_last());
        let d = disclosures.last();
        if has_key(claims, d) {
            inserted(earlier, d, claims[key_position(claims, d)].1)
        } else {
            earlier
        }
    }
}

/// The message that stands for one claim: its key, a colon and its value.
pub open spec fn claim_message(key: Seq<char>, value: Seq<char>) -> Seq<u8> {
    encode_utf8(key + seq![':'] + value)
}

/// Whether the value of a member is text.
pub open spec fn is_text_member(member: (Seq<char>, JsonModel)) -> bool {
    member.1 is Text
}

/// The messages of the claims whose value is text, in the order of the
/// claims. Claims with any other value have no message.
pub open spec fn canonical_messages(claims: Members) -> Seq<Seq<u8>> {
    claims.filter(|m: (Seq<char>, JsonModel)| is_text_member(m)).map_values(
        |m: (Seq<char>, JsonModel)| member_message(m),
    )
}

/// The message of a member whose value is text.
pub open spec fn member_message(member: (Seq<char>, JsonModel)) -> Seq<u8> {
    claim_message(member.0, member.1->Text_0)
}

/// The positions as mathematical integers.
pub open spec fn as_ints(positions: Seq<usize>) -> Seq<int> {
    positions.map_values(|p: usize| p as int)
}

/// The header of an envelope: the name of the scheme under `alg`.
pub open spec fn algorithm_header(name: Seq<char>) -> Members {
    Members::empty().push(("alg"@, JsonModel::Text(name)))
}

/// The unsigned envelope of a credential, where it has one.
pub open spec fn unsecured_envelope(claims: Members, algorithm: Seq<char>) -> Option<Seq<char>> {
    if payload_accepts(claims) {
        unsecured_token(claims, algorithm_header(algorithm))
    } else {
        None
    }
}

/// The part of the signed envelope of a credential that is signed.
pub open spec fn envelope_input(claims: Members, algorithm: Seq<char>) -> Seq<char> {
    signing_input(claims, algorithm_header(algorithm), es256_marks())
}

/// What a signed envelope holds for the holder's public key: the credential,
/// or the reason why it cannot be had.
pub open spec fn verified_envelope(token: Seq<char>, public_key: Seq<u8>) -> Result<
    Members,
    SdError,
> {
    if !verifier_pem_accepted(public_key) {
        Err(SdError::KeyFormat)
    } else {
        match verified_payload(token, public_key) {
            Ok(claims) => Ok(claims),
            Err(signature) => if signature {
                Err(SdError::SignatureInvalid)
            } else {
                Err(SdError::Decoding)
            },
        }
    }
}

/// The text under which a document is stored in a field: its JSON text in
/// base64url.
pub open spec fn field_text(document: JsonModel) -> Option<Seq<char>> {
    match serialized_json(document) {
        Some(text) => Some(base64url_text(encode_utf8(text))),
        None => None,
    }
}

/// The document that the text of a field denotes, where it denotes one.
pub open spec fn field_document(text: Seq<char>) -> Option<JsonModel> {
    match base64url_bytes(text) {
        Some(bytes) => if valid_utf8(bytes) {
            parsed_json(decode_utf8(bytes))
        } else {
            None
        },
        None => None,
    }
}

/// The document stored in a field of a credential, or the reason why it
/// cannot be had.
pub open spec fn decoded_field(m: Members, field: Seq<char>) -> Result<JsonModel, SdError> {
    match lookup(m, field) {
        None => Err(SdError::MissingField),
        Some(JsonModel::Text(text)) => match field_document(text) {
            Some(document) => Ok(document),
            None => Err(SdError::Decoding),
        },
        Some(_) => Err(SdError::MalformedField),
    }
}

/// Reading the text under which the document is stored in a field gives the
/// document.
pub open spec fn reads_back(document: JsonModel) -> bool {
    field_text(document).is_some() && field_document(field_text(document).unwrap()) == Some(
        document,
    )
}

/// Reading a field back. Where a document is stored in a field of a
/// credential, reading that field gives what the stored text denotes, whatever
/// else the credential holds.
pub proof fn lemma_field_read_after_write(m: Members, field: Seq<char>, document: JsonModel)
    requires
        distinct_keys(m),
        field_text(document).is_some(),
    ensures
        decoded_field(
            inserted(m, field, JsonModel::Text(field_text(document).unwrap())),
            field,
        ) == match field_document(field_text(document).unwrap()) {
            Some(read) => Ok::<JsonModel, SdError>(read),
            None => Err::<JsonModel, SdError>(SdError::Decoding),
        },
{
    lemma_inserted_lookup(m, field, JsonModel::Text(field_text(document).unwrap()));
}

/// The outcome is the one that the extraction of the claims of the credential
/// has.
pub open spec fn is_extraction(map: Members, outcome: Result<JsonMap, SdError>) -> bool {
    match outcome {
        Ok(claims) => claims_of(map) == Ok::<Members, SdError>(claims@),
        Err(e) => claims_of(map) == Err::<Members, SdError>(e),
    }
}

/// Idempotence of extraction. Two extractions from one credential give the
/// same claims, or fail for the same reason.
pub proof fn lemma_extraction_is_idempotent(
    map: Members,
    first: Result<JsonMap, SdError>,
    second: Result<JsonMap, SdError>,
)
    requires
        is_extraction(map, first),
        is_extraction(map, second),
    ensures
        first is Ok <==> second is Ok,
        first is Ok ==> first->Ok_0@ == second->Ok_0@,
        first is Err ==> first->Err_0 == second->Err_0,
{
}

/// Index correspondence. The positions that the filter returns select, among
/// the claims, exactly the disclosed keys that are claims: each position lies
/// among the claims and holds a disclosed key, and each disclosed key that is
/// a claim stands at one of the positions.
pub proof fn lemma_index_correspondence(claims: Members, disclosures: Seq<Seq<char>>)
    ensures
        forall|j: int|
            #![trigger disclosed_positions(claims, disclosures)[j]]
            0 <= j < disclosed_positions(claims, disclosures).len() ==> {
                let p = disclosed_positions(claims, disclosures)[j];
                0 <= p < claims.len() && disclosures.contains(claims[p].0)
            },
        forall|k: int|
            #![trigger disclosures[k]]
            0 <= k < disclosures.len() && has_key(claims, disclosures[k]) ==> exists|j: int|
                #![trigger disclosed_positions(claims, disclosures)[j]]
                0 <= j < disclosed_positions(claims, disclosures).len() && claims[disclosed_positions(
                    claims,
                    disclosures,
                )[j]].0 == disclosures[k],
    decreases disclosures.len(),
{
    let positions = disclosed_positions(claims, disclosures);
    if disclosures.len() == 0 {
        reveal(Seq::filter);
        assert(positions.len() == 0);
    } else {
        let shorter = disclosures.drop_last();
        let last = disclosures.last();
        let earlier = disclosed_positions(claims, shorter);
        lemma_index_correspondence(claims, shorter);
        lemma_positions_step(claims, disclosures);
        if has_key(claims, last) {
            lemma_key_position(claims, last);
        }
        assert forall|j: int| #![trigger positions[j]] 0 <= j < positions.len() implies {
            let p = positions[j];
            0 <= p < claims.len() && disclosures.contains(claims[p].0)
        } by {
            if j < earlier.len() {
                assert(positions[j] == earlier[j]);
                let p = earlier[j];
                assert(shorter.contains(claims[p].0));
                let k = choose|k: int| 0 <= k < shorter.len() && shorter[k] == claims[p].0;
                assert(disclosures[k] == claims[p].0);
            } else {
                assert(positions[j] == key_position(claims, last));
                assert(disclosures[disclosures.len() - 1] == last);
            }
        }
        assert forall|k: int|
            #![trigger disclosures[k]]
            0 <= k < disclosures.len() && has_key(claims, disclosures[k]) implies exists|j: int|
            #![trigger positions[j]]
            0 <= j < positions.len() && claims[positions[j]].0 == disclosures[k] by {
            if k < shorter.len() {
                assert(shorter[k] == disclosures[k]);
                let j = choose|j: int|
                    #![trigger earlier[j]]
                    0 <= j < earlier.len() && claims[earlier[j]].0 == shorter[k];
                assert(positions[j] == earlier[j]);
            } else {
                let j = positions.len() - 1;
                assert(positions[j] == key_position(claims, last));
            }
        }
    }
}

/// What the schemes share.
pub trait SdAlgorithm {
    /// The name by which the scheme is known.
    const ALGORITHM: &'static str;

    /// The claims of a credential or presentation.
    fn extract_claims(map: &JsonMap) -> (claims: Result<JsonMap, SdError>)
        ensures
            is_extraction(map@, claims),
    {
        match map.get(CLAIMS) {
            None => Err(SdError::MissingField),
            Some(value) => match value {
                JsonValue::Object(claims) => Ok(claims),
                _ => Err(SdError::MalformedField),
            },
        }
    }

    /// Stores the claims in the credential, in place of the claims that it
    /// held or, where it held none, as its last field. Every other field
    /// stays as it is.
    fn insert_claims(map: &mut JsonMap, claims: JsonMap) -> (outcome: Result<(), SdError>)
        ensures
            outcome is Ok,
            final(map)@ == inserted(old(map)@, CLAIMS@, JsonModel::Object(claims@)),
            claims_of(final(map)@) == Ok::<Members, SdError>(claims@),
            forall|field: Seq<char>|
                field != CLAIMS@ ==> #[trigger] lookup(final(map)@, field) == lookup(
                    old(map)@,
                    field,
                ),
    {
        let ghost before = map@;
        let ghost stored = JsonModel::Object(claims@);
        map.insert(String::from_str(CLAIMS), JsonValue::Object(claims));
        proof {
            lemma_inserted_lookup(before, CLAIMS@, stored);
            assert forall|field: Seq<char>| field != CLAIMS@ implies #[trigger] lookup(
                map@,
                field,
            ) == lookup(before, field) by {
                lemma_inserted_other(before, CLAIMS@, stored, field);
            }
        }
        Ok(())
    }

    /// Takes the claims out of the credential.
    fn remove_claims(map: &mut JsonMap) -> (outcome: Result<(), SdError>)
        ensures
            final(map)@ == removed(old(map)@, CLAIMS@),
            has_key(old(map)@, CLAIMS@) ==> outcome is Ok,
            !has_key(old(map)@, CLAIMS@) ==> outcome == Err::<(), SdError>(SdError::MissingField),
    {
        match map.remove(CLAIMS) {
            None => Err(SdError::MissingField),
            Some(_) => Ok(()),
        }
    }

    /// Keeps, of the claims of a credential, those that the disclosures name,
    /// and returns the position that each of them had among the claims.
    /// A disclosure that names no claim is passed over.
    fn filter_claims_by_disclosure_and_insert(map: &mut JsonMap, disclosures: &Vec<String>) -> (indices:
        Result<Vec<usize>, SdError>)
        ensures
            match indices {
                Ok(positions) => {
                    &&& claims_of(old(map)@) matches Ok(claims)
                    &&& as_ints(positions@) == disclosed_positions(claims, disclosures.deep_view())
                    &&& final(map)@ == inserted(
                        old(map)@,
                        CLAIMS@,
                        JsonModel::Object(disclosed_claims(claims, disclosures.deep_view())),
                    )
                },
                Err(e) => claims_of(old(map)@) == Err::<Members, SdError>(e) && final(map)@ == old(
                    map,
                )@,
            },
    {
        let claims = match Self::extract_claims(map) {
            Ok(claims) => claims,
            Err(e) => {
                return Err(e);
            },
        };
        let ghost wanted = disclosures.deep_view();
        let mut disclosed_claims_map = JsonMap::new();
        let mut disclosed_indices: Vec<usize> = Vec::new();
        let mut d: usize = 0;
        while d < disclosures.len()
            invariant
                d <= disclosures.len(),
                wanted == disclosures.deep_view(),
                as_ints(disclosed_indices@) == disclosed_positions(claims@, wanted.take(d as int)),
                disclosed_claims_map@ == disclosed_claims(claims@, wanted.take(d as int)),
            decreases disclosures.len() - d,
        {
            let ghost name = wanted[d as int];
            proof {
                assert(wanted.take(d + 1).drop_last() =~= wanted.take(d as int));
                assert(wanted.take(d + 1).last() == name);
                assert(name == disclosures@[d as int]@);
            }
            match claims.position(disclosures[d].as_str()) {
                Some(i) => {
                    proof {
                        lemma_first_match(claims@, name, i as int);
                    }
                    disclosed_claims_map.insert(claims.key_at(i).clone(), claims.value_at(i));
                    disclosed_indices.push(i);
                    proof {
                        lemma_positions_step(claims@, wanted.take(d + 1));
                        assert(as_ints(disclosed_indices@) =~= disclosed_positions(
                            claims@,
                            wanted.take(d + 1),
                        ));
                    }
                },
                None => {
                    proof {
                        lemma_positions_step(claims@, wanted.take(d + 1));
                    }
                },
            }
            d += 1;
        }
        proof {
            assert(wanted.take(d as int) =~= wanted);
        }
        let _ = Self::insert_claims(map, disclosed_claims_map);
        Ok(disclosed_indices)
    }

    /// The byte messages of the claims, in their order: for each claim whose
    /// value is text, its key, a colon and its value. Claims with any other
    /// value are passed over.
    fn convert_claims_to_bytes(claims: &JsonMap) -> (messages: Result<Vec<Vec<u8>>, SdError>)
        ensures
            messages is Ok,
            messages->Ok_0.deep_view() == canonical_messages(claims@),
    {
        let ghost textual = |m: (Seq<char>, JsonModel)| is_text_member(m);
        let ghost message_of = |m: (Seq<char>, JsonModel)| member_message(m);
        let count = claims.len();
        let mut byte_messages: Vec<Vec<u8>> = Vec::new();
        let mut index: usize = 0;
        while index < count
            invariant
                index <= count,
                count == claims@.len(),
                textual == |m: (Seq<char>, JsonModel)| is_text_member(m),
                message_of == |m: (Seq<char>, JsonModel)| member_message(m),
                byte_messages.deep_view() == claims@.take(index as int).filter(textual).map_values(
                    message_of,
                ),
            decreases count - index,
        {
            let ghost before = byte_messages.deep_view();
            let ghost earlier = claims@.take(index as int).filter(textual);
            proof {
                reveal(Seq::filter);
                assert(claims@.take(index + 1).drop_last() =~= claims@.take(index as int));
                assert(claims@.take(index + 1).last() == claims@[index as int]);
            }
            match claims.value_at(index) {
                JsonValue::Text(val) => {
                    let mut message = claims.key_at(index).clone();
                    proof {
                        reveal_strlit(":");
                        assert(":"@ =~= seq![':']);
                    }
                    message.append(":");
                    message.append(val.as_str());
                    let ghost pushed_before = byte_messages@;
                    let bytes = message.as_str().as_bytes_vec();
                    byte_messages.push(bytes);
                    proof {
                        let member = claims@[index as int];
                        assert(member.1 == JsonModel::Text(val@));
                        assert(message@ =~= member.0 + seq![':'] + val@);
                        assert(bytes@ == message_of(member));
                        assert forall|j: int| 0 <= j < byte_messages@.len() implies #[trigger] byte_messages.deep_view()[j]
                            == before.push(message_of(member))[j] by {
                            if j < pushed_before.len() {
                                assert(byte_messages@[j] == pushed_before[j]);
                                assert(before[j] == pushed_before[j].deep_view());
                            } else {
                                assert(byte_messages@[j] == bytes);
                                assert(bytes.deep_view() =~= bytes@);
                            }
                        }
                        assert(byte_messages.deep_view() =~= before.push(message_of(member)));
                        assert(earlier.push(member).map_values(message_of) =~= earlier.map_values(
                            message_of,
                        ).push(message_of(member)));
                    }
                },
                _ => {},
            }
            index += 1;
        }
        proof {
            assert(claims@.take(index as int) =~= claims@);
        }
        Ok(byte_messages)
    }

    /// The payload and the header of the envelope of a credential.
    fn convert_map_to_payload_and_header(map: &JsonMap) -> (parts: Result<
        (JwsHeader, JwtPayload),
        SdError,
    >)
        ensures
            match parts {
                Ok((header, payload)) => {
                    &&& payload_accepts(map@)
                    &&& payload_claims(payload) == map@
                    &&& header_claims(header) == algorithm_header(Self::ALGORITHM@)
                },
                Err(e) => e == SdError::Encoding && !payload_accepts(map@),
            },
    {
        let mut header = crate::jwt::header_new();
        crate::jwt::header_set_algorithm(&mut header, Self::ALGORITHM);
        assert(!has_key(Members::empty(), "alg"@));
        match crate::jwt::payload_from_map(map_to_outside(map)) {
            Ok(payload) => Ok((header, payload)),
            Err(_) => Err(SdError::Encoding),
        }
    }

    /// The unsigned envelope of a credential.
    fn encode_jwt(map: &JsonMap) -> (jwt: Result<String, SdError>)
        ensures
            match jwt {
                Ok(token) => unsecured_envelope(map@, Self::ALGORITHM@) == Some(token@),
                Err(e) => e == SdError::Encoding && unsecured_envelope(
                    map@,
                    Self::ALGORITHM@,
                ).is_none(),
            },
    {
        let (header, payload) = match Self::convert_map_to_payload_and_header(map) {
            Ok(parts) => parts,
            Err(e) => {
                return Err(e);
            },
        };
        match crate::jwt::encode_unsecured(&payload, &header) {
            Ok(token) => Ok(token),
            Err(_) => Err(SdError::Encoding),
        }
    }

    /// The credential that an unsigned envelope holds.
    fn decode_jwt(jwt: &String) -> (map: Result<JsonMap, SdError>)
        ensures
            match map {
                Ok(m) => unsecured_payload(jwt@) == Some(m@),
                Err(e) => e == SdError::Decoding && unsecured_payload(jwt@).is_none(),
            },
    {
        match crate::jwt::decode_unsecured(jwt.as_str()) {
            Ok((payload, _header)) => {
                let claims = crate::jwt::payload_claims_set(&payload);
                Ok(map_from_outside(&claims))
            },
            Err(_) => Err(SdError::Decoding),
        }
    }

    /// The envelope of a credential, signed with the holder's private key:
    /// what is signed, a dot and the signature. The signature differs from
    /// call to call.
    fn encode_and_sign_jwt(map: &JsonMap, private_key: &Vec<u8>) -> (jwt: Result<String, SdError>)
        ensures
            jwt matches Ok(token) ==> is_signed(token@, envelope_input(map@, Self::ALGORITHM@)),
            !payload_accepts(map@) ==> jwt == Err::<String, SdError>(SdError::Encoding),
            payload_accepts(map@) && !signer_pem_accepted(private_key@) ==> jwt == Err::<
                String,
                SdError,
            >(SdError::KeyFormat),
            payload_accepts(map@) && signer_pem_accepted(private_key@) ==> jwt is Ok || jwt
                == Err::<String, SdError>(SdError::Signing),
    {
        let (header, payload) = match Self::convert_map_to_payload_and_header(map) {
            Ok(parts) => parts,
            Err(e) => {
                return Err(e);
            },
        };
        let signer = match crate::jwt::signer_from_pem(private_key.as_slice()) {
            Ok(signer) => signer,
            Err(_) => {
                return Err(SdError::KeyFormat);
            },
        };
        match crate::jwt::encode_with_signer(&payload, &header, &signer) {
            Ok(token) => Ok(token),
            Err(_) => Err(SdError::Signing),
        }
    }

    /// The credential that a signed envelope holds, once its signature has
    /// been verified with the holder's public key.
    fn decode_and_verify_jwt(jwt: &String, public_key: &Vec<u8>) -> (map: Result<JsonMap, SdError>)
        ensures
            match map {
                Ok(m) => verified_envelope(jwt@, public_key@) == Ok::<Members, SdError>(m@),
                Err(e) => verified_envelope(jwt@, public_key@) == Err::<Members, SdError>(e),
            },
    {
        let verifier = match crate::jwt::verifier_from_pem(public_key.as_slice()) {
            Ok(verifier) => verifier,
            Err(_) => {
                return Err(SdError::KeyFormat);
            },
        };
        match crate::jwt::decode_with_verifier(jwt.as_str(), &verifier) {
            Ok((payload, _header)) => {
                let claims = crate::jwt::payload_claims_set(&payload);
                Ok(map_from_outside(&claims))
            },
            Err(error) => {
                if crate::jwt::error_is_invalid_signature(&error) {
                    Err(SdError::SignatureInvalid)
                } else {
                    Err(SdError::Decoding)
                }
            },
        }
    }

    /// Stores a document in a field of the credential, as its JSON text in
    /// base64url. What the field held before is replaced.
    fn serialize_and_insert(map: &mut JsonMap, field: String, element: &JsonValue) -> (outcome:
        Result<(), SdError>)
        ensures
            match field_text(element.model()) {
                Some(text) => outcome is Ok && final(map)@ == inserted(
                    old(map)@,
                    field@,
                    JsonModel::Text(text),
                ),
                None => outcome == Err::<(), SdError>(SdError::Encoding) && final(map)@ == old(
                    map,
                )@,
            },
    {
        let serialized_element = match serialize_json(element) {
            Ok(text) => text,
            Err(e) => {
                return Err(e);
            },
        };
        let encoded_element = crate::base64url::encode(serialized_element.as_str().as_bytes());
        map.insert(field, JsonValue::Text(encoded_element));
        Ok(())
    }

    /// Reads the document stored in a field of the credential.
    fn get_and_decode(map: &JsonMap, field: String) -> (element: Result<JsonValue, SdError>)
        ensures
            match element {
                Ok(value) => decoded_field(map@, field@) == Ok::<JsonModel, SdError>(value.model()),
                Err(e) => decoded_field(map@, field@) == Err::<JsonModel, SdError>(e),
            },
    {
        let encoded_element = match map.get(field.as_str()) {
            None => {
                return Err(SdError::MissingField);
            },
            Some(value) => match value {
                JsonValue::Text(encoded_element) => encoded_element,
                _ => {
                    return Err(SdError::MalformedField);
                },
            },
        };
        let serialized_element_byte_vector = match crate::base64url::decode(
            encoded_element.as_str(),
        ) {
            Ok(bytes) => bytes,
            Err(_) => {
                return Err(SdError::Decoding);
            },
        };
        let serialized_element = match crate::base64url::text_from_utf8(
            serialized_element_byte_vector,
        ) {
            Some(text) => text,
            None => {
                return Err(SdError::Decoding);
            },
        };
        parse_json(serialized_element.as_str())
    }
}

/// How the positions of a list of disclosures follow from those of the list
/// without its last disclosure.
pub proof fn lemma_positions_step(claims: Members, disclosures: Seq<Seq<char>>)
    requires
        disclosures.len() > 0,
    ensures
        disclosed_positions(claims, disclosures) == if has_key(claims, disclosures.last()) {
            disclosed_positions(claims, disclosures.drop_last()).push(
                key_position(claims, disclosures.last()),
            )
        } else {
            disclosed_positions(claims, disclosures.drop_last())
        },
{
    let present = |d: Seq<char>| has_key(claims, d);
    let place = |d: Seq<char>| key_position(claims, d);
    reveal(Seq::filter);
    let earlier = disclosures.drop_last().filter(present);
    if has_key(claims, disclosures.last()) {
        assert(disclosures.filter(present) == earlier.push(disclosures.last()));
        assert(earlier.push(disclosures.last()).map_values(place) =~= earlier.map_values(
            place,
        ).push(place(disclosures.last())));
    } else {
        assert(disclosures.filter(present) == earlier);
    }
}

} // verus!
