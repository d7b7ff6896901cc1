use ark_std::rand::rngs::StdRng;
use ark_std::rand::SeedableRng;
use csd_jwt::error::SdError;
use csd_jwt::json::{JsonMap, JsonNumber, JsonValue};
use csd_jwt::sd_algorithms::accumulators::csd_jwt::{CsdJwtInstance, EntryFault};
use csd_jwt::sd_algorithms::accumulators::positive_accumulator::{AccumulatorValue, Scalar, Witness};
use csd_jwt::sd_algorithms::sd_algorithm::SdAlgorithm;

fn text(value: &str) -> JsonValue {
    JsonValue::Text(value.to_string())
}

fn raw_credential() -> JsonMap {
    let mut claims = JsonMap::new();
    claims.insert("name".to_string(), text("Alice"));
    claims.insert("birthdate".to_string(), text("2000-01-01"));
    claims.insert("age".to_string(), JsonValue::Number(JsonNumber::PosInt(24)));
    let mut map = JsonMap::new();
    map.insert("id".to_string(), text("urn:credential:1"));
    map.insert("credentialSubject".to_string(), JsonValue::Object(claims));
    map.insert("issuer".to_string(), text("urn:issuer:1"));
    map
}

fn container_of(map: &JsonMap) -> JsonMap {
    match CsdJwtInstance::get_and_decode(map, "wvc".to_string()) {
        Ok(JsonValue::Object(container)) => container,
        _ => panic!("the container is an object"),
    }
}

fn with_container(vc: &JsonMap, container: JsonMap) -> JsonMap {
    let mut changed = vc.clone();
    assert_eq!(
        CsdJwtInstance::serialize_and_insert(&mut changed, "wvc".to_string(), &JsonValue::Object(container)),
        Ok(())
    );
    changed
}

fn keys(map: &JsonMap) -> Vec<String> {
    (0..map.len()).map(|i| map.key_at(i).clone()).collect()
}

#[test]
fn a_claim_is_mapped_to_its_digest_reduced_into_the_field() {
    let scalar = CsdJwtInstance::convert_claim_to_scalar(&"name".to_string(), &text("Alice"));
    assert_eq!(
        CsdJwtInstance::serialize(&scalar),
        Ok("qsrtv8mWFCzDj3UQ7utW0lxbhN9k2PoF_lBTs8tWxgk".to_string())
    );
    let scalar = CsdJwtInstance::convert_claim_to_scalar(&"n".to_string(), &JsonValue::Number(JsonNumber::PosInt(5)));
    assert_eq!(
        CsdJwtInstance::serialize(&scalar),
        Ok("BEA_Nx3DRK57fXLnZZ9BKCcdbOg-wsDkhEBAYhRf1xQ".to_string())
    );
}

#[test]
fn different_claims_are_mapped_to_different_scalars() {
    let a = CsdJwtInstance::convert_claim_to_scalar(&"name".to_string(), &text("Alice"));
    let b = CsdJwtInstance::convert_claim_to_scalar(&"name".to_string(), &text("Bob"));
    let c = CsdJwtInstance::convert_claim_to_scalar(&"nam".to_string(), &text("eAlice"));
    let again = CsdJwtInstance::convert_claim_to_scalar(&"name".to_string(), &text("Alice"));
    assert!(a == again);
    assert!(a != b);
    assert!(a != c);
}

#[test]
fn a_serialized_value_is_read_back() {
    let scalar = CsdJwtInstance::convert_claim_to_scalar(&"k".to_string(), &text("v"));
    let encoded = CsdJwtInstance::serialize(&scalar).ok().expect("text");
    let decoded: Scalar = CsdJwtInstance::deserialize(&encoded).ok().expect("a scalar");
    assert!(decoded == scalar);

    let mut rng = StdRng::seed_from_u64(3);
    let (params, keypair) = CsdJwtInstance::initialize_params(&mut rng);
    let (vc, _) = CsdJwtInstance::issue_vc(&raw_credential(), &keypair.secret_key, &params).ok().expect("issued");
    let accumulator_text = match CsdJwtInstance::get_and_decode(&vc, "accumulator".to_string()) {
        Ok(JsonValue::Text(encoded)) => encoded,
        _ => panic!("the accumulator is text"),
    };
    let accumulator: AccumulatorValue = CsdJwtInstance::deserialize(&accumulator_text).ok().expect("an accumulator");
    assert_eq!(CsdJwtInstance::serialize(&accumulator), Ok(accumulator_text));
    let container = container_of(&vc);
    let witness_text = match container.value_at(0) {
        JsonValue::Array(parts) => match &parts[0] {
            JsonValue::Text(encoded) => encoded.clone(),
            _ => panic!("the witness is text"),
        },
        _ => panic!("an entry is an array"),
    };
    let witness: Witness = CsdJwtInstance::deserialize(&witness_text).ok().expect("a witness");
    assert_eq!(CsdJwtInstance::serialize(&witness), Ok(witness_text));
}

#[test]
fn text_that_denotes_no_value_is_refused() {
    assert_eq!(
        CsdJwtInstance::deserialize::<Witness>(&"not base64!".to_string()).err(),
        Some(SdError::Decoding)
    );
    assert_eq!(CsdJwtInstance::deserialize::<Witness>(&"AA".to_string()).err(), Some(SdError::Decoding));
    assert_eq!(
        CsdJwtInstance::deserialize::<AccumulatorValue>(&"".to_string()).err(),
        Some(SdError::Decoding)
    );
}

#[test]
fn the_credential_is_put_together_from_the_texts() {
    let raw_vc = raw_credential();
    let texts = vec!["w1".to_string(), "w2".to_string(), "w3".to_string()];
    let vc = CsdJwtInstance::assemble_credential(&raw_vc, "acc".to_string(), &texts).ok().expect("a credential");
    assert_eq!(keys(&vc), vec!["id", "wvc", "issuer", "accumulator"]);
    assert_eq!(CsdJwtInstance::get_and_decode(&vc, "accumulator".to_string()), Ok(text("acc")));
    let container = container_of(&vc);
    assert_eq!(keys(&container), vec!["name", "birthdate", "age"]);
    assert_eq!(container.value_at(0), JsonValue::Array(vec![text("w1"), text("Alice")]));
    assert_eq!(container.value_at(1), JsonValue::Array(vec![text("w2"), text("2000-01-01")]));
    assert_eq!(
        container.value_at(2),
        JsonValue::Array(vec![text("w3"), JsonValue::Number(JsonNumber::PosInt(24))])
    );
}

#[test]
fn the_credential_needs_one_text_for_each_claim() {
    let raw_vc = raw_credential();
    let texts = vec!["w1".to_string()];
    assert_eq!(
        CsdJwtInstance::assemble_credential(&raw_vc, "acc".to_string(), &texts),
        Err(SdError::WitnessDerivation)
    );
    let mut no_claims = raw_vc.clone();
    no_claims.remove("credentialSubject");
    assert_eq!(
        CsdJwtInstance::assemble_credential(&no_claims, "acc".to_string(), &vec![]),
        Err(SdError::MissingField)
    );
}

#[test]
fn issuing_fails_without_claims() {
    let mut rng = StdRng::seed_from_u64(5);
    let (params, keypair) = CsdJwtInstance::initialize_params(&mut rng);
    let mut raw_vc = raw_credential();
    raw_vc.remove("credentialSubject");
    assert_eq!(
        CsdJwtInstance::issue_vc(&raw_vc, &keypair.secret_key, &params).err(),
        Some(SdError::MissingField)
    );
    raw_vc.insert("credentialSubject".to_string(), JsonValue::Array(vec![]));
    assert_eq!(
        CsdJwtInstance::issue_vc(&raw_vc, &keypair.secret_key, &params).err(),
        Some(SdError::MalformedField)
    );
}

#[test]
fn a_credential_without_claims_verifies() {
    let mut rng = StdRng::seed_from_u64(5);
    let (params, keypair) = CsdJwtInstance::initialize_params(&mut rng);
    let mut raw_vc = raw_credential();
    raw_vc.insert("credentialSubject".to_string(), JsonValue::Object(JsonMap::new()));
    let (vc, _) = CsdJwtInstance::issue_vc(&raw_vc, &keypair.secret_key, &params).ok().expect("issued");
    assert_eq!(container_of(&vc).len(), 0);
    assert_eq!(CsdJwtInstance::verify_vc(&vc, &keypair.public_key, &params), Ok(()));
}

#[test]
fn a_credential_with_claims_of_every_kind_verifies() {
    let mut rng = StdRng::seed_from_u64(23);
    let (params, keypair) = CsdJwtInstance::initialize_params(&mut rng);
    let mut nested = JsonMap::new();
    nested.insert("street".to_string(), text("Main"));
    let mut claims = JsonMap::new();
    claims.insert("address".to_string(), JsonValue::Object(nested));
    claims.insert("tags".to_string(), JsonValue::Array(vec![text("a"), JsonValue::Null]));
    claims.insert("member".to_string(), JsonValue::Bool(true));
    claims.insert("debt".to_string(), JsonValue::Number(JsonNumber::NegInt(-5)));
    let mut raw_vc = raw_credential();
    raw_vc.insert("credentialSubject".to_string(), JsonValue::Object(claims));
    let (vc, _) = CsdJwtInstance::issue_vc(&raw_vc, &keypair.secret_key, &params).ok().expect("issued");
    assert_eq!(CsdJwtInstance::verify_vc(&vc, &keypair.public_key, &params), Ok(()));
}

#[test]
fn a_changed_value_fails_membership_for_its_claim() {
    let mut rng = StdRng::seed_from_u64(29);
    let (params, keypair) = CsdJwtInstance::initialize_params(&mut rng);
    let (vc, _) = CsdJwtInstance::issue_vc(&raw_credential(), &keypair.secret_key, &params).ok().expect("issued");
    let mut container = container_of(&vc);
    let witness = match container.value_at(1) {
        JsonValue::Array(parts) => parts[0].clone(),
        _ => panic!("an entry is an array"),
    };
    container.insert("birthdate".to_string(), JsonValue::Array(vec![witness, text("2000-01-02")]));
    let changed = with_container(&vc, container);
    assert_eq!(
        CsdJwtInstance::verify_vc(&changed, &keypair.public_key, &params),
        Err(SdError::MembershipVerificationFailure("birthdate".to_string()))
    );
}

#[test]
fn a_witness_of_another_claim_fails_membership() {
    let mut rng = StdRng::seed_from_u64(31);
    let (params, keypair) = CsdJwtInstance::initialize_params(&mut rng);
    let (vc, _) = CsdJwtInstance::issue_vc(&raw_credential(), &keypair.secret_key, &params).ok().expect("issued");
    let mut container = container_of(&vc);
    let other_witness = match container.value_at(1) {
        JsonValue::Array(parts) => parts[0].clone(),
        _ => panic!("an entry is an array"),
    };
    container.insert("name".to_string(), JsonValue::Array(vec![other_witness, text("Alice")]));
    let changed = with_container(&vc, container);
    assert_eq!(
        CsdJwtInstance::verify_vc(&changed, &keypair.public_key, &params),
        Err(SdError::MembershipVerificationFailure("name".to_string()))
    );
}

#[test]
fn the_keys_of_another_issuer_fail_membership() {
    let mut rng = StdRng::seed_from_u64(37);
    let (params, keypair) = CsdJwtInstance::initialize_params(&mut rng);
    let (_, other_keypair) = CsdJwtInstance::initialize_params(&mut rng);
    let (vc, _) = CsdJwtInstance::issue_vc(&raw_credential(), &keypair.secret_key, &params).ok().expect("issued");
    assert_eq!(
        CsdJwtInstance::verify_vc(&vc, &other_keypair.public_key, &params),
        Err(SdError::MembershipVerificationFailure("name".to_string()))
    );
}

#[test]
fn an_accumulator_that_cannot_be_read_is_a_decoding_failure() {
    let mut rng = StdRng::seed_from_u64(41);
    let (params, keypair) = CsdJwtInstance::initialize_params(&mut rng);
    let (mut vc, _) = CsdJwtInstance::issue_vc(&raw_credential(), &keypair.secret_key, &params).ok().expect("issued");
    assert_eq!(
        CsdJwtInstance::serialize_and_insert(&mut vc, "accumulator".to_string(), &text("AA")),
        Ok(())
    );
    assert_eq!(CsdJwtInstance::verify_vc(&vc, &keypair.public_key, &params), Err(SdError::Decoding));
    assert_eq!(
        CsdJwtInstance::serialize_and_insert(&mut vc, "accumulator".to_string(), &JsonValue::Bool(true)),
        Ok(())
    );
    assert_eq!(CsdJwtInstance::verify_vc(&vc, &keypair.public_key, &params), Err(SdError::Decoding));
}

#[test]
fn a_credential_without_proof_material_is_structurally_invalid() {
    let mut rng = StdRng::seed_from_u64(43);
    let (params, keypair) = CsdJwtInstance::initialize_params(&mut rng);
    let (vc, _) = CsdJwtInstance::issue_vc(&raw_credential(), &keypair.secret_key, &params).ok().expect("issued");
    let mut no_container = vc.clone();
    no_container.remove("wvc");
    assert_eq!(
        CsdJwtInstance::verify_vc(&no_container, &keypair.public_key, &params),
        Err(SdError::MissingField)
    );
    let mut no_accumulator = vc.clone();
    no_accumulator.remove("accumulator");
    assert_eq!(
        CsdJwtInstance::verify_vc(&no_accumulator, &keypair.public_key, &params),
        Err(SdError::MissingField)
    );
    let mut bad_container = vc.clone();
    bad_container.insert("wvc".to_string(), JsonValue::Null);
    assert_eq!(
        CsdJwtInstance::verify_vc(&bad_container, &keypair.public_key, &params),
        Err(SdError::MalformedField)
    );
    let not_an_object = with_container(&vc, JsonMap::new());
    let mut not_an_object = not_an_object;
    assert_eq!(
        CsdJwtInstance::serialize_and_insert(&mut not_an_object, "wvc".to_string(), &text("x")),
        Ok(())
    );
    assert_eq!(
        CsdJwtInstance::verify_vc(&not_an_object, &keypair.public_key, &params),
        Err(SdError::Decoding)
    );
}

#[test]
fn entries_of_the_wrong_shape_are_malformed() {
    let mut rng = StdRng::seed_from_u64(47);
    let (params, keypair) = CsdJwtInstance::initialize_params(&mut rng);
    let (vc, _) = CsdJwtInstance::issue_vc(&raw_credential(), &keypair.secret_key, &params).ok().expect("issued");
    let accumulator_text = match CsdJwtInstance::get_and_decode(&vc, "accumulator".to_string()) {
        Ok(JsonValue::Text(encoded)) => encoded,
        _ => panic!("the accumulator is text"),
    };
    let accumulator: AccumulatorValue = CsdJwtInstance::deserialize(&accumulator_text).ok().expect("an accumulator");
    let container = container_of(&vc);
    let key = "name".to_string();
    let check = |entry: &JsonValue| {
        CsdJwtInstance::check_entry(&key, entry, &accumulator, &keypair.public_key, &params)
    };
    assert_eq!(check(&container.value_at(0)), None);
    assert_eq!(check(&text("x")), Some(EntryFault::Malformed));
    assert_eq!(check(&JsonValue::Array(vec![])), Some(EntryFault::Malformed));
    assert_eq!(check(&JsonValue::Array(vec![text("w")])), Some(EntryFault::Malformed));
    assert_eq!(
        check(&JsonValue::Array(vec![JsonValue::Null, text("Alice")])),
        Some(EntryFault::Malformed)
    );
    assert_eq!(
        check(&JsonValue::Array(vec![text("not base64!"), text("Alice")])),
        Some(EntryFault::Undecodable)
    );
    let witness = match container.value_at(0) {
        JsonValue::Array(parts) => parts[0].clone(),
        _ => panic!("an entry is an array"),
    };
    assert_eq!(
        check(&JsonValue::Array(vec![witness.clone(), text("Bob")])),
        Some(EntryFault::NotMember)
    );
    assert_eq!(
        check(&JsonValue::Array(vec![witness, text("Alice"), text("more")])),
        None
    );

    let mut malformed = container.clone();
    malformed.insert("birthdate".to_string(), JsonValue::Bool(false));
    assert_eq!(
        CsdJwtInstance::verify_witness_value_container(&malformed, &accumulator, &keypair.public_key, &params),
        Err(SdError::MalformedField)
    );
    assert_eq!(
        CsdJwtInstance::verify_witness_value_container(&container, &accumulator, &keypair.public_key, &params),
        Ok(())
    );
    assert_eq!(
        CsdJwtInstance::verify_witness_value_container(&JsonMap::new(), &accumulator, &keypair.public_key, &params),
        Ok(())
    );
}

#[test]
fn the_first_entry_that_fails_is_reported() {
    let mut rng = StdRng::seed_from_u64(53);
    let (params, keypair) = CsdJwtInstance::initialize_params(&mut rng);
    let (vc, _) = CsdJwtInstance::issue_vc(&raw_credential(), &keypair.secret_key, &params).ok().expect("issued");
    let mut container = container_of(&vc);
    container.insert("birthdate".to_string(), JsonValue::Array(vec![text("not base64!"), text("x")]));
    container.insert("age".to_string(), JsonValue::Null);
    let changed = with_container(&vc, container);
    assert_eq!(CsdJwtInstance::verify_vc(&changed, &keypair.public_key, &params), Err(SdError::Decoding));
}

#[test]
fn the_presentation_is_the_credential_with_the_disclosed_entries() {
    let mut rng = StdRng::seed_from_u64(59);
    let (params, keypair) = CsdJwtInstance::initialize_params(&mut rng);
    let (vc, _) = CsdJwtInstance::issue_vc(&raw_credential(), &keypair.secret_key, &params).ok().expect("issued");
    let full = container_of(&vc);
    let disclosures = vec!["age".to_string(), "email".to_string(), "name".to_string(), "age".to_string()];
    let vp = CsdJwtInstance::present(&vc, &disclosures).ok().expect("a presentation");
    assert_eq!(keys(&vp), keys(&vc));
    assert_eq!(vp.get("accumulator"), vc.get("accumulator"));
    let container = container_of(&vp);
    assert_eq!(keys(&container), vec!["name", "age"]);
    assert_eq!(container.value_at(0), full.value_at(0));
    assert_eq!(container.value_at(1), full.value_at(2));
    assert_eq!(CsdJwtInstance::verify_vc(&vp, &keypair.public_key, &params), Ok(()));
}

#[test]
fn a_presentation_cannot_be_made_without_the_container() {
    let vc = raw_credential();
    assert_eq!(CsdJwtInstance::present(&vc, &vec!["name".to_string()]), Err(SdError::MissingField));
    let (public_key, private_key) = {
        let pair = josekit::jws::ES256.generate_key_pair().expect("a key pair");
        (pair.to_pem_public_key(), pair.to_pem_private_key())
    };
    assert_eq!(
        CsdJwtInstance::issue_vp(&vc, &vec!["name".to_string()], &private_key).err(),
        Some(SdError::MissingField)
    );
    let mut rng = StdRng::seed_from_u64(61);
    let (params, keypair) = CsdJwtInstance::initialize_params(&mut rng);
    let jwt = CsdJwtInstance::encode_and_sign_jwt(&vc, &private_key).ok().expect("an envelope");
    assert_eq!(
        CsdJwtInstance::verify_vp(&jwt, &keypair.public_key, &public_key, &params),
        Err(SdError::MissingField)
    );
}

#[test]
fn a_presentation_signed_by_another_holder_is_refused() {
    let mut rng = StdRng::seed_from_u64(67);
    let (params, keypair) = CsdJwtInstance::initialize_params(&mut rng);
    let (vc, _) = CsdJwtInstance::issue_vc(&raw_credential(), &keypair.secret_key, &params).ok().expect("issued");
    let holder = josekit::jws::ES256.generate_key_pair().expect("a key pair");
    let other = josekit::jws::ES256.generate_key_pair().expect("a key pair");
    let (_, jwt) = CsdJwtInstance::issue_vp(&vc, &vec!["name".to_string()], &holder.to_pem_private_key())
        .ok()
        .expect("presented");
    assert_eq!(
        CsdJwtInstance::verify_vp(&jwt, &keypair.public_key, &other.to_pem_public_key(), &params),
        Err(SdError::SignatureInvalid)
    );
    assert_eq!(
        CsdJwtInstance::verify_vp(&jwt, &keypair.public_key, &holder.to_pem_public_key(), &params),
        Ok(())
    );
}

fn flipped(text: &str, at: usize) -> String {
    let mut bytes = text.as_bytes().to_vec();
    bytes[at] = if bytes[at] == b'A' { b'B' } else { b'A' };
    String::from_utf8(bytes).ok().expect("base64url is ASCII")
}

#[test]
fn a_flipped_character_of_the_accumulator_makes_verification_fail() {
    let mut rng = StdRng::seed_from_u64(71);
    let (params, keypair) = CsdJwtInstance::initialize_params(&mut rng);
    let (vc, _) = CsdJwtInstance::issue_vc(&raw_credential(), &keypair.secret_key, &params).ok().expect("issued");
    let accumulator_text = match CsdJwtInstance::get_and_decode(&vc, "accumulator".to_string()) {
        Ok(JsonValue::Text(encoded)) => encoded,
        _ => panic!("the accumulator is text"),
    };
    for at in 0..accumulator_text.len() {
        let mut changed = vc.clone();
        assert_eq!(
            CsdJwtInstance::serialize_and_insert(
                &mut changed,
                "accumulator".to_string(),
                &text(&flipped(&accumulator_text, at))
            ),
            Ok(())
        );
        assert!(CsdJwtInstance::verify_vc(&changed, &keypair.public_key, &params).is_err());
    }
}

#[test]
fn a_flipped_character_of_a_witness_makes_verification_fail() {
    let mut rng = StdRng::seed_from_u64(73);
    let (params, keypair) = CsdJwtInstance::initialize_params(&mut rng);
    let (vc, _) = CsdJwtInstance::issue_vc(&raw_credential(), &keypair.secret_key, &params).ok().expect("issued");
    let container = container_of(&vc);
    let (witness_text, value) = match container.value_at(1) {
        JsonValue::Array(parts) => match &parts[0] {
            JsonValue::Text(encoded) => (encoded.clone(), parts[1].clone()),
            _ => panic!("the witness is text"),
        },
        _ => panic!("an entry is an array"),
    };
    for at in 0..witness_text.len() {
        let mut changed = container.clone();
        changed.insert(
            "birthdate".to_string(),
            JsonValue::Array(vec![text(&flipped(&witness_text, at)), value.clone()]),
        );
        let outcome = CsdJwtInstance::verify_vc(&with_container(&vc, changed), &keypair.public_key, &params);
        assert!(
            outcome == Err(SdError::Decoding)
                || outcome == Err(SdError::MembershipVerificationFailure("birthdate".to_string()))
        );
    }
}

#[test]
fn a_flipped_character_of_a_value_makes_verification_fail() {
    let mut rng = StdRng::seed_from_u64(79);
    let (params, keypair) = CsdJwtInstance::initialize_params(&mut rng);
    let holder = josekit::jws::ES256.generate_key_pair().expect("a key pair");
    let (vc, _) = CsdJwtInstance::issue_vc(&raw_credential(), &keypair.secret_key, &params).ok().expect("issued");
    let mut container = container_of(&vc);
    let witness = match container.value_at(0) {
        JsonValue::Array(parts) => parts[0].clone(),
        _ => panic!("an entry is an array"),
    };
    container.insert("name".to_string(), JsonValue::Array(vec![witness, text("Alicf")]));
    let changed = with_container(&vc, container);
    let (_, jwt) = CsdJwtInstance::issue_vp(&changed, &vec!["name".to_string()], &holder.to_pem_private_key())
        .ok()
        .expect("presented");
    assert_eq!(
        CsdJwtInstance::verify_vp(&jwt, &keypair.public_key, &holder.to_pem_public_key(), &params),
        Err(SdError::MembershipVerificationFailure("name".to_string()))
    );
}
