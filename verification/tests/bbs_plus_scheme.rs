use csd_jwt::error::SdError;
use csd_jwt::json::{JsonMap, JsonValue};
use csd_jwt::json_codec::parse_json;
use csd_jwt::sd_algorithms::sd_algorithm::SdAlgorithm;
use csd_jwt::sd_algorithms::signatures::bbs_plus::BBSPlusInstance;
use rand::Rng;
use zkryptium::bbsplus::ciphersuites::{BbsCiphersuite, Bls12381Sha256};
use zkryptium::bbsplus::keys::{BBSplusPublicKey, BBSplusSecretKey};
use zkryptium::keys::pair::KeyPair;
use zkryptium::schemes::algorithms::BBSplus;

const VC: &str = r#"{
    "@context": ["https://www.w3.org/2018/credentials/v1"],
    "id": "http://example.edu/credentials/3732",
    "type": ["VerifiableCredential", "UniversityDegreeCredential"],
    "issuer": "https://example.edu/issuers/565049",
    "issuanceDate": "2010-01-01T00:00:00Z",
    "credentialSubject": {
        "name": "Alice",
        "birthdate": "2000-01-01"
    }
}"#;

fn raw_credential() -> JsonMap {
    match parse_json(VC) {
        Ok(JsonValue::Object(map)) => map,
        _ => panic!("the template is a JSON object"),
    }
}

fn holder_keys() -> (Vec<u8>, Vec<u8>) {
    let pair = josekit::jws::ES256.generate_key_pair().expect("a key pair");
    (pair.to_pem_public_key(), pair.to_pem_private_key())
}

fn issuer_keys() -> (BBSplusPublicKey, BBSplusSecretKey) {
    let mut rng = rand::rng();
    let key_material: Vec<u8> = (0..Bls12381Sha256::IKM_LEN).map(|_| rng.random()).collect();
    let issuer_keypair = match KeyPair::<BBSplus<Bls12381Sha256>>::generate(&key_material, None, None) {
        Ok(keypair) => keypair,
        Err(err) => panic!("[BBS+] Error in issuing keypair [{err}]"),
    };
    (issuer_keypair.public_key().clone(), issuer_keypair.private_key().clone())
}

#[test]
fn bbsplus() {
    let raw_vc = raw_credential();
    let (issuer_pk, issuer_sk) = issuer_keys();
    let (holder_public_key, holder_private_key) = holder_keys();

    let (vc, _vc_jwt) = match BBSPlusInstance::issue_vc(&raw_vc, &issuer_pk, &issuer_sk) {
        Ok(vc) => vc,
        Err(err) => panic!("[BBS+] Failed to issue vc [{}].", err.message()),
    };

    match BBSPlusInstance::verify_vc(&vc, &issuer_pk) {
        Ok(_) => println!("[BBS+] Successfully verified vc."),
        Err(err) => panic!("[BBS+] Failed to verify vc [{}].", err.message()),
    };

    let disclosures: Vec<String> = vec!["name", "birthdate"].iter().map(|x| x.to_string()).collect();

    let (_vp, vp_jwt) = match BBSPlusInstance::issue_vp(&vc, &disclosures, &issuer_pk, &holder_private_key) {
        Ok(vp) => vp,
        Err(err) => panic!("[BBS+] Failed to issue vp: [{}].", err.message()),
    };

    match BBSPlusInstance::verify_vp(&vp_jwt, &issuer_pk, &holder_public_key) {
        Ok(_) => println!("[BBS+] Successfully verified vp."),
        Err(err) => panic!("[BBS+] Failed to verify vp [{}].", err.message()),
    };
}

#[test]
fn bbs_presentation_of_one_claim_keeps_that_claim_only() {
    let raw_vc = raw_credential();
    let (issuer_pk, issuer_sk) = issuer_keys();
    let (holder_public_key, holder_private_key) = holder_keys();
    let (vc, _) = BBSPlusInstance::issue_vc(&raw_vc, &issuer_pk, &issuer_sk).ok().expect("issued");
    let disclosures = vec!["birthdate".to_string()];
    let (vp, vp_jwt) = BBSPlusInstance::issue_vp(&vc, &disclosures, &issuer_pk, &holder_private_key)
        .ok()
        .expect("presented");
    let claims = BBSPlusInstance::extract_claims(&vp).ok().expect("claims");
    assert_eq!(claims.len(), 1);
    assert_eq!(claims.key_at(0), "birthdate");
    match BBSPlusInstance::get_and_decode(&vp, "indices".to_string()) {
        Ok(JsonValue::Array(items)) => assert_eq!(items.len(), 1),
        _ => panic!("the positions are an array"),
    }
    assert!(matches!(BBSPlusInstance::verify_vp(&vp_jwt, &issuer_pk, &holder_public_key), Ok(())));
}

#[test]
fn bbs_credential_with_a_changed_claim_is_refused() {
    let raw_vc = raw_credential();
    let (issuer_pk, issuer_sk) = issuer_keys();
    let (mut vc, _) = BBSPlusInstance::issue_vc(&raw_vc, &issuer_pk, &issuer_sk).ok().expect("issued");
    let mut claims = BBSPlusInstance::extract_claims(&vc).ok().expect("claims");
    claims.insert("name".to_string(), JsonValue::Text("Mallory".to_string()));
    vc.insert("credentialSubject".to_string(), JsonValue::Object(claims));
    assert!(matches!(BBSPlusInstance::verify_vc(&vc, &issuer_pk), Err(SdError::SignatureInvalid)));
}

#[test]
fn bbs_credential_keeps_its_claims_and_carries_a_signature() {
    let raw_vc = raw_credential();
    let (issuer_pk, issuer_sk) = issuer_keys();
    let (vc, jwt) = BBSPlusInstance::issue_vc(&raw_vc, &issuer_pk, &issuer_sk).ok().expect("issued");
    assert_eq!(vc.len(), raw_vc.len() + 1);
    assert_eq!(vc.key_at(vc.len() - 1), "signature");
    assert_eq!(BBSPlusInstance::extract_claims(&vc), BBSPlusInstance::extract_claims(&raw_vc));
    assert_eq!(BBSPlusInstance::decode_jwt(&jwt), Ok(vc.clone()));
    let (again, _) = BBSPlusInstance::issue_vc(&raw_vc, &issuer_pk, &issuer_sk).ok().expect("issued");
    assert_eq!(again, vc);
}

#[test]
fn bbs_credential_is_refused_by_the_key_of_another_issuer() {
    let raw_vc = raw_credential();
    let (issuer_pk, issuer_sk) = issuer_keys();
    let (other_pk, _) = issuer_keys();
    let (vc, _) = BBSPlusInstance::issue_vc(&raw_vc, &issuer_pk, &issuer_sk).ok().expect("issued");
    assert_eq!(BBSPlusInstance::verify_vc(&vc, &other_pk), Err(SdError::SignatureInvalid));
}

#[test]
fn bbs_operations_fail_on_credentials_without_their_fields() {
    let (issuer_pk, issuer_sk) = issuer_keys();
    let (holder_public_key, holder_private_key) = holder_keys();
    let mut no_claims = raw_credential();
    no_claims.remove("credentialSubject");
    assert_eq!(
        BBSPlusInstance::issue_vc(&no_claims, &issuer_pk, &issuer_sk).err(),
        Some(SdError::MissingField)
    );
    let unsigned = raw_credential();
    assert_eq!(BBSPlusInstance::verify_vc(&unsigned, &issuer_pk), Err(SdError::MissingField));
    assert_eq!(
        BBSPlusInstance::issue_vp(&unsigned, &vec![], &issuer_pk, &holder_private_key).err(),
        Some(SdError::MissingField)
    );
    let jwt = BBSPlusInstance::encode_and_sign_jwt(&unsigned, &holder_private_key).ok().expect("an envelope");
    assert_eq!(
        BBSPlusInstance::verify_vp(&jwt, &issuer_pk, &holder_public_key),
        Err(SdError::MissingField)
    );
    let mut bad_signature = raw_credential();
    assert_eq!(
        BBSPlusInstance::serialize_and_insert(
            &mut bad_signature,
            "signature".to_string(),
            &JsonValue::Text("x".to_string())
        ),
        Ok(())
    );
    assert_eq!(BBSPlusInstance::verify_vc(&bad_signature, &issuer_pk), Err(SdError::Decoding));
}

#[test]
fn bbs_presentation_with_a_changed_claim_is_refused() {
    let raw_vc = raw_credential();
    let (issuer_pk, issuer_sk) = issuer_keys();
    let (_, holder_private_key) = holder_keys();
    let (vc, _) = BBSPlusInstance::issue_vc(&raw_vc, &issuer_pk, &issuer_sk).ok().expect("issued");
    let disclosures = vec!["name".to_string()];
    let (mut vp, _) = BBSPlusInstance::issue_vp(&vc, &disclosures, &issuer_pk, &holder_private_key)
        .ok()
        .expect("presented");
    assert_eq!(BBSPlusInstance::verify_presentation(&vp, &issuer_pk), Ok(()));
    let mut claims = JsonMap::new();
    claims.insert("name".to_string(), JsonValue::Text("Mallory".to_string()));
    vp.insert("credentialSubject".to_string(), JsonValue::Object(claims));
    assert_eq!(BBSPlusInstance::verify_presentation(&vp, &issuer_pk), Err(SdError::SignatureInvalid));
}

#[test]
fn bbs_presentation_carries_a_nonce_of_thirty_two_bytes() {
    let raw_vc = raw_credential();
    let (issuer_pk, issuer_sk) = issuer_keys();
    let (_, holder_private_key) = holder_keys();
    let (vc, _) = BBSPlusInstance::issue_vc(&raw_vc, &issuer_pk, &issuer_sk).ok().expect("issued");
    let (vp, _) = BBSPlusInstance::issue_vp(&vc, &vec!["name".to_string()], &issuer_pk, &holder_private_key)
        .ok()
        .expect("presented");
    match BBSPlusInstance::get_and_decode(&vp, "nonce".to_string()) {
        Ok(JsonValue::Array(items)) => assert_eq!(items.len(), 32),
        _ => panic!("the nonce is an array"),
    }
    let (other, _) = BBSPlusInstance::issue_vp(&vc, &vec!["name".to_string()], &issuer_pk, &holder_private_key)
        .ok()
        .expect("presented");
    assert_ne!(vp.get("nonce"), other.get("nonce"));
}

#[test]
fn bbs_signature_of_no_scheme_is_a_decoding_failure() {
    let (issuer_pk, issuer_sk) = issuer_keys();
    let (vc, _) = BBSPlusInstance::issue_vc(&raw_credential(), &issuer_pk, &issuer_sk).ok().expect("issued");
    let mut other_variant = JsonMap::new();
    other_variant.insert("_Unreachable".to_string(), JsonValue::Null);
    let mut changed = vc.clone();
    assert_eq!(
        BBSPlusInstance::serialize_and_insert(
            &mut changed,
            "signature".to_string(),
            &JsonValue::Object(other_variant.clone())
        ),
        Ok(())
    );
    assert_eq!(BBSPlusInstance::verify_vc(&changed, &issuer_pk), Err(SdError::Decoding));
    assert_eq!(BBSPlusInstance::carried_signature_of(&changed).err(), Some(SdError::Decoding));
    let (_, holder_private_key) = holder_keys();
    assert_eq!(
        BBSPlusInstance::issue_vp(&changed, &vec!["name".to_string()], &issuer_pk, &holder_private_key).err(),
        Some(SdError::Decoding)
    );
    let (mut vp, _) = BBSPlusInstance::issue_vp(&vc, &vec!["name".to_string()], &issuer_pk, &holder_private_key)
        .ok()
        .expect("presented");
    assert_eq!(
        BBSPlusInstance::serialize_and_insert(&mut vp, "signature".to_string(), &JsonValue::Object(other_variant)),
        Ok(())
    );
    assert_eq!(BBSPlusInstance::verify_presentation(&vp, &issuer_pk), Err(SdError::Decoding));
}

#[test]
fn bbs_presentation_with_positions_out_of_range_is_refused() {
    let (issuer_pk, issuer_sk) = issuer_keys();
    let (_, holder_private_key) = holder_keys();
    let (vc, _) = BBSPlusInstance::issue_vc(&raw_credential(), &issuer_pk, &issuer_sk).ok().expect("issued");
    let (mut vp, _) = BBSPlusInstance::issue_vp(&vc, &vec!["name".to_string()], &issuer_pk, &holder_private_key)
        .ok()
        .expect("presented");
    let positions = csd_jwt::json_lists::positions_to_json(&vec![usize::MAX]);
    assert_eq!(BBSPlusInstance::serialize_and_insert(&mut vp, "indices".to_string(), &positions), Ok(()));
    assert_eq!(BBSPlusInstance::verify_presentation(&vp, &issuer_pk), Err(SdError::SignatureInvalid));
    let positions = csd_jwt::json_lists::positions_to_json(&vec![]);
    assert_eq!(BBSPlusInstance::serialize_and_insert(&mut vp, "indices".to_string(), &positions), Ok(()));
    assert_eq!(BBSPlusInstance::verify_presentation(&vp, &issuer_pk), Err(SdError::SignatureInvalid));
    assert_eq!(
        BBSPlusInstance::serialize_and_insert(&mut vp, "indices".to_string(), &JsonValue::Text("0".to_string())),
        Ok(())
    );
    assert_eq!(BBSPlusInstance::verify_presentation(&vp, &issuer_pk), Err(SdError::Decoding));
}

#[test]
fn bbs_presentation_cannot_be_signed_with_bytes_that_are_no_key() {
    let (issuer_pk, issuer_sk) = issuer_keys();
    let (holder_public_key, _) = holder_keys();
    let (vc, _) = BBSPlusInstance::issue_vc(&raw_credential(), &issuer_pk, &issuer_sk).ok().expect("issued");
    let disclosures = vec!["name".to_string()];
    assert_eq!(
        BBSPlusInstance::issue_vp(&vc, &disclosures, &issuer_pk, &b"not a key".to_vec()).err(),
        Some(SdError::KeyFormat)
    );
    assert_eq!(
        BBSPlusInstance::issue_vp(&vc, &disclosures, &issuer_pk, &holder_public_key).err(),
        Some(SdError::KeyFormat)
    );
}
