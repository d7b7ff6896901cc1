use csd_jwt::benchmark::{
    create_mock_disclosures, decimal_text, measures_presentations, metric_file_name, mock_key_text,
    mock_value_text, presentation_sizes, substitute_with_mock_claims, VP_ISSUANCE_DURATION,
};
use csd_jwt::json::{JsonMap, JsonValue};
use csd_jwt::sd_algorithms::accumulators::csd_jwt::CsdJwtInstance;
use csd_jwt::sd_algorithms::sd_algorithm::SdAlgorithm;

#[test]
fn numbers_are_written_in_decimal() {
    assert_eq!(decimal_text(0), "0");
    assert_eq!(decimal_text(7), "7");
    assert_eq!(decimal_text(10), "10");
    assert_eq!(decimal_text(109), "109");
    assert_eq!(decimal_text(9876543210), "9876543210");
    assert_eq!(decimal_text(usize::MAX), usize::MAX.to_string());
}

#[test]
fn synthetic_claims_are_numbered_from_one() {
    assert_eq!(mock_key_text(1), "Claim Key 1");
    assert_eq!(mock_value_text(12), "Claim Value 12");
    let mut raw_vc = JsonMap::new();
    raw_vc.insert("id".to_string(), JsonValue::Text("x".to_string()));
    assert_eq!(substitute_with_mock_claims(&mut raw_vc, 3), Ok(()));
    let claims = CsdJwtInstance::extract_claims(&raw_vc).ok().expect("claims");
    assert_eq!(claims.len(), 3);
    for i in 0..3 {
        assert_eq!(claims.key_at(i), &format!("Claim Key {}", i + 1));
        assert_eq!(claims.value_at(i), JsonValue::Text(format!("Claim Value {}", i + 1)));
    }
}

#[test]
fn synthetic_claims_replace_the_claims_that_were_there() {
    let mut old_claims = JsonMap::new();
    old_claims.insert("name".to_string(), JsonValue::Text("Alice".to_string()));
    let mut raw_vc = JsonMap::new();
    raw_vc.insert("credentialSubject".to_string(), JsonValue::Object(old_claims));
    raw_vc.insert("id".to_string(), JsonValue::Text("x".to_string()));
    assert_eq!(substitute_with_mock_claims(&mut raw_vc, 1), Ok(()));
    assert_eq!(raw_vc.key_at(0), "credentialSubject");
    let claims = CsdJwtInstance::extract_claims(&raw_vc).ok().expect("claims");
    assert_eq!(claims.len(), 1);
    assert_eq!(claims.key_at(0), "Claim Key 1");
    assert_eq!(substitute_with_mock_claims(&mut raw_vc, 0), Ok(()));
    assert_eq!(CsdJwtInstance::extract_claims(&raw_vc).ok().expect("claims").len(), 0);
}

#[test]
fn synthetic_disclosures_replace_the_list() {
    let mut disclosures = vec!["left over".to_string()];
    create_mock_disclosures(&mut disclosures, 11);
    assert_eq!(disclosures.len(), 11);
    assert_eq!(disclosures[0], "Claim Key 1");
    assert_eq!(disclosures[9], "Claim Key 10");
    assert_eq!(disclosures[10], "Claim Key 11");
    create_mock_disclosures(&mut disclosures, 0);
    assert!(disclosures.is_empty());
}

#[test]
fn presentations_are_measured_at_every_tenth_size() {
    assert!(measures_presentations(10));
    assert!(measures_presentations(100));
    assert!(!measures_presentations(11));
    assert!(!measures_presentations(9));
    assert!(measures_presentations(0));
}

#[test]
fn presentation_sizes_go_up_in_tenths() {
    assert_eq!(presentation_sizes(10), vec![1, 2, 3, 4, 5, 6, 7, 8, 9, 10]);
    assert_eq!(presentation_sizes(20), vec![1, 3, 5, 7, 9, 11, 13, 15, 17, 19]);
    assert_eq!(presentation_sizes(100), vec![1, 11, 21, 31, 41, 51, 61, 71, 81, 91]);
    assert_eq!(presentation_sizes(15), (1..=15).collect::<Vec<usize>>());
    assert_eq!(presentation_sizes(9), Vec::<usize>::new());
    assert_eq!(presentation_sizes(0), Vec::<usize>::new());
    for n in 10..60usize {
        assert_eq!(presentation_sizes(n), (1..=n).step_by(n / 10).collect::<Vec<usize>>());
    }
}

#[test]
fn files_are_named_by_size_and_measurement() {
    assert_eq!(metric_file_name(20, VP_ISSUANCE_DURATION), "20_vp_issuance_duration");
    assert_eq!(metric_file_name(100, "vp_jwt_length"), "100_vp_jwt_length");
}
