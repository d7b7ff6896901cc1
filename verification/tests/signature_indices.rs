use csd_jwt::json::{JsonNumber, JsonValue};
use csd_jwt::json_lists::{bytes_from_json, bytes_to_json, positions_from_json, positions_to_json};
use csd_jwt::json_codec::parse_json;
use csd_jwt::sd_algorithms::signatures::bbs_plus::BBSPlusInstance;
use csd_jwt::sd_algorithms::signatures::signature_sd_algorithm::{contains_index, SignatureSdAlgorithm};

#[test]
fn the_complement_lists_what_is_not_disclosed() {
    assert_eq!(BBSPlusInstance::complementary_indices(&vec![1, 3], 5), vec![0, 2, 4]);
    assert_eq!(BBSPlusInstance::complementary_indices(&vec![], 3), vec![0, 1, 2]);
    assert_eq!(BBSPlusInstance::complementary_indices(&vec![2, 0, 1], 3), Vec::<usize>::new());
    assert_eq!(BBSPlusInstance::complementary_indices(&vec![0], 0), Vec::<usize>::new());
    assert_eq!(BBSPlusInstance::complementary_indices(&vec![7, 1, 1], 3), vec![0, 2]);
}

#[test]
fn the_complement_and_the_disclosed_make_up_all_positions() {
    let disclosed = vec![4, 0, 5];
    let undisclosed = BBSPlusInstance::complementary_indices(&disclosed, 7);
    for index in 0..7usize {
        assert_ne!(contains_index(&disclosed, index), contains_index(&undisclosed, index));
    }
}

#[test]
fn positions_are_written_as_an_array_of_numbers() {
    let document = positions_to_json(&vec![0, 2, 17]);
    assert_eq!(
        document,
        JsonValue::Array(vec![
            JsonValue::Number(JsonNumber::PosInt(0)),
            JsonValue::Number(JsonNumber::PosInt(2)),
            JsonValue::Number(JsonNumber::PosInt(17)),
        ])
    );
    assert_eq!(positions_from_json(&document), Some(vec![0, 2, 17]));
    assert_eq!(positions_from_json(&positions_to_json(&vec![])), Some(vec![]));
}

#[test]
fn what_is_no_list_of_positions_is_refused() {
    assert_eq!(positions_from_json(&parse_json("[1, -1]").ok().expect("JSON")), None);
    assert_eq!(positions_from_json(&parse_json("[1, 1.5]").ok().expect("JSON")), None);
    assert_eq!(positions_from_json(&parse_json("[1, \"2\"]").ok().expect("JSON")), None);
    assert_eq!(positions_from_json(&parse_json("{}").ok().expect("JSON")), None);
    assert_eq!(positions_from_json(&parse_json("3").ok().expect("JSON")), None);
}

#[test]
fn bytes_are_written_as_an_array_of_numbers() {
    let document = bytes_to_json(&vec![0, 255, 16]);
    assert_eq!(bytes_from_json(&document), Some(vec![0, 255, 16]));
    assert_eq!(bytes_from_json(&parse_json("[0, 256]").ok().expect("JSON")), None);
    assert_eq!(bytes_from_json(&parse_json("[-1]").ok().expect("JSON")), None);
    assert_eq!(bytes_from_json(&parse_json("null").ok().expect("JSON")), None);
    assert_eq!(bytes_from_json(&parse_json("[]").ok().expect("JSON")), Some(vec![]));
}
