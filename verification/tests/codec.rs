//! The bytes of requests and responses, as `serde_cbor` writes and reads them.

use nsm_api::api::{ErrorCode, Request, Response};
use nsm_api::cbor::Item;
use nsm_api::driver::{
    nsm_decode_response_from_cbor, nsm_encode_request_to_cbor, nsm_response_from_item,
    DriverError,
};
use serde_cbor::Value;
use std::collections::BTreeMap;

fn map_of(entries: Vec<(&str, Value)>) -> Value {
    let mut map = BTreeMap::new();
    for (key, value) in entries {
        map.insert(Value::Text(key.to_string()), value);
    }
    Value::Map(map)
}

fn random_response(random: Vec<u8>) -> Vec<u8> {
    let value = map_of(vec![("GetRandom", map_of(vec![("random", Value::Bytes(random))]))]);
    serde_cbor::to_vec(&value).unwrap()
}

fn is_cbor_error(decoded: &Result<Response, DriverError>) -> bool {
    matches!(decoded, Err(DriverError::Cbor(_)))
}

#[test]
fn get_random_request_is_nine_letters_of_text() {
    let bytes = nsm_encode_request_to_cbor(Request::GetRandom).unwrap();
    let mut expected = vec![0x69];
    expected.extend_from_slice(b"GetRandom");
    assert_eq!(bytes, expected);
}

#[test]
fn describe_nsm_request_is_its_name() {
    let bytes = nsm_encode_request_to_cbor(Request::DescribeNSM).unwrap();
    let mut expected = vec![0x6b];
    expected.extend_from_slice(b"DescribeNSM");
    assert_eq!(bytes, expected);
}

#[test]
fn describe_pcr_request_is_a_map_of_maps() {
    let bytes = nsm_encode_request_to_cbor(Request::DescribePCR { index: 4 }).unwrap();
    let mut expected = vec![0xa1, 0x6b];
    expected.extend_from_slice(b"DescribePCR");
    expected.extend_from_slice(&[0xa1, 0x65]);
    expected.extend_from_slice(b"index");
    expected.push(0x04);
    assert_eq!(bytes, expected);
}

#[test]
fn large_index_takes_two_bytes() {
    let bytes = nsm_encode_request_to_cbor(Request::LockPCR { index: 300 }).unwrap();
    let mut expected = vec![0xa1, 0x67];
    expected.extend_from_slice(b"LockPCR");
    expected.extend_from_slice(&[0xa1, 0x65]);
    expected.extend_from_slice(b"index");
    expected.extend_from_slice(&[0x19, 0x01, 0x2c]);
    assert_eq!(bytes, expected);
}

#[test]
fn extend_pcr_request_orders_its_fields_by_length() {
    let request = Request::ExtendPCR { index: 1, data: vec![1, 2, 3] };
    let bytes = nsm_encode_request_to_cbor(request).unwrap();
    let mut expected = vec![0xa1, 0x69];
    expected.extend_from_slice(b"ExtendPCR");
    expected.extend_from_slice(&[0xa2, 0x64]);
    expected.extend_from_slice(b"data");
    expected.extend_from_slice(&[0x43, 1, 2, 3, 0x65]);
    expected.extend_from_slice(b"index");
    expected.push(0x01);
    assert_eq!(bytes, expected);
}

#[test]
fn encoded_request_reads_back_as_the_same_value() {
    let request = Request::Attestation {
        user_data: Some(vec![0x11; 40]),
        nonce: None,
        public_key: Some(vec![0x22; 3]),
    };
    let bytes = nsm_encode_request_to_cbor(request).unwrap();
    let value: Value = serde_cbor::from_slice(&bytes).unwrap();
    let expected = map_of(vec![(
        "Attestation",
        map_of(vec![
            ("user_data", Value::Bytes(vec![0x11; 40])),
            ("nonce", Value::Null),
            ("public_key", Value::Bytes(vec![0x22; 3])),
        ]),
    )]);
    assert_eq!(value, expected);
}

#[test]
fn encoding_the_same_request_twice_gives_the_same_bytes() {
    let first = nsm_encode_request_to_cbor(Request::ExtendPCR { index: 9, data: vec![7; 100] });
    let second = nsm_encode_request_to_cbor(Request::ExtendPCR { index: 9, data: vec![7; 100] });
    assert_eq!(first.unwrap(), second.unwrap());
}

#[test]
fn response_is_decoded_from_exactly_its_bytes() {
    let bytes = random_response(vec![1, 2, 3, 4]);
    assert_eq!(
        nsm_decode_response_from_cbor(&bytes).unwrap(),
        Response::GetRandom { random: vec![1, 2, 3, 4] }
    );
}

#[test]
fn response_is_decoded_from_hand_written_bytes() {
    let mut bytes = vec![0xa1, 0x65];
    bytes.extend_from_slice(b"Error");
    bytes.push(0x6c);
    bytes.extend_from_slice(b"InvalidIndex");
    assert_eq!(
        nsm_decode_response_from_cbor(&bytes).unwrap(),
        Response::Error(ErrorCode::InvalidIndex)
    );
}

#[test]
fn zero_padding_after_the_response_is_tolerated() {
    let mut bytes = random_response(vec![0xff; 16]);
    bytes.resize(0x3000, 0);
    assert_eq!(
        nsm_decode_response_from_cbor(&bytes).unwrap(),
        Response::GetRandom { random: vec![0xff; 16] }
    );
}

#[test]
fn anything_but_zeros_after_the_response_is_refused() {
    let mut bytes = random_response(vec![5; 8]);
    bytes.extend_from_slice(&[0, 0, 1, 0]);
    assert!(is_cbor_error(&nsm_decode_response_from_cbor(&bytes)));
    let mut twice = random_response(vec![5; 8]);
    twice.extend(random_response(vec![6; 8]));
    assert!(is_cbor_error(&nsm_decode_response_from_cbor(&twice)));
}

#[test]
fn truncated_response_is_refused() {
    let bytes = random_response(vec![3; 64]);
    for cut in [0, 1, 10, bytes.len() - 1] {
        assert!(is_cbor_error(&nsm_decode_response_from_cbor(&bytes[..cut])));
    }
}

#[test]
fn region_of_zeros_is_no_response() {
    assert!(is_cbor_error(&nsm_decode_response_from_cbor(&vec![0u8; 0x3000])));
}

#[test]
fn bytes_that_are_no_cbor_are_refused() {
    assert!(is_cbor_error(&nsm_decode_response_from_cbor(&[0xff, 0x00])));
    assert!(is_cbor_error(&nsm_decode_response_from_cbor(&[0x1c])));
}

#[test]
fn well_formed_item_outside_the_schema_is_refused() {
    let bytes = serde_cbor::to_vec(&Value::Text("GetRandom".to_string())).unwrap();
    assert!(is_cbor_error(&nsm_decode_response_from_cbor(&bytes)));
    let bytes = serde_cbor::to_vec(&Value::Float(1.5)).unwrap();
    assert!(is_cbor_error(&nsm_decode_response_from_cbor(&bytes)));
    let value = map_of(vec![("GetRandom", map_of(vec![("random", Value::Integer(7))]))]);
    let bytes = serde_cbor::to_vec(&value).unwrap();
    assert!(is_cbor_error(&nsm_decode_response_from_cbor(&bytes)));
}

#[test]
fn item_is_accepted_only_with_padding_behind_it() {
    let item = Item::Text("LockPCR".to_string());
    let region = [0x67, b'L', b'o', b'c', b'k', b'P', b'C', b'R', 0, 0];
    assert_eq!(nsm_response_from_item(&item, &region, 8).unwrap(), Response::LockPCR);
    assert_eq!(nsm_response_from_item(&item, &region, 10).unwrap(), Response::LockPCR);
    assert_eq!(nsm_response_from_item(&item, &region, 11).unwrap(), Response::LockPCR);
    assert!(is_cbor_error(&nsm_response_from_item(&item, &region, 7)));
    let stranger = Item::Text("Lock".to_string());
    assert!(is_cbor_error(&nsm_response_from_item(&stranger, &region, 8)));
}
