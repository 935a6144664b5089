use std::collections::BTreeMap;

use picoforge::cbor::{
    cbor_header, cbor_map_lookup_bytes, cbor_map_lookup_text_uint, cbor_map_lookup_uint,
    push_cbor_bytes, push_cbor_map_header, push_cbor_text, push_cbor_uint,
};
use serde_cbor_2::{to_vec, Value};

fn uint_bytes(n: u64) -> Vec<u8> {
    let mut out = Vec::new();
    push_cbor_uint(&mut out, n);
    out
}

#[test]
fn uint_encoding_matches_reference_encoder() {
    for n in [
        0u64,
        1,
        10,
        23,
        24,
        255,
        256,
        65535,
        65536,
        0xFFFF_FFFF,
        0x1_0000_0000,
        0x269f_3b09_eceb_805f,
        u64::MAX,
    ] {
        let reference = to_vec(&Value::Integer(n as i128)).expect("serde encode");
        assert_eq!(uint_bytes(n), reference, "value {}", n);
    }
}

#[test]
fn bytes_and_text_encoding_match_reference_encoder() {
    let payload: Vec<u8> = (0..40).collect();
    let mut mine = Vec::new();
    push_cbor_bytes(&mut mine, &payload);
    let reference = to_vec(&Value::Bytes(payload.clone())).expect("serde encode");
    assert_eq!(mine, reference);

    let mut mine_text = Vec::new();
    push_cbor_text(&mut mine_text, "gpio");
    let reference_text = to_vec(&Value::Text(String::from("gpio"))).expect("serde encode");
    assert_eq!(mine_text, reference_text);
}

#[test]
fn map_encoding_matches_reference_encoder() {
    let mut mine = Vec::new();
    push_cbor_map_header(&mut mine, 2);
    push_cbor_uint(&mut mine, 1);
    push_cbor_uint(&mut mine, 6);
    push_cbor_uint(&mut mine, 2);
    push_cbor_uint(&mut mine, 300);

    let mut m = BTreeMap::new();
    m.insert(Value::Integer(1), Value::Integer(6));
    m.insert(Value::Integer(2), Value::Integer(300));
    let reference = to_vec(&Value::Map(m)).expect("serde encode");
    assert_eq!(mine, reference);
}

#[test]
fn lookup_uint_reads_reference_documents() {
    let mut m = BTreeMap::new();
    m.insert(Value::Integer(1), Value::Integer(100));
    m.insert(Value::Integer(2), Value::Integer(2048));
    m.insert(Value::Integer(3), Value::Integer(8192));
    let doc = to_vec(&Value::Map(m)).expect("serde encode");
    assert_eq!(cbor_map_lookup_uint(&doc, 2), Some(2048));
    assert_eq!(cbor_map_lookup_uint(&doc, 3), Some(8192));
    assert_eq!(cbor_map_lookup_uint(&doc, 9), None);
}

#[test]
fn lookup_skips_structured_values() {
    // A GetInfo-shaped document: arrays, nested maps and byte strings
    // before the keys of interest.
    let mut options = BTreeMap::new();
    options.insert(Value::Text("clientPin".into()), Value::Bool(true));
    options.insert(Value::Text("rk".into()), Value::Bool(true));
    let mut m = BTreeMap::new();
    m.insert(
        Value::Integer(1),
        Value::Array(vec![Value::Text("FIDO_2_0".into()), Value::Text("FIDO_2_1".into())]),
    );
    m.insert(Value::Integer(3), Value::Bytes(vec![0xAB; 16]));
    m.insert(Value::Integer(4), Value::Map(options));
    m.insert(Value::Integer(14), Value::Integer(0x0102));
    let doc = to_vec(&Value::Map(m)).expect("serde encode");
    assert_eq!(cbor_map_lookup_bytes(&doc, 3), Some(vec![0xAB; 16]));
    assert_eq!(cbor_map_lookup_uint(&doc, 14), Some(0x0102));
    assert_eq!(cbor_map_lookup_bytes(&doc, 14), None, "an integer is not a byte string");
}

#[test]
fn lookup_text_keys() {
    let mut m = BTreeMap::new();
    m.insert(Value::Text("brightness".into()), Value::Integer(15));
    m.insert(Value::Text("gpio".into()), Value::Integer(25));
    let doc = to_vec(&Value::Map(m)).expect("serde encode");
    assert_eq!(cbor_map_lookup_text_uint(&doc, b"gpio"), Some(25));
    assert_eq!(cbor_map_lookup_text_uint(&doc, b"brightness"), Some(15));
    assert_eq!(cbor_map_lookup_text_uint(&doc, b"missing"), None);
}

#[test]
fn header_reader_classifies_documents() {
    let doc = to_vec(&Value::Map(BTreeMap::new())).expect("serde encode");
    let (major, n, after) = cbor_header(&doc, 0).expect("header");
    assert_eq!(major, 5);
    assert_eq!(n, 0);
    assert_eq!(after, 1);
    assert!(cbor_header(&[], 0).is_none());
}
