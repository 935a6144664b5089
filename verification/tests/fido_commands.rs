use std::collections::BTreeMap;

use picoforge::fido::{
    build_set_min_pin_payload, build_vendor_config_payload, decode_credential_id,
    fido_diff_is_empty, fido_no_changes_message, fido_write_success_message,
    make_fido_device_info, make_stored_credential, min_pin_outcome, parse_get_info,
    parse_memory_stats, parse_physical_config, plan_fido_write, require_write_pin,
    sign_config_command, str_contains, CborParam,
};
use picoforge::fido_consts::VendorConfigCommand;
use picoforge::types::{AppConfigInput, PFError};
use serde_cbor_2::{to_vec, Value};

fn pin_auth_reference(token: &[u8], sub_cmd: u8, sub_params: &[u8]) -> Vec<u8> {
    let mut message = vec![0xFFu8; 32];
    message.push(0x0D);
    message.push(sub_cmd);
    message.extend_from_slice(sub_params);
    let key = ring::hmac::Key::new(ring::hmac::HMAC_SHA256, token);
    ring::hmac::sign(&key, &message).as_ref()[0..16].to_vec()
}

#[test]
fn sign_config_command_matches_reference_hmac() {
    let token = [7u8; 32];
    let sub_params = [0xA1, 0x01, 0x06];
    let mine = sign_config_command(&token, 0x03, &sub_params);
    assert_eq!(mine, pin_auth_reference(&token, 0x03, &sub_params));
    assert_eq!(mine.len(), 16);
}

#[test]
fn min_pin_payload_is_canonical() {
    let token = [9u8; 32];
    let payload = build_set_min_pin_payload(&token, 6);
    assert_eq!(payload[0], 0x0D, "Config command byte first");

    let sub_params = to_vec(&Value::Map({
        let mut m = BTreeMap::new();
        m.insert(Value::Integer(1), Value::Integer(6));
        m
    }))
    .unwrap();
    let auth = pin_auth_reference(&token, 0x03, &sub_params);

    let mut config_map = BTreeMap::new();
    config_map.insert(Value::Integer(1), Value::Integer(3));
    config_map.insert(
        Value::Integer(2),
        Value::Map({
            let mut m = BTreeMap::new();
            m.insert(Value::Integer(1), Value::Integer(6));
            m
        }),
    );
    config_map.insert(Value::Integer(3), Value::Integer(1));
    config_map.insert(Value::Integer(4), Value::Bytes(auth));
    let reference = to_vec(&Value::Map(config_map)).unwrap();
    assert_eq!(&payload[1..], reference.as_slice());
}

#[test]
fn min_pin_map_keys_appear_in_ascending_wire_order() {
    let payload = build_set_min_pin_payload(&[1u8; 16], 8);
    // Byte 1 is the 4-entry map head; the first key of each entry follows
    // the previous entry's value. Keys 1..4 must appear in this order.
    assert_eq!(payload[1], 0xA4);
    assert_eq!(payload[2], 0x01, "first key 1");
    assert_eq!(payload[3], 0x03, "sub-command SetMinPinLength");
    assert_eq!(payload[4], 0x02, "second key 2");
    // Entry 2's value: the map {1: 8} = A1 01 08.
    assert_eq!(&payload[5..8], &[0xA1, 0x01, 0x08]);
    assert_eq!(payload[8], 0x03, "third key 3");
    assert_eq!(payload[9], 0x01, "PIN protocol 1");
    assert_eq!(payload[10], 0x04, "fourth key 4");
}

#[test]
fn vendor_payload_is_canonical() {
    let token = [3u8; 32];
    let vidpid: u64 = 0x2E8A_10FE;
    let payload = build_vendor_config_payload(
        &token,
        VendorConfigCommand::PhysicalVidPid,
        &CborParam::Int(vidpid),
    );
    assert_eq!(payload[0], 0x0D);

    let sub_params = to_vec(&Value::Map({
        let mut m = BTreeMap::new();
        m.insert(
            Value::Integer(1),
            Value::Integer(VendorConfigCommand::PhysicalVidPid.to_u64() as i128),
        );
        m.insert(Value::Integer(3), Value::Integer(vidpid as i128));
        m
    }))
    .unwrap();
    let auth = pin_auth_reference(&token, 0xFF, &sub_params);

    let mut config_map = BTreeMap::new();
    config_map.insert(Value::Integer(1), Value::Integer(0xFF));
    config_map.insert(
        Value::Integer(2),
        serde_cbor_2::from_slice::<Value>(&sub_params).unwrap(),
    );
    config_map.insert(Value::Integer(3), Value::Integer(1));
    config_map.insert(Value::Integer(4), Value::Bytes(auth));
    let reference = to_vec(&Value::Map(config_map)).unwrap();
    assert_eq!(&payload[1..], reference.as_slice());
}

#[test]
fn min_pin_decrease_rejection() {
    let device_err = PFError::Device(String::from("FIDO Operation Failed with Status: 0x37"));
    match min_pin_outcome(Err(device_err), 4) {
        Err(PFError::Device(m)) => {
            assert!(m.starts_with("Cannot decrease minimum PIN length."));
            assert!(m.contains("device reset"));
        }
        other => panic!("expected the decrease explanation, got {:?}", other),
    }
}

#[test]
fn min_pin_other_errors_pass_through() {
    let device_err = PFError::Device(String::from("Sequence mismatch"));
    match min_pin_outcome(Err(device_err), 4) {
        Err(PFError::Device(m)) => {
            assert_eq!(m, "setMinPINLength failed: Sequence mismatch")
        }
        other => panic!("expected generic wrap, got {:?}", other),
    }
}

#[test]
fn min_pin_success_message() {
    match min_pin_outcome(Ok(vec![]), 6) {
        Ok(m) => assert_eq!(m, "Minimum PIN length successfully set to 6"),
        other => panic!("expected success, got {:?}", other),
    }
}

#[test]
fn str_contains_finds_runs() {
    assert!(str_contains("Device returned CTAP Error: 0x37", "0x37"));
    assert!(!str_contains("Device returned CTAP Error: 0x36", "0x37"));
    assert!(str_contains("abc", ""));
    assert!(!str_contains("ab", "abc"));
}

#[test]
fn get_info_extracts_aaguid_and_version() {
    let mut m = BTreeMap::new();
    m.insert(
        Value::Integer(1),
        Value::Array(vec![Value::Text("FIDO_2_0".into())]),
    );
    m.insert(Value::Integer(3), Value::Bytes(vec![0x89, 0xFB, 0x94, 0xB7]));
    m.insert(Value::Integer(0x0E), Value::Integer(0x0502));
    let doc = to_vec(&Value::Map(m)).unwrap();
    let (aaguid, fw) = parse_get_info(&doc);
    assert_eq!(aaguid, "89FB94B7");
    assert_eq!(fw, "5.2");
}

#[test]
fn get_info_missing_keys_fall_back() {
    let doc = to_vec(&Value::Map(BTreeMap::new())).unwrap();
    let (aaguid, fw) = parse_get_info(&doc);
    assert_eq!(aaguid, "Unknown");
    assert_eq!(fw, "Unknown");
}

#[test]
fn memory_stats_parsing() {
    let mut m = BTreeMap::new();
    m.insert(Value::Integer(1), Value::Integer(1000));
    m.insert(Value::Integer(2), Value::Integer(204800));
    m.insert(Value::Integer(3), Value::Integer(819200));
    let doc = to_vec(&Value::Map(m)).unwrap();
    assert_eq!(parse_memory_stats(&doc).unwrap(), (204800, 819200));
    assert_eq!(parse_memory_stats(&[]).unwrap(), (0, 0));
    match parse_memory_stats(&to_vec(&Value::Integer(5)).unwrap()) {
        Err(PFError::Io(m)) => assert_eq!(m, "Failed to parse Memory Stats CBOR"),
        other => panic!("expected parse failure, got {:?}", other),
    }
}

#[test]
fn physical_config_identity_always_populates() {
    // Even with no vendor response, VID/PID/name come from the HID
    // descriptor.
    let cfg = parse_physical_config(&[], 0x2E8A, 0x10FE, String::from("Pico Key"));
    assert_eq!(cfg.vid, "2E8A");
    assert_eq!(cfg.pid, "10FE");
    assert_eq!(cfg.product_name, "Pico Key");
    assert_eq!(cfg.led_gpio, 0);

    let mut m = BTreeMap::new();
    m.insert(Value::Text("gpio".into()), Value::Integer(25));
    m.insert(Value::Text("brightness".into()), Value::Integer(15));
    let doc = to_vec(&Value::Map(m)).unwrap();
    let cfg2 = parse_physical_config(&doc, 0x2E8A, 0x10FE, String::from("Pico Key"));
    assert_eq!(cfg2.led_gpio, 25);
    assert_eq!(cfg2.led_brightness, 15);
}

#[test]
fn fido_write_plan_orders_steps() {
    let input = AppConfigInput {
        vid: Some(String::from("2E8A")),
        pid: Some(String::from("10FE")),
        product_name: None,
        led_gpio: Some(25),
        led_brightness: None,
        touch_timeout: Some(15),
        led_driver: None,
        led_dimmable: Some(true),
        power_cycle_on_reset: Some(false),
        led_steady: None,
        enable_secp256k1: None,
    };
    let token = [5u8; 32];
    let steps = plan_fido_write(&input, &token).unwrap();
    // VID/PID, GPIO, timeout (best effort), then the options mask — the
    // diff touches two of the option flags.
    assert_eq!(steps.len(), 4);
    assert!(!steps[0].best_effort);
    assert!(!steps[1].best_effort);
    assert!(steps[2].best_effort, "touch timeout is best-effort");
    assert!(!steps[3].best_effort);
    assert_eq!(
        steps[0].payload,
        build_vendor_config_payload(
            &token,
            VendorConfigCommand::PhysicalVidPid,
            &CborParam::Int(0x2E8A_10FE),
        )
    );
    assert_eq!(
        steps[3].payload,
        build_vendor_config_payload(
            &token,
            VendorConfigCommand::PhysicalOptions,
            &CborParam::Int(0x02 | 0x04),
        )
    );
}

fn empty_diff() -> AppConfigInput {
    AppConfigInput {
        vid: None,
        pid: None,
        product_name: None,
        led_gpio: None,
        led_brightness: None,
        touch_timeout: None,
        led_driver: None,
        led_dimmable: None,
        power_cycle_on_reset: None,
        led_steady: None,
        enable_secp256k1: None,
    }
}

#[test]
fn fido_empty_diff_plans_nothing() {
    // Diff suppression over FIDO: the empty diff transmits nothing and is
    // recognised before any transport is opened.
    let input = empty_diff();
    assert!(fido_diff_is_empty(&input));
    let steps = plan_fido_write(&input, &[0u8; 16]).unwrap();
    assert!(steps.is_empty());
    assert_eq!(fido_no_changes_message(), "No changes to apply");
}

#[test]
fn fido_plan_skips_options_when_no_flag_is_touched() {
    // A diff that changes only the LED GPIO must not reset the option
    // flags to defaults.
    let mut input = empty_diff();
    input.led_gpio = Some(25);
    let token = [5u8; 32];
    let steps = plan_fido_write(&input, &token).unwrap();
    assert_eq!(steps.len(), 1);
    assert_eq!(
        steps[0].payload,
        build_vendor_config_payload(
            &token,
            VendorConfigCommand::PhysicalLedGpio,
            &CborParam::Int(25),
        )
    );
    assert!(!fido_diff_is_empty(&input));
}

#[test]
fn fido_plan_writes_options_when_one_flag_is_touched() {
    let mut input = empty_diff();
    input.led_steady = Some(true);
    let token = [5u8; 32];
    let steps = plan_fido_write(&input, &token).unwrap();
    assert_eq!(steps.len(), 1);
    assert_eq!(
        steps[0].payload,
        build_vendor_config_payload(
            &token,
            VendorConfigCommand::PhysicalOptions,
            &CborParam::Int(0x08),
        )
    );
}

#[test]
fn fido_write_plan_rejects_bad_vid() {
    let input = AppConfigInput {
        vid: Some(String::from("nope")),
        pid: Some(String::from("10FE")),
        product_name: None,
        led_gpio: None,
        led_brightness: None,
        touch_timeout: None,
        led_driver: None,
        led_dimmable: None,
        power_cycle_on_reset: None,
        led_steady: None,
        enable_secp256k1: None,
    };
    match plan_fido_write(&input, &[0u8; 16]) {
        Err(PFError::Io(m)) => assert_eq!(m, "Invalid VID"),
        other => panic!("expected Invalid VID, got {:?}", other),
    }
}

#[test]
fn write_pin_gate() {
    assert_eq!(require_write_pin(Some(String::from("1234"))).unwrap(), "1234");
    match require_write_pin(None) {
        Err(PFError::Device(m)) => assert_eq!(
            m,
            "A security PIN is required to be set to change the configuration in fido mode"
        ),
        other => panic!("expected PIN requirement, got {:?}", other),
    }
    assert!(fido_write_success_message().contains("Unplug and re-plug"));
}

#[test]
fn stored_credential_hex_encoding() {
    let cred = make_stored_credential(
        &[0xDE, 0xAD, 0xBE, 0xEF],
        String::from("example.com"),
        String::from("Example"),
        String::from("alice"),
        String::from("Alice"),
        &[0x01, 0x02],
    );
    assert_eq!(cred.credential_id, "deadbeef");
    assert_eq!(cred.user_id, "0102");
    assert_eq!(cred.rp_id, "example.com");
}

#[test]
fn credential_id_decoding() {
    assert_eq!(decode_credential_id("deadBEEF").unwrap(), vec![0xDE, 0xAD, 0xBE, 0xEF]);
    match decode_credential_id("xyz") {
        Err(m) => assert_eq!(m, "Invalid Credential ID Hex string"),
        other => panic!("expected decode failure, got {:?}", other),
    }
}

#[test]
fn fido_device_info_formatting() {
    let info = make_fido_device_info(
        vec![String::from("FIDO_2_0")],
        vec![],
        &[0x89, 0xFB],
        vec![(String::from("rk"), true)],
        1024,
        vec![1],
        4,
        0x0102,
    );
    assert_eq!(info.aaguid, "89FB");
    assert_eq!(info.firmware_version, "1.2");
    assert_eq!(info.min_pin_length, 4);
}
