use picoforge::tlv::{build_config_diff, config_to_input, decode_tlv, encode_tlv};
use picoforge::types::{AppConfig, AppConfigInput, PFError};

fn full_config() -> AppConfig {
    AppConfig {
        vid: String::from("2E8A"),
        pid: String::from("10FE"),
        product_name: String::from("Pico Key"),
        led_gpio: 25,
        led_brightness: 9,
        touch_timeout: 15,
        led_driver: Some(3),
        led_dimmable: true,
        power_cycle_on_reset: false,
        led_steady: true,
        enable_secp256k1: true,
    }
}

fn empty_input() -> AppConfigInput {
    AppConfigInput {
        vid: None,
        pid: None,
        product_name: None,
        led_gpio: None,
        led_brightness: None,
        touch_timeout: None,
        led_driver: None,
        led_dimmable: None,
        power_cycle_on_reset: None,
        led_steady: None,
        enable_secp256k1: None,
    }
}

fn reencode(cfg: &AppConfig) -> Vec<u8> {
    encode_tlv(&config_to_input(cfg)).expect("encode")
}

#[test]
fn tlv_reencode_idempotent_full() {
    let first = reencode(&full_config());
    let decoded = decode_tlv(&first);
    let second = reencode(&decoded);
    assert_eq!(first, second);
}

#[test]
fn tlv_reencode_idempotent_no_driver_no_name() {
    let mut cfg = full_config();
    cfg.led_driver = None;
    cfg.product_name = String::new();
    let first = reencode(&cfg);
    let decoded = decode_tlv(&first);
    let second = reencode(&decoded);
    assert_eq!(first, second);
}

#[test]
fn tlv_reencode_idempotent_lowercase_vid() {
    let mut cfg = full_config();
    cfg.vid = String::from("2e8a");
    cfg.pid = String::from("10fe");
    let first = reencode(&cfg);
    let decoded = decode_tlv(&first);
    // Decoding canonicalises to uppercase; the bytes still agree.
    assert_eq!(decoded.vid, "2E8A");
    assert_eq!(decoded.pid, "10FE");
    let second = reencode(&decoded);
    assert_eq!(first, second);
}

#[test]
fn tlv_decode_recovers_fields() {
    let cfg = full_config();
    let blob = reencode(&cfg);
    let decoded = decode_tlv(&blob);
    assert_eq!(decoded.vid, "2E8A");
    assert_eq!(decoded.pid, "10FE");
    assert_eq!(decoded.product_name, "Pico Key");
    assert_eq!(decoded.led_gpio, 25);
    assert_eq!(decoded.led_brightness, 9);
    assert_eq!(decoded.touch_timeout, 15);
    assert_eq!(decoded.led_driver, Some(3));
    assert!(decoded.led_dimmable);
    assert!(!decoded.power_cycle_on_reset);
    assert!(decoded.led_steady);
    assert!(decoded.enable_secp256k1);
}

#[test]
fn vid_pid_formatting_from_raw_record() {
    // Tag 0x00, length 4, VID 0x2E8A, PID 0x10FE.
    let cfg = decode_tlv(&[0x00, 0x04, 0x2E, 0x8A, 0x10, 0xFE]);
    assert_eq!(cfg.vid, "2E8A");
    assert_eq!(cfg.pid, "10FE");
}

#[test]
fn decode_skips_unknown_tags_and_truncated_records() {
    // Unknown tag 0x77 (skipped), then a LED GPIO record, then a record
    // whose declared length overruns the data (dropped).
    let cfg = decode_tlv(&[0x77, 0x01, 0xAA, 0x04, 0x01, 0x19, 0x05, 0x10, 0x01]);
    assert_eq!(cfg.led_gpio, 0x19);
    assert_eq!(cfg.led_brightness, 0);
}

#[test]
fn decode_trims_product_name_nuls() {
    let cfg = decode_tlv(&[0x09, 0x05, b'a', b'b', b'c', 0x00, 0x00]);
    assert_eq!(cfg.product_name, "abc");
}

#[test]
fn encode_rejects_bad_vid() {
    let mut input = empty_input();
    input.vid = Some(String::from("XYZ"));
    input.pid = Some(String::from("10FE"));
    match encode_tlv(&input) {
        Err(PFError::Io(m)) => assert_eq!(m, "Invalid VID"),
        other => panic!("expected Io(Invalid VID), got {:?}", other),
    }
}

#[test]
fn encode_rejects_bad_pid() {
    let mut input = empty_input();
    input.vid = Some(String::from("2E8A"));
    input.pid = Some(String::from(""));
    match encode_tlv(&input) {
        Err(PFError::Io(m)) => assert_eq!(m, "Invalid PID"),
        other => panic!("expected Io(Invalid PID), got {:?}", other),
    }
}

#[test]
fn encode_rejects_long_product_name() {
    let mut input = empty_input();
    input.product_name = Some("x".repeat(32));
    match encode_tlv(&input) {
        Err(PFError::Io(m)) => assert_eq!(m, "Product name too long"),
        other => panic!("expected Io(Product name too long), got {:?}", other),
    }
}

#[test]
fn encode_accepts_31_byte_product_name() {
    let mut input = empty_input();
    input.product_name = Some("x".repeat(31));
    let blob = encode_tlv(&input).expect("encode");
    assert_eq!(blob[0], 0x09);
    assert_eq!(blob[1], 32);
    assert_eq!(blob[blob.len() - 1], 0x00);
}

#[test]
fn encode_skips_lone_vid() {
    // Only one of VID/PID present: no record is written.
    let mut input = empty_input();
    input.vid = Some(String::from("2E8A"));
    let blob = encode_tlv(&input).expect("encode");
    assert!(blob.is_empty());
}

#[test]
fn diff_of_equal_configs_is_empty() {
    let cfg = full_config();
    let diff = build_config_diff(&cfg, &cfg.clone());
    assert_eq!(diff, build_config_diff(&cfg, &cfg));
    assert!(diff.vid.is_none());
    assert!(diff.pid.is_none());
    assert!(diff.product_name.is_none());
    assert!(diff.led_gpio.is_none());
    assert!(diff.led_brightness.is_none());
    assert!(diff.touch_timeout.is_none());
    assert!(diff.led_driver.is_none());
    assert!(diff.led_dimmable.is_none());
    assert!(diff.power_cycle_on_reset.is_none());
    assert!(diff.led_steady.is_none());
    assert!(diff.enable_secp256k1.is_none());
}

#[test]
fn diff_picks_only_changed_fields() {
    let current = full_config();
    let mut desired = full_config();
    desired.led_gpio = 7;
    desired.vid = String::from("FEFF");
    let diff = build_config_diff(&current, &desired);
    assert_eq!(diff.led_gpio, Some(7));
    assert_eq!(diff.vid.as_deref(), Some("FEFF"));
    assert!(diff.pid.is_none());
    assert!(diff.led_brightness.is_none());
}
