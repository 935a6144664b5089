use picoforge::rescue::{
    assemble_rescue_status, check_select_response, flash_info_apdu, is_success,
    parse_flash_response, parse_phy_response, parse_secure_boot_response, parse_select_details,
    parse_write_response, phy_config_apdu, plan_rescue_write, reboot_apdu, reboot_result,
    secure_boot_apdu, secure_boot_result, secure_boot_status_apdu, select_apdu, RescueWritePlan,
};
use picoforge::tlv::{build_config_diff, config_to_input};
use picoforge::types::{AppConfig, DeviceMethod, PFError};

#[test]
fn select_apdu_bytes() {
    assert_eq!(
        select_apdu(),
        vec![0x00, 0xA4, 0x04, 0x04, 0x08, 0xA0, 0x58, 0x3F, 0xC1, 0x9B, 0x7E, 0x4F, 0x21]
    );
}

#[test]
fn fixed_apdu_shapes() {
    assert_eq!(flash_info_apdu(), vec![0x80, 0x1E, 0x02, 0x00, 0x00]);
    assert_eq!(secure_boot_status_apdu(), vec![0x80, 0x1E, 0x03, 0x00, 0x00]);
    assert_eq!(phy_config_apdu(), vec![0x80, 0x1E, 0x01, 0x01, 0x00]);
    assert_eq!(reboot_apdu(false), vec![0x80, 0x1F, 0x00, 0x00, 0x00]);
    assert_eq!(reboot_apdu(true), vec![0x80, 0x1F, 0x01, 0x00, 0x00]);
    assert_eq!(secure_boot_apdu(false), vec![0x80, 0x1D, 0x00, 0x00, 0x00]);
    assert_eq!(secure_boot_apdu(true), vec![0x80, 0x1D, 0x00, 0x01, 0x00]);
}

#[test]
fn status_word_gating_accepts_exactly_9000() {
    assert!(is_success(&[0x01, 0x02, 0x90, 0x00]));
    assert!(is_success(&[0x90, 0x00]));
    // Any other trailing pair fails, even after plausible data.
    assert!(!is_success(&[0x01, 0x02, 0x6A, 0x82]));
    assert!(!is_success(&[0x90, 0x00, 0x6A, 0x82]));
    assert!(!is_success(&[0x90]));
    assert!(!is_success(&[]));

    assert!(check_select_response(&[0x05, 0x04, 0x01, 0x02, 0x90, 0x00]).is_ok());
    match check_select_response(&[0x05, 0x04, 0x01, 0x02, 0x6A, 0x82]) {
        Err(PFError::Device(m)) => {
            assert_eq!(m, "Rescue Applet not found on device. Is it in FIDO mode?")
        }
        other => panic!("expected applet-not-found, got {:?}", other),
    }
}

#[test]
fn select_details_serial_and_version() {
    // Short but valid: version only, placeholder serial.
    let (serial, fw) = parse_select_details(&[0, 0, 5, 11, 0x90, 0x00]).unwrap();
    assert_eq!(serial, "00000000");
    assert_eq!(fw, "5.11");

    // 14 bytes: an 8-byte serial at offset 4.
    let resp = [0u8, 0, 1, 2, 0xDE, 0xAD, 0xBE, 0xEF, 0x01, 0x02, 0x03, 0x04, 0x90, 0x00];
    let (serial2, fw2) = parse_select_details(&resp).unwrap();
    assert_eq!(serial2, "DEADBEEF01020304");
    assert_eq!(fw2, "1.2");

    match parse_select_details(&[0x90, 0x00]) {
        Err(PFError::Device(m)) => assert_eq!(m, "Invalid select response"),
        other => panic!("expected invalid select response, got {:?}", other),
    }
}

#[test]
fn flash_response_parsing() {
    // free, used, total, nfiles, chip_size as big-endian words, then 90 00.
    let mut resp = Vec::new();
    resp.extend_from_slice(&1000u32.to_be_bytes());
    resp.extend_from_slice(&(200 * 1024u32).to_be_bytes());
    resp.extend_from_slice(&(800 * 1024u32).to_be_bytes());
    resp.extend_from_slice(&5u32.to_be_bytes());
    resp.extend_from_slice(&(1024 * 1024u32).to_be_bytes());
    resp.extend_from_slice(&[0x90, 0x00]);
    assert_eq!(parse_flash_response(&resp).unwrap(), (200 * 1024, 800 * 1024));

    match parse_flash_response(&[0x6A, 0x82]) {
        Err(PFError::Device(m)) => assert_eq!(m, "Failed to read flash"),
        other => panic!("expected flash failure, got {:?}", other),
    }
}

#[test]
fn secure_boot_parsing_never_fails() {
    assert_eq!(parse_secure_boot_response(&[1, 0, 0x90, 0x00]), (true, false));
    assert_eq!(parse_secure_boot_response(&[1, 1, 0x90, 0x00]), (true, true));
    // Failure or a short answer means unknown, treated as unlocked.
    assert_eq!(parse_secure_boot_response(&[0x6A, 0x82]), (false, false));
    assert_eq!(parse_secure_boot_response(&[0x90, 0x00]), (false, false));
}

#[test]
fn phy_response_strips_status_word() {
    assert_eq!(
        parse_phy_response(&[0x04, 0x01, 0x19, 0x90, 0x00]).unwrap(),
        vec![0x04, 0x01, 0x19]
    );
    match parse_phy_response(&[0x6A, 0x82]) {
        Err(PFError::Device(m)) => assert_eq!(m, "Failed to read config"),
        other => panic!("expected config failure, got {:?}", other),
    }
}

#[test]
fn full_status_assembly() {
    let select = [0u8, 0, 3, 6, 0xAA, 0xBB, 0xCC, 0xDD, 0x00, 0x01, 0x02, 0x03, 0x90, 0x00];
    let mut flash = Vec::new();
    flash.extend_from_slice(&0u32.to_be_bytes());
    flash.extend_from_slice(&(100 * 1024u32).to_be_bytes());
    flash.extend_from_slice(&(400 * 1024u32).to_be_bytes());
    flash.extend_from_slice(&[0x90, 0x00]);
    let secure = [1u8, 0, 0x90, 0x00];
    let phy = [0x00, 0x04, 0x2E, 0x8A, 0x10, 0xFE, 0x04, 0x01, 0x19, 0x90, 0x00];

    let st = assemble_rescue_status(&select, &flash, &secure, &phy).unwrap();
    assert_eq!(st.info.serial, "AABBCCDD00010203");
    assert_eq!(st.info.firmware_version, "3.6");
    assert_eq!(st.info.flash_used, 100);
    assert_eq!(st.info.flash_total, 400);
    assert_eq!(st.config.vid, "2E8A");
    assert_eq!(st.config.pid, "10FE");
    assert_eq!(st.config.led_gpio, 0x19);
    assert!(st.secure_boot);
    assert!(!st.secure_lock);
    assert_eq!(st.method, DeviceMethod::Rescue);
}

#[test]
fn diff_suppression_plans_no_io() {
    let cfg = AppConfig {
        vid: String::from("2E8A"),
        pid: String::from("10FE"),
        product_name: String::from("Pico Key"),
        led_gpio: 25,
        led_brightness: 9,
        touch_timeout: 15,
        led_driver: Some(1),
        led_dimmable: true,
        power_cycle_on_reset: true,
        led_steady: false,
        enable_secp256k1: false,
    };
    // A desired state equal to the current one yields the empty diff, and
    // the planned write is "no changes" with nothing to transmit.
    let diff = build_config_diff(&cfg, &cfg.clone());
    match plan_rescue_write(&diff).unwrap() {
        RescueWritePlan::NoChanges(m) => assert_eq!(m, "No changes to apply"),
        RescueWritePlan::Send(_) => panic!("empty diff must not touch the wire"),
    }
}

#[test]
fn write_plan_wraps_blob_in_apdu() {
    let cfg = AppConfig {
        vid: String::from("2E8A"),
        pid: String::from("10FE"),
        product_name: String::new(),
        led_gpio: 25,
        led_brightness: 9,
        touch_timeout: 15,
        led_driver: None,
        led_dimmable: false,
        power_cycle_on_reset: true,
        led_steady: false,
        enable_secp256k1: false,
    };
    match plan_rescue_write(&config_to_input(&cfg)).unwrap() {
        RescueWritePlan::Send(apdu) => {
            assert_eq!(&apdu[0..4], &[0x80, 0x1C, 0x01, 0x00]);
            assert_eq!(apdu[4] as usize, apdu.len() - 5);
            assert_eq!(&apdu[5..11], &[0x00, 0x04, 0x2E, 0x8A, 0x10, 0xFE]);
        }
        RescueWritePlan::NoChanges(_) => panic!("full config must produce a write"),
    }
}

#[test]
fn write_and_control_results() {
    assert_eq!(
        parse_write_response(&[0x90, 0x00]).unwrap(),
        "Configuration Applied Successfully"
    );
    match parse_write_response(&[0x6A, 0x82]) {
        Err(PFError::Device(m)) => assert_eq!(m, "Write failed: 6A82"),
        other => panic!("expected write failure, got {:?}", other),
    }
    assert_eq!(reboot_result(&[0x90, 0x00]).unwrap(), "Reboot command sent");
    match reboot_result(&[0x69, 0x85]) {
        Err(PFError::Device(m)) => assert_eq!(m, "Reboot failed: 6985"),
        other => panic!("expected reboot failure, got {:?}", other),
    }
    assert_eq!(secure_boot_result(&[0x90, 0x00]).unwrap(), "Secure Boot Enabled");
    match secure_boot_result(&[0x69, 0x85]) {
        Err(PFError::Device(m)) => assert_eq!(m, "Secure Boot failed: 6985"),
        other => panic!("expected secure boot failure, got {:?}", other),
    }
}
