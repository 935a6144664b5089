use picoforge::hexstr::{format_hex4, format_u8_dec, format_version, parse_hex_u16};
use picoforge::presets::{LedDriverType, UsbIdentityPreset};
use picoforge::fido_consts::VendorConfigCommand;
use picoforge::rescue_consts::PhyTag;
use picoforge::types::PFError;

#[test]
fn preset_recognition() {
    assert_eq!(
        UsbIdentityPreset::from_vid_pid("2E8A", "10FE"),
        UsbIdentityPreset::PicoFido
    );
    assert_eq!(
        UsbIdentityPreset::from_vid_pid("2e8a", "10fe"),
        UsbIdentityPreset::PicoFido,
        "matching is case-insensitive"
    );
    assert_eq!(
        UsbIdentityPreset::from_vid_pid("1050", "0407"),
        UsbIdentityPreset::YubiKey5
    );
    assert_eq!(
        UsbIdentityPreset::from_vid_pid("234B", "0000"),
        UsbIdentityPreset::Gnuk,
        "the shared pair resolves to Gnuk, never GnuPg"
    );
    assert_eq!(
        UsbIdentityPreset::from_vid_pid("0000", "0000"),
        UsbIdentityPreset::Custom
    );
}

#[test]
fn preset_details_agree_with_recognition() {
    for preset in UsbIdentityPreset::all() {
        let (label, vid, pid) = preset.details();
        assert!(!label.is_empty());
        match (vid, pid) {
            (Some(v), Some(p)) => {
                let back = UsbIdentityPreset::from_vid_pid(v, p);
                if preset == UsbIdentityPreset::GnuPg {
                    assert_eq!(back, UsbIdentityPreset::Gnuk);
                } else {
                    assert_eq!(back, preset);
                }
            }
            (None, None) => assert_eq!(preset, UsbIdentityPreset::Custom),
            _ => panic!("presets carry either both ids or neither"),
        }
    }
}

#[test]
fn led_driver_values() {
    assert_eq!(LedDriverType::PicoGpio.value(), 1);
    assert_eq!(LedDriverType::PimoroniRgb.value(), 2);
    assert_eq!(LedDriverType::Ws2812Neopixel.value(), 3);
    assert_eq!(LedDriverType::Esp32Neopixel.value(), 5, "ESP32 skips 4");
    assert_eq!(LedDriverType::all().len(), 4);
    assert!(!LedDriverType::PicoGpio.label().is_empty());
}

#[test]
fn hex_and_decimal_formatting() {
    assert_eq!(format_hex4(0x2E8A), "2E8A");
    assert_eq!(format_hex4(0x0001), "0001");
    assert_eq!(format_hex4(0xFFFF), "FFFF");
    assert_eq!(format_u8_dec(0), "0");
    assert_eq!(format_u8_dec(42), "42");
    assert_eq!(format_u8_dec(255), "255");
    assert_eq!(format_version(1, 2), "1.2");
    assert_eq!(format_version(10, 0), "10.0");
}

#[test]
fn hex_u16_parsing() {
    assert_eq!(parse_hex_u16("2E8A"), Some(0x2E8A));
    assert_eq!(parse_hex_u16("2e8a"), Some(0x2E8A));
    assert_eq!(parse_hex_u16("0"), Some(0));
    assert_eq!(parse_hex_u16("00FFFF"), Some(0xFFFF), "leading zeros are fine");
    assert_eq!(parse_hex_u16(""), None);
    assert_eq!(parse_hex_u16("10000"), None, "out of range");
    assert_eq!(parse_hex_u16("12G4"), None);
}

#[test]
fn error_messages() {
    assert_eq!(PFError::NoDevice.message(), "No device found");
    assert_eq!(PFError::Pcsc(String::from("driver gone")).message(), "driver gone");
    assert_eq!(PFError::Io(String::from("oops")).message(), "oops");
    assert_eq!(PFError::Device(String::from("0x37")).message(), "0x37");
}

#[test]
fn vendor_command_id_roundtrip() {
    for cmd in [
        VendorConfigCommand::AuthEncryptionEnable,
        VendorConfigCommand::AuthEncryptionDisable,
        VendorConfigCommand::EnterpriseAttestationUpload,
        VendorConfigCommand::PinComplexityPolicy,
        VendorConfigCommand::PhysicalVidPid,
        VendorConfigCommand::PhysicalLedBrightness,
        VendorConfigCommand::PhysicalLedGpio,
        VendorConfigCommand::PhysicalOptions,
    ] {
        assert_eq!(VendorConfigCommand::from_u64(cmd.to_u64()), Some(cmd));
    }
    assert_eq!(VendorConfigCommand::from_u64(42), None);
}

#[test]
fn phy_tag_roundtrip() {
    for tag in [
        PhyTag::VidPid,
        PhyTag::LedGpio,
        PhyTag::LedBrightness,
        PhyTag::Opts,
        PhyTag::PresenceTimeout,
        PhyTag::UsbProduct,
        PhyTag::Curves,
        PhyTag::LedDriver,
    ] {
        assert_eq!(PhyTag::from_u8(tag.byte()), Some(tag));
    }
    assert_eq!(PhyTag::from_u8(0x42), None);
}
