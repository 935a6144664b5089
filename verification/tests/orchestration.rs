use picoforge::fido::{assemble_fido_status, parse_physical_config};
use picoforge::orchestrate::{choose_status, write_goes_over_fido};
use picoforge::types::{AppConfig, DeviceInfo, DeviceMethod, FullDeviceStatus, PFError};

fn rescue_status() -> FullDeviceStatus {
    FullDeviceStatus {
        info: DeviceInfo {
            serial: String::from("AABBCCDD00010203"),
            flash_used: 100,
            flash_total: 400,
            firmware_version: String::from("3.6"),
        },
        config: AppConfig::default(),
        secure_boot: false,
        secure_lock: false,
        method: DeviceMethod::Rescue,
    }
}

#[test]
fn select_failure_falls_back_to_fido() {
    // A device that fails Rescue SELECT but answers GetInfo over CTAPHID
    // is reported through the FIDO channel.
    let rescue: Result<FullDeviceStatus, PFError> = Err(PFError::Device(String::from(
        "Rescue Applet not found on device. Is it in FIDO mode?",
    )));
    let config = parse_physical_config(&[], 0x2E8A, 0x10FE, String::from("Pico Key"));
    let fido = assemble_fido_status(String::from("5.2"), 200 * 1024, 800 * 1024, config);
    let chosen = choose_status(rescue, Ok(fido)).unwrap();
    assert_eq!(chosen.method, DeviceMethod::Fido);
    assert_eq!(chosen.info.serial, "?");
    assert_eq!(chosen.info.flash_used, 200);
    assert_eq!(chosen.config.vid, "2E8A");
}

#[test]
fn rescue_success_wins() {
    let fido = Err(PFError::NoDevice);
    let chosen = choose_status(Ok(rescue_status()), fido).unwrap();
    assert_eq!(chosen.method, DeviceMethod::Rescue);
}

#[test]
fn both_channels_failing_reports_the_fido_error() {
    let rescue: Result<FullDeviceStatus, PFError> = Err(PFError::NoDevice);
    let fido: Result<FullDeviceStatus, PFError> = Err(PFError::NoDevice);
    assert_eq!(choose_status(rescue, fido), Err(PFError::NoDevice));
}

#[test]
fn writes_route_by_method() {
    assert!(write_goes_over_fido(DeviceMethod::Fido));
    assert!(!write_goes_over_fido(DeviceMethod::Rescue));
}
