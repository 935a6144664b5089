//! Data model shared by both device channels: status snapshots, the physical
//! configuration and its diff form, and the error taxonomy.

use vstd::prelude::*;

verus! {

/// Error taxonomy for every device operation.
///
/// `NoDevice`: no matching reader or HID interface was found.  `Pcsc`: the
/// smart-card subsystem failed (message wraps the driver error).  `Io`: a
/// local encode/decode or transport write failure.  `Device`: the device
/// answered but signalled a protocol-level failure (bad status word, CTAP
/// error code, sequence mismatch, applet not found).
#[derive(Debug, Clone, PartialEq, Eq)]
pub enum PFError {
    NoDevice,
    Pcsc(String),
    Io(String),
    Device(String),
}

impl PFError {
    /// The human-readable message carried by this error.
    pub open spec fn spec_message(&self) -> Seq<char> {
        match self {
            PFError::NoDevice => "No device found"@,
            PFError::Pcsc(s) => s@,
            PFError::Io(s) => s@,
            PFError::Device(s) => s@,
        }
    }

    /// Renders the error as its message text.
    pub fn message(&self) -> (r: String)
        ensures
            r@ == self.spec_message(),
    {
        match self {
            PFError::NoDevice => String::from_str("No device found"),
            PFError::Pcsc(s) => s.clone(),
            PFError::Io(s) => s.clone(),
            PFError::Device(s) => s.clone(),
        }
    }
}

/// Which channel produced a successful device read; writes are routed by it.
#[derive(Debug, Clone, Copy, PartialEq, Eq, Structural)]
pub enum DeviceMethod {
    Fido,
    Rescue,
}

/// Identity and flash figures of the device, produced fresh on every read.
#[derive(Debug, Clone, PartialEq)]
pub struct DeviceInfo {
    /// Eight-byte serial, hex-encoded uppercase; a placeholder when the
    /// firmware did not report one.
    pub serial: String,
    /// Flash in use, in KB.
    pub flash_used: u32,
    /// Flash capacity, in KB.
    pub flash_total: u32,
    /// "major.minor" rendering of the firmware version bytes.
    pub firmware_version: String,
}

/// Physical/identity configuration snapshot read from the device.
///
/// `vid` and `pid` are always rendered as 4-character uppercase hex.
#[derive(Debug, Clone, PartialEq)]
pub struct AppConfig {
    pub vid: String,
    pub pid: String,
    pub product_name: String,
    pub led_gpio: u8,
    pub led_brightness: u8,
    pub touch_timeout: u8,
    pub led_driver: Option<u8>,
    pub led_dimmable: bool,
    pub power_cycle_on_reset: bool,
    pub led_steady: bool,
    pub enable_secp256k1: bool,
}

impl Default for AppConfig {
    /// The all-default configuration: empty strings, zero scalars, no LED
    /// driver, every flag off.
    fn default() -> (r: Self)
        ensures
            r.vid@ == Seq::<char>::empty(),
            r.pid@ == Seq::<char>::empty(),
            r.product_name@ == Seq::<char>::empty(),
            r.led_gpio == 0,
            r.led_brightness == 0,
            r.touch_timeout == 0,
            r.led_driver is None,
            !r.led_dimmable,
            !r.power_cycle_on_reset,
            !r.led_steady,
            !r.enable_secp256k1,
    {
        AppConfig {
            vid: String::new(),
            pid: String::new(),
            product_name: String::new(),
            led_gpio: 0,
            led_brightness: 0,
            touch_timeout: 0,
            led_driver: None,
            led_dimmable: false,
            power_cycle_on_reset: false,
            led_steady: false,
            enable_secp256k1: false,
        }
    }
}

/// A configuration diff: `None` in a field means "leave unchanged".
///
/// Built by comparing a desired state against the last-read [`AppConfig`];
/// only changed fields are populated and sent to the device.
#[derive(Debug, Clone, PartialEq)]
pub struct AppConfigInput {
    pub vid: Option<String>,
    pub pid: Option<String>,
    pub product_name: Option<String>,
    pub led_gpio: Option<u8>,
    pub led_brightness: Option<u8>,
    pub touch_timeout: Option<u8>,
    pub led_driver: Option<u8>,
    pub led_dimmable: Option<bool>,
    pub power_cycle_on_reset: Option<bool>,
    pub led_steady: Option<bool>,
    pub enable_secp256k1: Option<bool>,
}

/// The unit of "current truth" about the device: one full status read.
#[derive(Debug, Clone, PartialEq)]
pub struct FullDeviceStatus {
    pub info: DeviceInfo,
    pub config: AppConfig,
    pub secure_boot: bool,
    pub secure_lock: bool,
    pub method: DeviceMethod,
}

/// CTAP2 GetInfo summary, read through the high-level FIDO channel.
#[derive(Debug, Clone, PartialEq)]
pub struct FidoDeviceInfo {
    pub versions: Vec<String>,
    pub extensions: Vec<String>,
    pub aaguid: String,
    /// Option name / value pairs as the authenticator reported them.
    pub options: Vec<(String, bool)>,
    pub max_msg_size: i32,
    pub pin_protocols: Vec<u32>,
    pub min_pin_length: u32,
    pub firmware_version: String,
}

/// One resident FIDO credential, listed for display and deleted by id.
#[derive(Debug, Clone, PartialEq)]
pub struct StoredCredential {
    pub rp_id: String,
    pub rp_name: String,
    pub user_name: String,
    pub user_display_name: String,
    pub user_id: String,
    pub credential_id: String,
}

/// Window maximisation state reported to an embedding shell.
#[derive(Debug, Clone, Copy, PartialEq, Eq, Structural)]
pub struct WindowState {
    pub is_maximized: bool,
}

} // verus!
