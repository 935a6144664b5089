//! Constants, instruction bytes and tag vocabulary of the Rescue applet's
//! APDU protocol (ISO 7816-4 framing with a proprietary class byte).

use vstd::prelude::*;

verus! {

/// Class byte for standard ISO commands (SELECT).
pub const APDU_CLA_ISO: u8 = 0x00;

/// Class byte for the proprietary Rescue commands.
pub const APDU_CLA_PROPRIETARY: u8 = 0x80;

/// Instruction byte of SELECT.
pub const APDU_INS_SELECT: u8 = 0xA4;

/// SELECT parameter: select by DF name.
pub const APDU_P1_SELECT_BY_DF_NAME: u8 = 0x04;

/// SELECT parameter: return file control information.
pub const APDU_P2_RETURN_FCI: u8 = 0x04;

/// Default P2 value when a command does not use it.
pub const P2_UNUSED: u8 = 0x00;

/// The fixed 8-byte application identifier of the Rescue applet.
pub open spec fn rescue_aid() -> Seq<u8> {
    seq![0xA0u8, 0x58u8, 0x3Fu8, 0xC1u8, 0x9Bu8, 0x7Eu8, 0x4Fu8, 0x21u8]
}

/// The success status word `90 00` that terminates every successful
/// response.
pub open spec fn sw_ok(resp: Seq<u8>) -> bool {
    resp.len() >= 2 && resp[resp.len() - 2] == 0x90 && resp[resp.len() - 1] == 0x00
}

/// Instruction bytes of the Rescue applet.
#[derive(Debug, Clone, Copy, PartialEq, Eq, Structural)]
pub enum RescueInstruction {
    KeyDevSign,
    Write,
    Secure,
    Read,
    Reboot,
}

impl RescueInstruction {
    /// The instruction byte sent on the wire.
    #[verifier::allow_in_spec]
    pub fn byte(self) -> u8
        returns
            (match self {
                RescueInstruction::KeyDevSign => 0x10u8,
                RescueInstruction::Write => 0x1Cu8,
                RescueInstruction::Secure => 0x1Du8,
                RescueInstruction::Read => 0x1Eu8,
                RescueInstruction::Reboot => 0x1Fu8,
            }),
    {
        match self {
            RescueInstruction::KeyDevSign => 0x10,
            RescueInstruction::Write => 0x1C,
            RescueInstruction::Secure => 0x1D,
            RescueInstruction::Read => 0x1E,
            RescueInstruction::Reboot => 0x1F,
        }
    }
}

/// P1 parameters for [`RescueInstruction::Read`].
#[derive(Debug, Clone, Copy, PartialEq, Eq, Structural)]
pub enum ReadParam {
    PhyConfig,
    FlashInfo,
    SecureBootStatus,
}

impl ReadParam {
    /// The parameter byte sent on the wire.
    #[verifier::allow_in_spec]
    pub fn byte(self) -> u8
        returns
            (match self {
                ReadParam::PhyConfig => 0x01u8,
                ReadParam::FlashInfo => 0x02u8,
                ReadParam::SecureBootStatus => 0x03u8,
            }),
    {
        match self {
            ReadParam::PhyConfig => 0x01,
            ReadParam::FlashInfo => 0x02,
            ReadParam::SecureBootStatus => 0x03,
        }
    }
}

/// P1 parameters for [`RescueInstruction::Write`].
#[derive(Debug, Clone, Copy, PartialEq, Eq, Structural)]
pub enum WriteParam {
    PhyConfig,
}

impl WriteParam {
    /// The parameter byte sent on the wire.
    #[verifier::allow_in_spec]
    pub fn byte(self) -> u8
        returns
            (match self {
                WriteParam::PhyConfig => 0x01u8,
            }),
    {
        match self {
            WriteParam::PhyConfig => 0x01,
        }
    }
}

/// P1 parameters for [`RescueInstruction::KeyDevSign`].
#[derive(Debug, Clone, Copy, PartialEq, Eq, Structural)]
pub enum SignParam {
    SignData,
    GetPublicKey,
    UploadCert,
}

impl SignParam {
    /// The parameter byte sent on the wire.
    #[verifier::allow_in_spec]
    pub fn byte(self) -> u8
        returns
            (match self {
                SignParam::SignData => 0x01u8,
                SignParam::GetPublicKey => 0x02u8,
                SignParam::UploadCert => 0x03u8,
            }),
    {
        match self {
            SignParam::SignData => 0x01,
            SignParam::GetPublicKey => 0x02,
            SignParam::UploadCert => 0x03,
        }
    }
}

/// P1 parameters for [`RescueInstruction::Reboot`].
#[derive(Debug, Clone, Copy, PartialEq, Eq, Structural)]
pub enum RebootParam {
    Normal,
    Bootsel,
}

impl RebootParam {
    /// The parameter byte sent on the wire.
    #[verifier::allow_in_spec]
    pub fn byte(self) -> u8
        returns
            (match self {
                RebootParam::Normal => 0x00u8,
                RebootParam::Bootsel => 0x01u8,
            }),
    {
        match self {
            RebootParam::Normal => 0x00,
            RebootParam::Bootsel => 0x01,
        }
    }
}

/// P2 parameters for [`RescueInstruction::Secure`].
#[derive(Debug, Clone, Copy, PartialEq, Eq, Structural)]
pub enum SecureLockParam {
    Unlock,
    Lock,
}

impl Default for SecureLockParam {
    /// The default lock parameter leaves the device unlocked.
    fn default() -> (r: Self)
        ensures
            r == SecureLockParam::Unlock,
    {
        SecureLockParam::Unlock
    }
}

impl SecureLockParam {
    /// The parameter byte sent on the wire.
    #[verifier::allow_in_spec]
    pub fn byte(self) -> u8
        returns
            (match self {
                SecureLockParam::Unlock => 0x00u8,
                SecureLockParam::Lock => 0x01u8,
            }),
    {
        match self {
            SecureLockParam::Unlock => 0x00,
            SecureLockParam::Lock => 0x01,
        }
    }
}

/// Tags of the physical-configuration TLV blob.
#[derive(Debug, Clone, Copy, PartialEq, Eq, Structural)]
pub enum PhyTag {
    VidPid,
    LedGpio,
    LedBrightness,
    Opts,
    PresenceTimeout,
    UsbProduct,
    Curves,
    LedDriver,
}

impl PhyTag {
    /// The tag byte written in the TLV stream.
    #[verifier::allow_in_spec]
    pub fn byte(self) -> u8
        returns
            (match self {
                PhyTag::VidPid => 0x00u8,
                PhyTag::LedGpio => 0x04u8,
                PhyTag::LedBrightness => 0x05u8,
                PhyTag::Opts => 0x06u8,
                PhyTag::PresenceTimeout => 0x08u8,
                PhyTag::UsbProduct => 0x09u8,
                PhyTag::Curves => 0x0Au8,
                PhyTag::LedDriver => 0x0Cu8,
            }),
    {
        match self {
            PhyTag::VidPid => 0x00,
            PhyTag::LedGpio => 0x04,
            PhyTag::LedBrightness => 0x05,
            PhyTag::Opts => 0x06,
            PhyTag::PresenceTimeout => 0x08,
            PhyTag::UsbProduct => 0x09,
            PhyTag::Curves => 0x0A,
            PhyTag::LedDriver => 0x0C,
        }
    }

    /// Recognises a raw tag byte read from the device.
    #[verifier::allow_in_spec]
    pub fn from_u8(val: u8) -> Option<Self>
        returns
            (if val == 0x00 {
                Some(PhyTag::VidPid)
            } else if val == 0x04 {
                Some(PhyTag::LedGpio)
            } else if val == 0x05 {
                Some(PhyTag::LedBrightness)
            } else if val == 0x06 {
                Some(PhyTag::Opts)
            } else if val == 0x08 {
                Some(PhyTag::PresenceTimeout)
            } else if val == 0x09 {
                Some(PhyTag::UsbProduct)
            } else if val == 0x0A {
                Some(PhyTag::Curves)
            } else if val == 0x0C {
                Some(PhyTag::LedDriver)
            } else {
                None
            }),
    {
        match val {
            0x00 => Some(PhyTag::VidPid),
            0x04 => Some(PhyTag::LedGpio),
            0x05 => Some(PhyTag::LedBrightness),
            0x06 => Some(PhyTag::Opts),
            0x08 => Some(PhyTag::PresenceTimeout),
            0x09 => Some(PhyTag::UsbProduct),
            0x0A => Some(PhyTag::Curves),
            0x0C => Some(PhyTag::LedDriver),
            _ => None,
        }
    }
}

/// The tag byte and its recogniser agree: reading back the byte of any tag
/// yields that tag.
pub proof fn lemma_phy_tag_roundtrip(t: PhyTag)
    ensures
        PhyTag::from_u8(t.byte()) == Some(t),
{
}

/// Option bit for a dimmable LED in the TAG 0x06 bitmask.
pub const OPT_LED_DIMMABLE: u16 = 0x02;

/// Option bit that disables the power cycle on reset in the TAG 0x06
/// bitmask.
pub const OPT_DISABLE_POWER_RESET: u16 = 0x04;

/// Option bit for a steady (non-blinking) LED in the TAG 0x06 bitmask.
pub const OPT_LED_STEADY: u16 = 0x08;

/// Curve bit for secp256k1 in the TAG 0x0A bitmask.
pub const CURVE_SECP256K1: u32 = 0x08;

} // verus!
