//! Known USB identity presets and LED driver types offered when editing
//! the physical configuration.

use vstd::prelude::*;
use vstd::string::StrSliceExecFns;

verus! {

/// Uppercases one ASCII letter; other characters pass through.
pub open spec fn to_upper_char(c: char) -> char {
    if 'a' <= c && c <= 'z' {
        ((c as u8) - 32) as char
    } else {
        c
    }
}

/// The ASCII-uppercased image of a character sequence.
pub open spec fn upper_of(s: Seq<char>) -> Seq<char> {
    Seq::new(s.len(), |i: int| to_upper_char(s[i]))
}

/// Whether `s`, uppercased, equals the (already uppercase) `lit`.
fn str_eq_upper(s: &str, lit: &str) -> (r: bool)
    ensures
        r == (upper_of(s@) == lit@),
{
    let slen = s.unicode_len();
    let llen = lit.unicode_len();
    if slen != llen {
        proof {
            assert(upper_of(s@).len() != lit@.len());
        }
        return false;
    }
    let mut i: usize = 0;
    while i < slen
        invariant
            slen == s@.len(),
            llen == lit@.len(),
            slen == llen,
            0 <= i <= slen,
            forall|j: int| 0 <= j < i ==> upper_of(s@)[j] == lit@[j],
        decreases slen - i,
    {
        let c = s.get_char(i);
        let u = if 'a' <= c && c <= 'z' {
            ((c as u8) - 32) as char
        } else {
            c
        };
        proof {
            assert(u == to_upper_char(s@[i as int]));
        }
        if u != lit.get_char(i) {
            proof {
                assert(upper_of(s@)[i as int] != lit@[i as int]);
            }
            return false;
        }
        i += 1;
    }
    proof {
        assert(upper_of(s@) =~= lit@);
    }
    true
}

/// The known USB vendor/product identity presets.
#[derive(Debug, Clone, Copy, PartialEq, Eq, Structural)]
pub enum UsbIdentityPreset {
    Custom,
    Generic,
    PicoHsm,
    PicoFido,
    PicoOpenPgp,
    Pico,
    SoloKeys,
    NitroHsm,
    NitroFido2,
    NitroStart,
    NitroPro,
    NitroKey3,
    YubiKey5,
    YubiKeyNeo,
    YubiHsm2,
    Gnuk,
    GnuPg,
}

/// The preset matching an uppercased VID/PID pair; `Custom` when none
/// does.  GnuPG shares Gnuk's identity, so it is never recognised from a
/// pair.
pub open spec fn preset_for(v: Seq<char>, p: Seq<char>) -> UsbIdentityPreset {
    if v == "FEFF"@ && p == "FCFD"@ {
        UsbIdentityPreset::Generic
    } else if v == "2E8A"@ && p == "10FD"@ {
        UsbIdentityPreset::PicoHsm
    } else if v == "2E8A"@ && p == "10FE"@ {
        UsbIdentityPreset::PicoFido
    } else if v == "2E8A"@ && p == "10FF"@ {
        UsbIdentityPreset::PicoOpenPgp
    } else if v == "2E8A"@ && p == "0003"@ {
        UsbIdentityPreset::Pico
    } else if v == "0483"@ && p == "A2CA"@ {
        UsbIdentityPreset::SoloKeys
    } else if v == "20A0"@ && p == "4230"@ {
        UsbIdentityPreset::NitroHsm
    } else if v == "20A0"@ && p == "42D4"@ {
        UsbIdentityPreset::NitroFido2
    } else if v == "20A0"@ && p == "4211"@ {
        UsbIdentityPreset::NitroStart
    } else if v == "20A0"@ && p == "4108"@ {
        UsbIdentityPreset::NitroPro
    } else if v == "20A0"@ && p == "42B2"@ {
        UsbIdentityPreset::NitroKey3
    } else if v == "1050"@ && p == "0407"@ {
        UsbIdentityPreset::YubiKey5
    } else if v == "1050"@ && p == "0116"@ {
        UsbIdentityPreset::YubiKeyNeo
    } else if v == "1050"@ && p == "0030"@ {
        UsbIdentityPreset::YubiHsm2
    } else if v == "234B"@ && p == "0000"@ {
        UsbIdentityPreset::Gnuk
    } else {
        UsbIdentityPreset::Custom
    }
}

impl UsbIdentityPreset {
    /// The VID the preset prescribes, `None` for manual entry.
    pub open spec fn spec_vid(self) -> Option<Seq<char>> {
        match self {
            UsbIdentityPreset::Custom => None,
            UsbIdentityPreset::Generic => Some("FEFF"@),
            UsbIdentityPreset::PicoHsm => Some("2E8A"@),
            UsbIdentityPreset::PicoFido => Some("2E8A"@),
            UsbIdentityPreset::PicoOpenPgp => Some("2E8A"@),
            UsbIdentityPreset::Pico => Some("2E8A"@),
            UsbIdentityPreset::SoloKeys => Some("0483"@),
            UsbIdentityPreset::NitroHsm => Some("20A0"@),
            UsbIdentityPreset::NitroFido2 => Some("20A0"@),
            UsbIdentityPreset::NitroStart => Some("20A0"@),
            UsbIdentityPreset::NitroPro => Some("20A0"@),
            UsbIdentityPreset::NitroKey3 => Some("20A0"@),
            UsbIdentityPreset::YubiKey5 => Some("1050"@),
            UsbIdentityPreset::YubiKeyNeo => Some("1050"@),
            UsbIdentityPreset::YubiHsm2 => Some("1050"@),
            UsbIdentityPreset::Gnuk => Some("234B"@),
            UsbIdentityPreset::GnuPg => Some("234B"@),
        }
    }

    /// The PID the preset prescribes, `None` for manual entry.
    pub open spec fn spec_pid(self) -> Option<Seq<char>> {
        match self {
            UsbIdentityPreset::Custom => None,
            UsbIdentityPreset::Generic => Some("FCFD"@),
            UsbIdentityPreset::PicoHsm => Some("10FD"@),
            UsbIdentityPreset::PicoFido => Some("10FE"@),
            UsbIdentityPreset::PicoOpenPgp => Some("10FF"@),
            UsbIdentityPreset::Pico => Some("0003"@),
            UsbIdentityPreset::SoloKeys => Some("A2CA"@),
            UsbIdentityPreset::NitroHsm => Some("4230"@),
            UsbIdentityPreset::NitroFido2 => Some("42D4"@),
            UsbIdentityPreset::NitroStart => Some("4211"@),
            UsbIdentityPreset::NitroPro => Some("4108"@),
            UsbIdentityPreset::NitroKey3 => Some("42B2"@),
            UsbIdentityPreset::YubiKey5 => Some("0407"@),
            UsbIdentityPreset::YubiKeyNeo => Some("0116"@),
            UsbIdentityPreset::YubiHsm2 => Some("0030"@),
            UsbIdentityPreset::Gnuk => Some("0000"@),
            UsbIdentityPreset::GnuPg => Some("0000"@),
        }
    }

    /// The display label and the VID/PID pair of the preset.
    pub fn details(&self) -> (r: (String, Option<&'static str>, Option<&'static str>))
        ensures
            r.0@.len() > 0,
            (match r.1 {
                Some(v) => self.spec_vid() == Some(v@),
                None => self.spec_vid() is None,
            }),
            (match r.2 {
                Some(p) => self.spec_pid() == Some(p@),
                None => self.spec_pid() is None,
            }),
    {
        proof {
            reveal_strlit("Custom (Manual Entry)");
            reveal_strlit("Generic (FEFF:FCFD)");
            reveal_strlit("Pico Keys HSM (2E8A:10FD)");
            reveal_strlit("Pico Keys Fido (2E8A:10FE)");
            reveal_strlit("Pico Keys OpenPGP (2E8A:10FF)");
            reveal_strlit("Pico (2E8A:0003)");
            reveal_strlit("SoloKeys (0483:A2CA)");
            reveal_strlit("NitroHSM (20A0:4230)");
            reveal_strlit("NitroFIDO2 (20A0:42D4)");
            reveal_strlit("NitroStart (20A0:4211)");
            reveal_strlit("NitroPro (20A0:4108)");
            reveal_strlit("Nitrokey 3 (20A0:42B2)");
            reveal_strlit("YubiKey 5 (1050:0407)");
            reveal_strlit("YubiKey Neo (1050:0116)");
            reveal_strlit("YubiHSM 2 (1050:0030)");
            reveal_strlit("Gnuk Token (234B:0000)");
            reveal_strlit("GnuPG (234B:0000)");
        }
        match self {
            UsbIdentityPreset::Custom => (String::from_str("Custom (Manual Entry)"), None, None),
            UsbIdentityPreset::Generic => (
                String::from_str("Generic (FEFF:FCFD)"),
                Some("FEFF"),
                Some("FCFD"),
            ),
            UsbIdentityPreset::PicoHsm => (
                String::from_str("Pico Keys HSM (2E8A:10FD)"),
                Some("2E8A"),
                Some("10FD"),
            ),
            UsbIdentityPreset::PicoFido => (
                String::from_str("Pico Keys Fido (2E8A:10FE)"),
                Some("2E8A"),
                Some("10FE"),
            ),
            UsbIdentityPreset::PicoOpenPgp => (
                String::from_str("Pico Keys OpenPGP (2E8A:10FF)"),
                Some("2E8A"),
                Some("10FF"),
            ),
            UsbIdentityPreset::Pico => (
                String::from_str("Pico (2E8A:0003)"),
                Some("2E8A"),
                Some("0003"),
            ),
            UsbIdentityPreset::SoloKeys => (
                String::from_str("SoloKeys (0483:A2CA)"),
                Some("0483"),
                Some("A2CA"),
            ),
            UsbIdentityPreset::NitroHsm => (
                String::from_str("NitroHSM (20A0:4230)"),
                Some("20A0"),
                Some("4230"),
            ),
            UsbIdentityPreset::NitroFido2 => (
                String::from_str("NitroFIDO2 (20A0:42D4)"),
                Some("20A0"),
                Some("42D4"),
            ),
            UsbIdentityPreset::NitroStart => (
                String::from_str("NitroStart (20A0:4211)"),
                Some("20A0"),
                Some("4211"),
            ),
            UsbIdentityPreset::NitroPro => (
                String::from_str("NitroPro (20A0:4108)"),
                Some("20A0"),
                Some("4108"),
            ),
            UsbIdentityPreset::NitroKey3 => (
                String::from_str("Nitrokey 3 (20A0:42B2)"),
                Some("20A0"),
                Some("42B2"),
            ),
            UsbIdentityPreset::YubiKey5 => (
                String::from_str("YubiKey 5 (1050:0407)"),
                Some("1050"),
                Some("0407"),
            ),
            UsbIdentityPreset::YubiKeyNeo => (
                String::from_str("YubiKey Neo (1050:0116)"),
                Some("1050"),
                Some("0116"),
            ),
            UsbIdentityPreset::YubiHsm2 => (
                String::from_str("YubiHSM 2 (1050:0030)"),
                Some("1050"),
                Some("0030"),
            ),
            UsbIdentityPreset::Gnuk => (
                String::from_str("Gnuk Token (234B:0000)"),
                Some("234B"),
                Some("0000"),
            ),
            UsbIdentityPreset::GnuPg => (
                String::from_str("GnuPG (234B:0000)"),
                Some("234B"),
                Some("0000"),
            ),
        }
    }

    /// Recognises a preset from a VID/PID pair, case-insensitively;
    /// unknown pairs are `Custom`.
    pub fn from_vid_pid(vid: &str, pid: &str) -> (r: Self)
        ensures
            r == preset_for(upper_of(vid@), upper_of(pid@)),
    {
        proof {
            reveal_strlit("FEFF");
            reveal_strlit("FCFD");
            reveal_strlit("2E8A");
            reveal_strlit("10FD");
            reveal_strlit("10FE");
            reveal_strlit("10FF");
            reveal_strlit("0003");
            reveal_strlit("0483");
            reveal_strlit("A2CA");
            reveal_strlit("20A0");
            reveal_strlit("4230");
            reveal_strlit("42D4");
            reveal_strlit("4211");
            reveal_strlit("4108");
            reveal_strlit("42B2");
            reveal_strlit("1050");
            reveal_strlit("0407");
            reveal_strlit("0116");
            reveal_strlit("0030");
            reveal_strlit("234B");
            reveal_strlit("0000");
        }
        if str_eq_upper(vid, "FEFF") && str_eq_upper(pid, "FCFD") {
            UsbIdentityPreset::Generic
        } else if str_eq_upper(vid, "2E8A") && str_eq_upper(pid, "10FD") {
            UsbIdentityPreset::PicoHsm
        } else if str_eq_upper(vid, "2E8A") && str_eq_upper(pid, "10FE") {
            UsbIdentityPreset::PicoFido
        } else if str_eq_upper(vid, "2E8A") && str_eq_upper(pid, "10FF") {
            UsbIdentityPreset::PicoOpenPgp
        } else if str_eq_upper(vid, "2E8A") && str_eq_upper(pid, "0003") {
            UsbIdentityPreset::Pico
        } else if str_eq_upper(vid, "0483") && str_eq_upper(pid, "A2CA") {
            UsbIdentityPreset::SoloKeys
        } else if str_eq_upper(vid, "20A0") && str_eq_upper(pid, "4230") {
            UsbIdentityPreset::NitroHsm
        } else if str_eq_upper(vid, "20A0") && str_eq_upper(pid, "42D4") {
            UsbIdentityPreset::NitroFido2
        } else if str_eq_upper(vid, "20A0") && str_eq_upper(pid, "4211") {
            UsbIdentityPreset::NitroStart
        } else if str_eq_upper(vid, "20A0") && str_eq_upper(pid, "4108") {
            UsbIdentityPreset::NitroPro
        } else if str_eq_upper(vid, "20A0") && str_eq_upper(pid, "42B2") {
            UsbIdentityPreset::NitroKey3
        } else if str_eq_upper(vid, "1050") && str_eq_upper(pid, "0407") {
            UsbIdentityPreset::YubiKey5
        } else if str_eq_upper(vid, "1050") && str_eq_upper(pid, "0116") {
            UsbIdentityPreset::YubiKeyNeo
        } else if str_eq_upper(vid, "1050") && str_eq_upper(pid, "0030") {
            UsbIdentityPreset::YubiHsm2
        } else if str_eq_upper(vid, "234B") && str_eq_upper(pid, "0000") {
            UsbIdentityPreset::Gnuk
        } else {
            UsbIdentityPreset::Custom
        }
    }

    /// Every preset, in display order.
    pub fn all() -> (r: Vec<Self>)
        ensures
            r@.len() == 17,
            r@[0] == UsbIdentityPreset::Custom,
    {
        let mut v: Vec<UsbIdentityPreset> = Vec::new();
        v.push(UsbIdentityPreset::Custom);
        v.push(UsbIdentityPreset::Generic);
        v.push(UsbIdentityPreset::PicoHsm);
        v.push(UsbIdentityPreset::PicoFido);
        v.push(UsbIdentityPreset::PicoOpenPgp);
        v.push(UsbIdentityPreset::Pico);
        v.push(UsbIdentityPreset::SoloKeys);
        v.push(UsbIdentityPreset::NitroHsm);
        v.push(UsbIdentityPreset::NitroFido2);
        v.push(UsbIdentityPreset::NitroStart);
        v.push(UsbIdentityPreset::NitroPro);
        v.push(UsbIdentityPreset::NitroKey3);
        v.push(UsbIdentityPreset::YubiKey5);
        v.push(UsbIdentityPreset::YubiKeyNeo);
        v.push(UsbIdentityPreset::YubiHsm2);
        v.push(UsbIdentityPreset::Gnuk);
        v.push(UsbIdentityPreset::GnuPg);
        v
    }
}

/// The LED driver hardware types the firmware supports.
#[derive(Debug, Clone, Copy, PartialEq, Eq, Structural)]
pub enum LedDriverType {
    PicoGpio,
    PimoroniRgb,
    Ws2812Neopixel,
    Esp32Neopixel,
}

impl LedDriverType {
    /// The display label of the driver type.
    pub fn label(&self) -> (r: String)
        ensures
            r@.len() > 0,
    {
        proof {
            reveal_strlit("Pico (Standard GPIO)");
            reveal_strlit("Pimoroni (RGB)");
            reveal_strlit("WS2812 (Neopixel)");
            reveal_strlit("ESP32 Neopixel");
        }
        match self {
            LedDriverType::PicoGpio => String::from_str("Pico (Standard GPIO)"),
            LedDriverType::PimoroniRgb => String::from_str("Pimoroni (RGB)"),
            LedDriverType::Ws2812Neopixel => String::from_str("WS2812 (Neopixel)"),
            LedDriverType::Esp32Neopixel => String::from_str("ESP32 Neopixel"),
        }
    }

    /// The byte value the firmware configuration expects for this driver.
    #[verifier::allow_in_spec]
    pub fn value(&self) -> u8
        returns
            (match self {
                LedDriverType::PicoGpio => 1u8,
                LedDriverType::PimoroniRgb => 2u8,
                LedDriverType::Ws2812Neopixel => 3u8,
                LedDriverType::Esp32Neopixel => 5u8,
            }),
    {
        match self {
            LedDriverType::PicoGpio => 1,
            LedDriverType::PimoroniRgb => 2,
            LedDriverType::Ws2812Neopixel => 3,
            LedDriverType::Esp32Neopixel => 5,
        }
    }

    /// Every driver type, in display order.
    pub fn all() -> (r: Vec<Self>)
        ensures
            r@.len() == 4,
            r@[0] == LedDriverType::PicoGpio,
    {
        let mut v: Vec<LedDriverType> = Vec::new();
        v.push(LedDriverType::PicoGpio);
        v.push(LedDriverType::PimoroniRgb);
        v.push(LedDriverType::Ws2812Neopixel);
        v.push(LedDriverType::Esp32Neopixel);
        v
    }
}

} // verus!
