//! The Rescue applet's APDU client: command construction, response parsing
//! and the strict `90 00` status-word gate.
//!
//! Every command is a fixed-shape APDU; every response is accepted only
//! when its last two bytes are the success status word.  The caller
//! transmits the APDUs over PC/SC and hands the raw responses back to the
//! parsers here.

use vstd::prelude::*;
use vstd::slice::slice_subrange;
use vstd::slice::slice_to_vec;

use crate::ctaphid::be4_val;
use crate::hexstr::hex_encode_upper;
use crate::hexstr::hex_upper_of;
use crate::hexstr::format_version;
use crate::hexstr::version_string_of;
use crate::rescue_consts::rescue_aid;
use crate::rescue_consts::sw_ok;
use crate::rescue_consts::PhyTag;
use crate::rescue_consts::ReadParam;
use crate::rescue_consts::RebootParam;
use crate::rescue_consts::RescueInstruction;
use crate::rescue_consts::SecureLockParam;
use crate::rescue_consts::WriteParam;
use crate::rescue_consts::APDU_CLA_ISO;
use crate::rescue_consts::APDU_CLA_PROPRIETARY;
use crate::rescue_consts::APDU_INS_SELECT;
use crate::rescue_consts::APDU_P1_SELECT_BY_DF_NAME;
use crate::rescue_consts::APDU_P2_RETURN_FCI;
use crate::rescue_consts::P2_UNUSED;
use crate::tlv::decode_tlv;
use crate::tlv::decode_tlv_spec;
use crate::tlv::config_matches;
use crate::tlv::encode_tlv;
use crate::tlv::encode_model;
use crate::tlv::encode_err_msg;
use crate::tlv::input_model;
use crate::tlv::tlv_default;
use crate::tlv::tlv_input_valid;
use crate::types::AppConfig;
use crate::types::AppConfigInput;
use crate::types::DeviceInfo;
use crate::types::DeviceMethod;
use crate::types::FullDeviceStatus;
use crate::types::PFError;

verus! {

/// Checks the trailing success status word `90 00`.
pub fn is_success(resp: &[u8]) -> (r: bool)
    ensures
        r == sw_ok(resp@),
{
    resp.len() >= 2 && resp[resp.len() - 2] == 0x90 && resp[resp.len() - 1] == 0x00
}

/// The SELECT APDU that picks the Rescue applet by its application id.
pub open spec fn select_apdu_spec() -> Seq<u8> {
    seq![
        APDU_CLA_ISO,
        APDU_INS_SELECT,
        APDU_P1_SELECT_BY_DF_NAME,
        APDU_P2_RETURN_FCI,
        8u8,
    ] + rescue_aid()
}

/// Builds the SELECT APDU for the Rescue applet.
pub fn select_apdu() -> (r: Vec<u8>)
    ensures
        r@ == select_apdu_spec(),
{
    let mut apdu: Vec<u8> = Vec::new();
    apdu.push(APDU_CLA_ISO);
    apdu.push(APDU_INS_SELECT);
    apdu.push(APDU_P1_SELECT_BY_DF_NAME);
    apdu.push(APDU_P2_RETURN_FCI);
    apdu.push(8);
    apdu.push(0xA0);
    apdu.push(0x58);
    apdu.push(0x3F);
    apdu.push(0xC1);
    apdu.push(0x9B);
    apdu.push(0x7E);
    apdu.push(0x4F);
    apdu.push(0x21);
    proof {
        assert(apdu@ =~= select_apdu_spec());
    }
    apdu
}

/// Gates the SELECT response: only a trailing `90 00` means the applet is
/// present; anything else, even a readable response, reports it missing.
pub fn check_select_response(resp: &[u8]) -> (r: Result<(), PFError>)
    ensures
        r is Ok <==> sw_ok(resp@),
        r matches Err(e) ==> (e matches PFError::Device(m) && m@
            == "Rescue Applet not found on device. Is it in FIDO mode?"@),
{
    if is_success(resp) {
        Ok(())
    } else {
        proof {
            reveal_strlit("Rescue Applet not found on device. Is it in FIDO mode?");
        }
        Err(
            PFError::Device(
                String::from_str("Rescue Applet not found on device. Is it in FIDO mode?"),
            ),
        )
    }
}

/// The serial reported when the firmware does not return one.
pub open spec fn placeholder_serial() -> Seq<char> {
    "00000000"@
}

/// The serial a SELECT response carries: eight bytes hex-encoded uppercase
/// when the response is long enough, the placeholder otherwise.
pub open spec fn select_serial_of(resp: Seq<u8>) -> Seq<char> {
    if resp.len() >= 14 {
        hex_upper_of(resp.subrange(4, 12))
    } else {
        placeholder_serial()
    }
}

/// Reads serial and firmware version out of the SELECT response.  The
/// version bytes sit at offsets 2 and 3 of every response of at least 6
/// bytes; the 8-byte serial at offset 4 is present only in responses of at
/// least 14 bytes, else the placeholder serial is used.
pub fn parse_select_details(resp: &[u8]) -> (r: Result<(String, String), PFError>)
    ensures
        r is Ok <==> resp@.len() >= 6,
        r matches Ok(sv) ==> sv.0@ == select_serial_of(resp@) && sv.1@ == version_string_of(
            resp@[2],
            resp@[3],
        ),
        r matches Err(e) ==> (e matches PFError::Device(m) && m@ == "Invalid select response"@),
{
    if resp.len() < 6 {
        proof {
            reveal_strlit("Invalid select response");
        }
        return Err(PFError::Device(String::from_str("Invalid select response")));
    }
    let serial = if resp.len() >= 14 {
        hex_encode_upper(slice_subrange(resp, 4, 12))
    } else {
        proof {
            reveal_strlit("00000000");
        }
        String::from_str("00000000")
    };
    let fw = format_version(resp[2], resp[3]);
    Ok((serial, fw))
}

/// The read-flash-info APDU.
pub fn flash_info_apdu() -> (r: Vec<u8>)
    ensures
        r@ == seq![
            APDU_CLA_PROPRIETARY,
            RescueInstruction::Read.byte(),
            ReadParam::FlashInfo.byte(),
            P2_UNUSED,
            0u8,
        ],
{
    let mut apdu: Vec<u8> = Vec::new();
    apdu.push(APDU_CLA_PROPRIETARY);
    apdu.push(RescueInstruction::Read.byte());
    apdu.push(ReadParam::FlashInfo.byte());
    apdu.push(P2_UNUSED);
    apdu.push(0);
    proof {
        assert(apdu@ =~= seq![
            APDU_CLA_PROPRIETARY,
            RescueInstruction::Read.byte(),
            ReadParam::FlashInfo.byte(),
            P2_UNUSED,
            0u8,
        ]);
    }
    apdu
}

/// The read-secure-boot-status APDU.
pub fn secure_boot_status_apdu() -> (r: Vec<u8>)
    ensures
        r@ == seq![
            APDU_CLA_PROPRIETARY,
            RescueInstruction::Read.byte(),
            ReadParam::SecureBootStatus.byte(),
            P2_UNUSED,
            0u8,
        ],
{
    let mut apdu: Vec<u8> = Vec::new();
    apdu.push(APDU_CLA_PROPRIETARY);
    apdu.push(RescueInstruction::Read.byte());
    apdu.push(ReadParam::SecureBootStatus.byte());
    apdu.push(P2_UNUSED);
    apdu.push(0);
    proof {
        assert(apdu@ =~= seq![
            APDU_CLA_PROPRIETARY,
            RescueInstruction::Read.byte(),
            ReadParam::SecureBootStatus.byte(),
            P2_UNUSED,
            0u8,
        ]);
    }
    apdu
}

/// The read-physical-config APDU.
pub fn phy_config_apdu() -> (r: Vec<u8>)
    ensures
        r@ == seq![
            APDU_CLA_PROPRIETARY,
            RescueInstruction::Read.byte(),
            ReadParam::PhyConfig.byte(),
            1u8,
            0u8,
        ],
{
    let mut apdu: Vec<u8> = Vec::new();
    apdu.push(APDU_CLA_PROPRIETARY);
    apdu.push(RescueInstruction::Read.byte());
    apdu.push(ReadParam::PhyConfig.byte());
    apdu.push(1);
    apdu.push(0);
    proof {
        assert(apdu@ =~= seq![
            APDU_CLA_PROPRIETARY,
            RescueInstruction::Read.byte(),
            ReadParam::PhyConfig.byte(),
            1u8,
            0u8,
        ]);
    }
    apdu
}

/// The flash figures a flash-info response carries: big-endian 32-bit
/// used and total counts at offsets 4 and 8 of the data (before the status
/// word), zero where the response is too short.
pub open spec fn flash_used_of(data: Seq<u8>) -> u32 {
    if data.len() >= 8 {
        be4_val(data.subrange(4, 8))
    } else {
        0
    }
}

/// See [`flash_used_of`]; the total count at offset 8.
pub open spec fn flash_total_of(data: Seq<u8>) -> u32 {
    if data.len() >= 12 {
        be4_val(data.subrange(8, 12))
    } else {
        0
    }
}

/// Parses the flash-info response: gated on `90 00`, then used and total
/// byte counts are read from the quintuple of big-endian words.
pub fn parse_flash_response(resp: &[u8]) -> (r: Result<(u32, u32), PFError>)
    ensures
        r is Ok <==> sw_ok(resp@),
        r matches Ok(ut) ==> ut.0 == flash_used_of(resp@.take(resp@.len() - 2)) && ut.1
            == flash_total_of(resp@.take(resp@.len() - 2)),
        r matches Err(e) ==> (e matches PFError::Device(m) && m@ == "Failed to read flash"@),
{
    if !is_success(resp) {
        proof {
            reveal_strlit("Failed to read flash");
        }
        return Err(PFError::Device(String::from_str("Failed to read flash")));
    }
    let dlen = resp.len() - 2;
    let ghost data = resp@.take(resp@.len() - 2);
    let used: u32 = if dlen >= 8 {
        let u = (resp[4] as u32) * 0x1000000 + (resp[5] as u32) * 0x10000 + (resp[6] as u32) * 256
            + (resp[7] as u32);
        proof {
            assert(data.subrange(4, 8)[0] == resp@[4]);
            assert(data.subrange(4, 8)[1] == resp@[5]);
            assert(data.subrange(4, 8)[2] == resp@[6]);
            assert(data.subrange(4, 8)[3] == resp@[7]);
        }
        u
    } else {
        0
    };
    let total: u32 = if dlen >= 12 {
        let t = (resp[8] as u32) * 0x1000000 + (resp[9] as u32) * 0x10000 + (resp[10] as u32) * 256
            + (resp[11] as u32);
        proof {
            assert(data.subrange(8, 12)[0] == resp@[8]);
            assert(data.subrange(8, 12)[1] == resp@[9]);
            assert(data.subrange(8, 12)[2] == resp@[10]);
            assert(data.subrange(8, 12)[3] == resp@[11]);
        }
        t
    } else {
        0
    };
    Ok((used, total))
}

/// The secure-boot pair a status response carries: `(enabled, locked)`
/// from the first two bytes, or `(false, false)` on any failure or short
/// response — unknown is treated as unlocked, never as an error.
pub open spec fn secure_boot_of(resp: Seq<u8>) -> (bool, bool) {
    if sw_ok(resp) && resp.len() >= 4 {
        (resp[0] != 0, resp[1] != 0)
    } else {
        (false, false)
    }
}

/// Parses the secure-boot status response; never fails.
pub fn parse_secure_boot_response(resp: &[u8]) -> (r: (bool, bool))
    ensures
        r == secure_boot_of(resp@),
{
    if is_success(resp) && resp.len() >= 4 {
        (resp[0] != 0, resp[1] != 0)
    } else {
        (false, false)
    }
}

/// Parses the physical-config response: gated on `90 00`, then the TLV
/// payload is everything before the status word.
pub fn parse_phy_response(resp: &[u8]) -> (r: Result<Vec<u8>, PFError>)
    ensures
        r is Ok <==> sw_ok(resp@),
        r matches Ok(v) ==> v@ == resp@.take(resp@.len() - 2),
        r matches Err(e) ==> (e matches PFError::Device(m) && m@ == "Failed to read config"@),
{
    if !is_success(resp) {
        proof {
            reveal_strlit("Failed to read config");
        }
        return Err(PFError::Device(String::from_str("Failed to read config")));
    }
    let data = slice_to_vec(slice_subrange(resp, 0, resp.len() - 2));
    proof {
        assert(data@ =~= resp@.take(resp@.len() - 2));
    }
    Ok(data)
}

/// Assembles one full Rescue status read from the four raw APDU responses.
/// Fails on a short SELECT response, a failed flash read or a failed
/// config read, in that order; a failed secure-boot read only yields
/// `(false, false)`.  Flash figures are reported in KB.
pub fn assemble_rescue_status(
    select_resp: &[u8],
    flash_resp: &[u8],
    secure_resp: &[u8],
    phy_resp: &[u8],
) -> (r: Result<FullDeviceStatus, PFError>)
    ensures
        r is Ok <==> (select_resp@.len() >= 6 && sw_ok(flash_resp@) && sw_ok(phy_resp@)),
        r matches Ok(st) ==> ({
            let fdata = flash_resp@.take(flash_resp@.len() - 2);
            let sb = secure_boot_of(secure_resp@);
            &&& st.info.serial@ == select_serial_of(select_resp@)
            &&& st.info.firmware_version@ == version_string_of(select_resp@[2], select_resp@[3])
            &&& st.info.flash_used == flash_used_of(fdata) / 1024
            &&& st.info.flash_total == flash_total_of(fdata) / 1024
            &&& config_matches(
                st.config,
                decode_tlv_spec(phy_resp@.take(phy_resp@.len() - 2), tlv_default()),
            )
            &&& st.secure_boot == sb.0
            &&& st.secure_lock == sb.1
            &&& st.method == DeviceMethod::Rescue
        }),
        r matches Err(e) ==> (e matches PFError::Device(m) && (if select_resp@.len() < 6 {
            m@ == "Invalid select response"@
        } else if !sw_ok(flash_resp@) {
            m@ == "Failed to read flash"@
        } else {
            m@ == "Failed to read config"@
        })),
{
    let (serial, fw) = match parse_select_details(select_resp) {
        Ok(sv) => sv,
        Err(e) => {
            return Err(e);
        },
    };
    let (used, total) = match parse_flash_response(flash_resp) {
        Ok(ut) => ut,
        Err(e) => {
            return Err(e);
        },
    };
    let (sb_enabled, sb_locked) = parse_secure_boot_response(secure_resp);
    let phy_data = match parse_phy_response(phy_resp) {
        Ok(v) => v,
        Err(e) => {
            return Err(e);
        },
    };
    let config = decode_tlv(phy_data.as_slice());
    Ok(
        FullDeviceStatus {
            info: DeviceInfo {
                serial,
                flash_used: used / 1024,
                flash_total: total / 1024,
                firmware_version: fw,
            },
            config,
            secure_boot: sb_enabled,
            secure_lock: sb_locked,
            method: DeviceMethod::Rescue,
        },
    )
}

/// What a configuration write needs: nothing, when the diff was empty, or
/// one write APDU to transmit.
pub enum RescueWritePlan {
    /// The diff was empty; the message to report without touching the wire.
    NoChanges(String),
    /// The write APDU to transmit.
    Send(Vec<u8>),
}

/// The write-config APDU around a TLV blob.
pub open spec fn write_apdu_spec(tlv: Seq<u8>) -> Seq<u8> {
    seq![
        APDU_CLA_PROPRIETARY,
        RescueInstruction::Write.byte(),
        WriteParam::PhyConfig.byte(),
        P2_UNUSED,
        tlv.len() as u8,
    ] + tlv
}

/// Plans a Rescue configuration write: encodes the diff as TLV, reports
/// "no changes" for an empty diff without any I/O, otherwise yields the
/// write APDU carrying the blob.  Fails exactly as the TLV encoder does.
pub fn plan_rescue_write(input: &AppConfigInput) -> (r: Result<RescueWritePlan, PFError>)
    ensures
        r is Ok <==> tlv_input_valid(input_model(*input)),
        r matches Ok(plan) ==> (match plan {
            RescueWritePlan::NoChanges(m) => encode_model(input_model(*input)).len() == 0 && m@
                == "No changes to apply"@,
            RescueWritePlan::Send(apdu) => encode_model(input_model(*input)).len() > 0 && apdu@
                == write_apdu_spec(encode_model(input_model(*input))),
        }),
        r matches Err(e) ==> (e matches PFError::Io(msg) && msg@ == encode_err_msg(
            input_model(*input),
        )),
{
    let tlv = match encode_tlv(input) {
        Ok(v) => v,
        Err(e) => {
            return Err(e);
        },
    };
    if tlv.len() == 0 {
        proof {
            reveal_strlit("No changes to apply");
        }
        return Ok(RescueWritePlan::NoChanges(String::from_str("No changes to apply")));
    }
    proof {
        lemma_encode_model_len(input_model(*input));
    }
    let mut apdu: Vec<u8> = Vec::new();
    apdu.push(APDU_CLA_PROPRIETARY);
    apdu.push(RescueInstruction::Write.byte());
    apdu.push(WriteParam::PhyConfig.byte());
    apdu.push(P2_UNUSED);
    apdu.push(tlv.len() as u8);
    let mut k: usize = 0;
    let ghost prefix = apdu@;
    while k < tlv.len()
        invariant
            0 <= k <= tlv@.len(),
            apdu@ == prefix + tlv@.take(k as int),
        decreases tlv@.len() - k,
    {
        apdu.push(tlv[k]);
        proof {
            assert(prefix + tlv@.take(k + 1) =~= (prefix + tlv@.take(k as int)).push(
                tlv@[k as int],
            ));
        }
        k += 1;
    }
    proof {
        assert(tlv@.take(tlv@.len() as int) =~= tlv@);
        assert(apdu@ =~= write_apdu_spec(tlv@));
    }
    Ok(RescueWritePlan::Send(apdu))
}

/// A valid diff encodes to at most 62 bytes, so the blob always fits one
/// short APDU.
pub proof fn lemma_encode_model_len(m: crate::tlv::TlvInput)
    requires
        tlv_input_valid(m),
    ensures
        encode_model(m).len() <= 62,
{
}

/// Parses the write-config response: `90 00` is applied, anything else is
/// a device error carrying the raw bytes hex-encoded for diagnosis.
pub fn parse_write_response(resp: &[u8]) -> (r: Result<String, PFError>)
    ensures
        r is Ok <==> sw_ok(resp@),
        r matches Ok(m) ==> m@ == "Configuration Applied Successfully"@,
        r matches Err(e) ==> (e matches PFError::Device(m) && m@ == "Write failed: "@
            + hex_upper_of(resp@)),
{
    if is_success(resp) {
        proof {
            reveal_strlit("Configuration Applied Successfully");
        }
        Ok(String::from_str("Configuration Applied Successfully"))
    } else {
        proof {
            reveal_strlit("Write failed: ");
        }
        let mut msg = String::from_str("Write failed: ");
        let h = hex_encode_upper(resp);
        msg.append(h.as_str());
        Err(PFError::Device(msg))
    }
}

/// The reboot APDU: to the bootloader or a normal restart.
pub fn reboot_apdu(to_bootsel: bool) -> (r: Vec<u8>)
    ensures
        r@ == seq![
            APDU_CLA_PROPRIETARY,
            RescueInstruction::Reboot.byte(),
            (if to_bootsel {
                RebootParam::Bootsel.byte()
            } else {
                RebootParam::Normal.byte()
            }),
            P2_UNUSED,
            0u8,
        ],
{
    let p1 = if to_bootsel {
        RebootParam::Bootsel.byte()
    } else {
        RebootParam::Normal.byte()
    };
    let mut apdu: Vec<u8> = Vec::new();
    apdu.push(APDU_CLA_PROPRIETARY);
    apdu.push(RescueInstruction::Reboot.byte());
    apdu.push(p1);
    apdu.push(P2_UNUSED);
    apdu.push(0);
    proof {
        assert(apdu@ =~= seq![
            APDU_CLA_PROPRIETARY,
            RescueInstruction::Reboot.byte(),
            p1,
            P2_UNUSED,
            0u8,
        ]);
    }
    apdu
}

/// Parses the reboot response, gated on `90 00`.
pub fn reboot_result(resp: &[u8]) -> (r: Result<String, PFError>)
    ensures
        r is Ok <==> sw_ok(resp@),
        r matches Ok(m) ==> m@ == "Reboot command sent"@,
        r matches Err(e) ==> (e matches PFError::Device(m) && m@ == "Reboot failed: "@
            + hex_upper_of(resp@)),
{
    if is_success(resp) {
        proof {
            reveal_strlit("Reboot command sent");
        }
        Ok(String::from_str("Reboot command sent"))
    } else {
        proof {
            reveal_strlit("Reboot failed: ");
        }
        let mut msg = String::from_str("Reboot failed: ");
        let h = hex_encode_upper(resp);
        msg.append(h.as_str());
        Err(PFError::Device(msg))
    }
}

/// The secure-boot APDU: default key slot, lock or unlock.
pub fn secure_boot_apdu(lock: bool) -> (r: Vec<u8>)
    ensures
        r@ == seq![
            APDU_CLA_PROPRIETARY,
            RescueInstruction::Secure.byte(),
            0u8,
            (if lock {
                SecureLockParam::Lock.byte()
            } else {
                SecureLockParam::Unlock.byte()
            }),
            0u8,
        ],
{
    let p2 = if lock {
        SecureLockParam::Lock.byte()
    } else {
        SecureLockParam::Unlock.byte()
    };
    let mut apdu: Vec<u8> = Vec::new();
    apdu.push(APDU_CLA_PROPRIETARY);
    apdu.push(RescueInstruction::Secure.byte());
    apdu.push(0);
    apdu.push(p2);
    apdu.push(0);
    proof {
        assert(apdu@ =~= seq![
            APDU_CLA_PROPRIETARY,
            RescueInstruction::Secure.byte(),
            0u8,
            p2,
            0u8,
        ]);
    }
    apdu
}

/// Parses the secure-boot response, gated on `90 00`.
pub fn secure_boot_result(resp: &[u8]) -> (r: Result<String, PFError>)
    ensures
        r is Ok <==> sw_ok(resp@),
        r matches Ok(m) ==> m@ == "Secure Boot Enabled"@,
        r matches Err(e) ==> (e matches PFError::Device(m) && m@ == "Secure Boot failed: "@
            + hex_upper_of(resp@)),
{
    if is_success(resp) {
        proof {
            reveal_strlit("Secure Boot Enabled");
        }
        Ok(String::from_str("Secure Boot Enabled"))
    } else {
        proof {
            reveal_strlit("Secure Boot failed: ");
        }
        let mut msg = String::from_str("Secure Boot failed: ");
        let h = hex_encode_upper(resp);
        msg.append(h.as_str());
        Err(PFError::Device(msg))
    }
}

} // verus!
