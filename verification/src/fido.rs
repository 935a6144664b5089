//! The FIDO vendor/config protocol client: hand-built, canonically ordered
//! `authenticatorConfig` commands, the PIN/UV auth parameter signature,
//! GetInfo and vendor response parsing, and the per-field write plan.
//!
//! The caller sends the payloads built here over the CTAPHID transport and
//! hands the reassembled responses back to the parsers.

use vstd::prelude::*;
use vstd::string::StrSliceExecFns;
use vstd::slice::slice_subrange;
use vstd::slice::slice_to_vec;
use vstd::utf8::encode_utf8;

use crate::cbor::cbor_bytes;
use crate::cbor::cbor_map_header;
use crate::cbor::cbor_text_bytes;
use crate::cbor::cbor_uint;
use crate::cbor::cbor_map_lookup_bytes;
use crate::cbor::cbor_map_lookup_text_uint;
use crate::cbor::cbor_map_lookup_uint;
use crate::cbor::push_cbor_bytes;
use crate::cbor::push_cbor_map_header;
use crate::cbor::push_cbor_uint;
use crate::cbor::spec_map_lookup_bytes;
use crate::cbor::spec_map_lookup_text_uint;
use crate::cbor::spec_map_lookup_uint;
use crate::fido_consts::ConfigSubCommand;
use crate::fido_consts::CtapCommand;
use crate::fido_consts::MemorySubCommand;
use crate::fido_consts::PhysicalOptionsSubCommand;
use crate::fido_consts::VendorCommand;
use crate::fido_consts::VendorConfigCommand;
use crate::hexstr::hex_upper_of;
use crate::hexstr::hex_lower_of;
use crate::hexstr::hex_decode_of;
use crate::hexstr::hex_encode_lower;
use crate::hexstr::hex_encode_upper;
use crate::hexstr::hex_decode_bytes;
use crate::hexstr::valid_hex_str;
use crate::types::PFError;

verus! {

/// What `ring`'s HMAC-SHA-256 returns for a key and a message; a function
/// of the two alone.
pub uninterp spec fn hmac_sha256(key: Seq<u8>, msg: Seq<u8>) -> Seq<u8>;

/// Relies on `ring::hmac::sign` with a `ring::hmac::Key` for HMAC_SHA256:
/// the tag depends on key and message alone and is 32 bytes long.
#[verifier::external_body]
fn hmac_sha256_sign(key: &[u8], msg: &[u8]) -> (r: Vec<u8>)
    requires
        msg@.len() <= 0x1000000,
    ensures
        r@ == hmac_sha256(key@, msg@),
        r@.len() == 32,
{
    let k = ring::hmac::Key::new(ring::hmac::HMAC_SHA256, key);
    ring::hmac::sign(&k, msg).as_ref().to_vec()
}

/// The message signed to authorise an authenticatorConfig command:
/// 32 bytes of `0xFF`, the Config command byte, the sub-command, then the
/// serialized sub-command parameters.
pub open spec fn config_sign_message(sub_cmd: u8, sub_params: Seq<u8>) -> Seq<u8> {
    Seq::new(32, |i: int| 0xFFu8) + seq![CtapCommand::Config.byte(), sub_cmd] + sub_params
}

/// The PIN/UV auth parameter of an authenticatorConfig command: the
/// HMAC-SHA-256 of the sign message under the PIN token, truncated to 16
/// bytes — PIN protocol version 1's defined parameter length.
pub open spec fn pin_auth_of(pin_token: Seq<u8>, sub_cmd: u8, sub_params: Seq<u8>) -> Seq<u8> {
    hmac_sha256(pin_token, config_sign_message(sub_cmd, sub_params)).take(16)
}

/// Signs an authenticatorConfig command with a PIN/UV auth token.
pub fn sign_config_command(pin_token: &[u8], sub_cmd: u8, sub_params: &[u8]) -> (r: Vec<u8>)
    requires
        sub_params@.len() <= 0xFFFF,
    ensures
        r@ == pin_auth_of(pin_token@, sub_cmd, sub_params@),
        r@.len() == 16,
{
    let mut msg: Vec<u8> = Vec::new();
    let mut i: usize = 0;
    while i < 32
        invariant
            0 <= i <= 32,
            msg@.len() == i,
            forall|j: int| 0 <= j < i ==> msg@[j] == 0xFFu8,
        decreases 32 - i,
    {
        msg.push(0xFF);
        i += 1;
    }
    msg.push(CtapCommand::Config.byte());
    msg.push(sub_cmd);
    let ghost prefix = msg@;
    let mut k: usize = 0;
    while k < sub_params.len()
        invariant
            0 <= k <= sub_params@.len(),
            msg@ == prefix + sub_params@.take(k as int),
        decreases sub_params@.len() - k,
    {
        msg.push(sub_params[k]);
        proof {
            assert(prefix + sub_params@.take(k + 1) =~= (prefix + sub_params@.take(k as int)).push(
                sub_params@[k as int],
            ));
        }
        k += 1;
    }
    proof {
        assert(sub_params@.take(sub_params@.len() as int) =~= sub_params@);
        assert(msg@ =~= config_sign_message(sub_cmd, sub_params@));
    }
    let tag = hmac_sha256_sign(pin_token, msg.as_slice());
    let auth = slice_to_vec(slice_subrange(tag.as_slice(), 0, 16));
    proof {
        assert(auth@ =~= tag@.take(16));
    }
    auth
}

/// A vendor command parameter; its CBOR type selects the sub-parameter key
/// it is sent under.
pub enum CborParam {
    Bytes(Vec<u8>),
    Int(u64),
    Text(String),
}

impl CborParam {
    /// The sub-parameter map key this parameter type is sent under.
    pub open spec fn spec_key(&self) -> u64 {
        match self {
            CborParam::Bytes(_) => 2,
            CborParam::Int(_) => 3,
            CborParam::Text(_) => 4,
        }
    }

    /// The canonical CBOR encoding of the parameter value.
    pub open spec fn spec_encoding(&self) -> Seq<u8> {
        match self {
            CborParam::Bytes(b) => cbor_bytes(b@),
            CborParam::Int(n) => cbor_uint(*n),
            CborParam::Text(s) => cbor_text_bytes(encode_utf8(s@)),
        }
    }

    /// A parameter small enough for one CTAP message.
    pub open spec fn fits(&self) -> bool {
        match self {
            CborParam::Bytes(b) => b@.len() <= 0xF000,
            CborParam::Int(_) => true,
            CborParam::Text(s) => encode_utf8(s@).len() <= 0xF000,
        }
    }
}

/// The vendor sub-command parameter map: `{1: command id, key: value}`,
/// keys in ascending order.
pub open spec fn vendor_sub_params_spec(
    cmd: VendorConfigCommand,
    param_key: u64,
    param_enc: Seq<u8>,
) -> Seq<u8> {
    cbor_map_header(2) + cbor_uint(1) + cbor_uint(cmd.to_u64()) + cbor_uint(param_key) + param_enc
}

/// Builds the vendor sub-command parameter map for a parameter.
pub fn build_vendor_sub_params(cmd: VendorConfigCommand, param: &CborParam) -> (r: Vec<u8>)
    ensures
        r@ == vendor_sub_params_spec(cmd, param.spec_key(), param.spec_encoding()),
{
    let mut out: Vec<u8> = Vec::new();
    push_cbor_map_header(&mut out, 2);
    push_cbor_uint(&mut out, 1);
    push_cbor_uint(&mut out, cmd.to_u64());
    match param {
        CborParam::Bytes(b) => {
            push_cbor_uint(&mut out, 2);
            push_cbor_bytes(&mut out, b.as_slice());
        },
        CborParam::Int(n) => {
            push_cbor_uint(&mut out, 3);
            push_cbor_uint(&mut out, *n);
        },
        CborParam::Text(s) => {
            push_cbor_uint(&mut out, 4);
            crate::cbor::push_cbor_text(&mut out, s.as_str());
        },
    }
    proof {
        assert(out@ =~= vendor_sub_params_spec(cmd, param.spec_key(), param.spec_encoding()));
    }
    out
}


/// The serialized authenticatorConfig command: the Config command byte,
/// then a 4-entry map whose keys 1 (sub-command), 2 (sub-command
/// parameters), 3 (PIN protocol, always 1) and 4 (PIN/UV auth parameter)
/// appear in exactly this ascending order.
pub open spec fn config_command_bytes(
    sub_cmd: u8,
    sub_params: Seq<u8>,
    pin_auth: Seq<u8>,
) -> Seq<u8> {
    seq![CtapCommand::Config.byte()] + cbor_map_header(4) + cbor_uint(1) + cbor_uint(
        sub_cmd as u64,
    ) + cbor_uint(2) + sub_params + cbor_uint(3) + cbor_uint(1) + cbor_uint(4) + cbor_bytes(
        pin_auth,
    )
}

/// CBOR key ordering: the authenticatorConfig map serializes its keys as
/// exactly 1, 2, 3, 4 — strictly ascending, whatever the field values are.
/// The firmware's canonical-CBOR parser rejects any other order.
pub proof fn lemma_config_map_keys_ascending(sub_cmd: u8, sub_params: Seq<u8>, pin_auth: Seq<u8>)
    ensures
        ({
            let keys = seq![1u64, 2u64, 3u64, 4u64];
            &&& config_command_bytes(sub_cmd, sub_params, pin_auth) == seq![
                CtapCommand::Config.byte(),
            ] + cbor_map_header(4) + cbor_uint(keys[0]) + cbor_uint(sub_cmd as u64) + cbor_uint(
                keys[1],
            ) + sub_params + cbor_uint(keys[2]) + cbor_uint(1) + cbor_uint(keys[3]) + cbor_bytes(
                pin_auth,
            )
            &&& forall|i: int| 0 <= i < keys.len() - 1 ==> #[trigger] keys[i] < keys[i + 1]
        }),
{
}

/// CBOR key ordering of the vendor sub-parameter map: the command id key 1
/// always precedes the parameter key (2, 3 or 4), so the keys strictly
/// ascend whatever the parameter type.
pub proof fn lemma_vendor_sub_params_keys_ascending(
    cmd: VendorConfigCommand,
    param_key: u64,
    param_enc: Seq<u8>,
)
    requires
        2 <= param_key <= 4,
    ensures
        vendor_sub_params_spec(cmd, param_key, param_enc) == cbor_map_header(2) + cbor_uint(1)
            + cbor_uint(cmd.to_u64()) + cbor_uint(param_key) + param_enc,
        1u64 < param_key,
{
}

/// Builds the vendor-prototype authenticatorConfig payload for one vendor
/// command and parameter, signed with the PIN/UV auth token.
pub fn build_vendor_config_payload(
    pin_token: &[u8],
    cmd: VendorConfigCommand,
    param: &CborParam,
) -> (r: Vec<u8>)
    requires
        param.fits(),
    ensures
        r@ == config_command_bytes(
            ConfigSubCommand::VendorPrototype.byte(),
            vendor_sub_params_spec(cmd, param.spec_key(), param.spec_encoding()),
            pin_auth_of(
                pin_token@,
                ConfigSubCommand::VendorPrototype.byte(),
                vendor_sub_params_spec(cmd, param.spec_key(), param.spec_encoding()),
            ),
        ),
{
    let sub_params = build_vendor_sub_params(cmd, param);
    let pin_auth = sign_config_command(
        pin_token,
        ConfigSubCommand::VendorPrototype.byte(),
        sub_params.as_slice(),
    );
    let mut out: Vec<u8> = Vec::new();
    out.push(CtapCommand::Config.byte());
    push_cbor_map_header(&mut out, 4);
    push_cbor_uint(&mut out, 1);
    push_cbor_uint(&mut out, ConfigSubCommand::VendorPrototype.byte() as u64);
    push_cbor_uint(&mut out, 2);
    let ghost before_params = out@;
    let mut sp: usize = 0;
    while sp < sub_params.len()
        invariant
            0 <= sp <= sub_params@.len(),
            out@ == before_params + sub_params@.take(sp as int),
        decreases sub_params@.len() - sp,
    {
        out.push(sub_params[sp]);
        proof {
            assert(before_params + sub_params@.take(sp + 1) =~= (before_params + sub_params@.take(
                sp as int,
            )).push(sub_params@[sp as int]));
        }
        sp += 1;
    }
    proof {
        assert(sub_params@.take(sub_params@.len() as int) =~= sub_params@);
    }
    push_cbor_uint(&mut out, 3);
    push_cbor_uint(&mut out, 1);
    push_cbor_uint(&mut out, 4);
    push_cbor_bytes(&mut out, pin_auth.as_slice());
    proof {
        assert(out@ =~= config_command_bytes(
            ConfigSubCommand::VendorPrototype.byte(),
            vendor_sub_params_spec(cmd, param.spec_key(), param.spec_encoding()),
            pin_auth_of(
                pin_token@,
                ConfigSubCommand::VendorPrototype.byte(),
                vendor_sub_params_spec(cmd, param.spec_key(), param.spec_encoding()),
            ),
        ));
    }
    out
}

/// The setMinPINLength sub-command parameter map: `{1: new length}`.
pub open spec fn min_pin_sub_params_spec(new_min: u8) -> Seq<u8> {
    cbor_map_header(1) + cbor_uint(1) + cbor_uint(new_min as u64)
}

/// Builds the setMinPINLength authenticatorConfig payload, with the map
/// keys in the ascending order the firmware insists on.
pub fn build_set_min_pin_payload(pin_token: &[u8], new_min_pin_length: u8) -> (r: Vec<u8>)
    ensures
        r@ == config_command_bytes(
            ConfigSubCommand::SetMinPinLength.byte(),
            min_pin_sub_params_spec(new_min_pin_length),
            pin_auth_of(
                pin_token@,
                ConfigSubCommand::SetMinPinLength.byte(),
                min_pin_sub_params_spec(new_min_pin_length),
            ),
        ),
{
    let mut sub_params: Vec<u8> = Vec::new();
    push_cbor_map_header(&mut sub_params, 1);
    push_cbor_uint(&mut sub_params, 1);
    push_cbor_uint(&mut sub_params, new_min_pin_length as u64);
    proof {
        assert(sub_params@ =~= min_pin_sub_params_spec(new_min_pin_length));
    }
    let pin_auth = sign_config_command(
        pin_token,
        ConfigSubCommand::SetMinPinLength.byte(),
        sub_params.as_slice(),
    );
    let mut out: Vec<u8> = Vec::new();
    out.push(CtapCommand::Config.byte());
    push_cbor_map_header(&mut out, 4);
    push_cbor_uint(&mut out, 1);
    push_cbor_uint(&mut out, ConfigSubCommand::SetMinPinLength.byte() as u64);
    push_cbor_uint(&mut out, 2);
    let ghost before_params = out@;
    let mut sp: usize = 0;
    while sp < sub_params.len()
        invariant
            0 <= sp <= sub_params@.len(),
            out@ == before_params + sub_params@.take(sp as int),
        decreases sub_params@.len() - sp,
    {
        out.push(sub_params[sp]);
        proof {
            assert(before_params + sub_params@.take(sp + 1) =~= (before_params + sub_params@.take(
                sp as int,
            )).push(sub_params@[sp as int]));
        }
        sp += 1;
    }
    proof {
        assert(sub_params@.take(sub_params@.len() as int) =~= sub_params@);
    }
    push_cbor_uint(&mut out, 3);
    push_cbor_uint(&mut out, 1);
    push_cbor_uint(&mut out, 4);
    push_cbor_bytes(&mut out, pin_auth.as_slice());
    proof {
        assert(out@ =~= config_command_bytes(
            ConfigSubCommand::SetMinPinLength.byte(),
            min_pin_sub_params_spec(new_min_pin_length),
            pin_auth_of(
                pin_token@,
                ConfigSubCommand::SetMinPinLength.byte(),
                min_pin_sub_params_spec(new_min_pin_length),
            ),
        ));
    }
    out
}

/// Whether `needle` occurs as a contiguous run inside `haystack`.
pub open spec fn contains_seq(haystack: Seq<char>, needle: Seq<char>) -> bool {
    exists|i: int|
        0 <= i <= haystack.len() - needle.len() && #[trigger] haystack.subrange(
            i,
            i + needle.len(),
        ) == needle
}

/// Whether the characters of `needle` match `h` starting at `i`.
fn match_at(h: &str, hlen: usize, n: &str, nlen: usize, i: usize) -> (r: bool)
    requires
        hlen == h@.len(),
        nlen == n@.len(),
        i + nlen <= hlen,
    ensures
        r == (h@.subrange(i as int, i + n@.len()) == n@),
{
    let mut j: usize = 0;
    proof {
        assert(h@.subrange(i as int, i as int) =~= n@.take(0));
    }
    while j < nlen
        invariant
            hlen == h@.len(),
            nlen == n@.len(),
            i + nlen <= hlen,
            0 <= j <= nlen,
            h@.subrange(i as int, i + j) == n@.take(j as int),
        decreases nlen - j,
    {
        proof {
            assert(h@.subrange(i as int, i + j + 1).drop_last() =~= h@.subrange(i as int, i + j));
            assert(n@.take(j + 1).drop_last() =~= n@.take(j as int));
        }
        if h.get_char(i + j) != n.get_char(j) {
            proof {
                assert(h@.subrange(i as int, i + j + 1).last() == h@[i + j]);
                assert(n@.take(j + 1).last() == n@[j as int]);
                if h@.subrange(i as int, i + n@.len()) == n@ {
                    assert(h@.subrange(i as int, i + n@.len())[j as int] == n@[j as int]);
                    assert(h@[i + j] == n@[j as int]);
                }
            }
            return false;
        }
        proof {
            assert(h@.subrange(i as int, i + j + 1) =~= h@.subrange(i as int, i + j).push(
                h@[i + j],
            ));
            assert(n@.take(j + 1) =~= n@.take(j as int).push(n@[j as int]));
        }
        j += 1;
    }
    proof {
        assert(n@.take(n@.len() as int) =~= n@);
    }
    true
}

/// Whether `needle` occurs inside `haystack`, by characters.
pub fn str_contains(haystack: &str, needle: &str) -> (r: bool)
    ensures
        r == contains_seq(haystack@, needle@),
{
    let hlen = haystack.unicode_len();
    let nlen = needle.unicode_len();
    if nlen > hlen {
        proof {
            assert(!contains_seq(haystack@, needle@));
        }
        return false;
    }
    if nlen == 0 {
        proof {
            let zero: int = 0;
            assert(haystack@.subrange(zero, zero + needle@.len()) =~= needle@);
            assert(contains_seq(haystack@, needle@));
        }
        return true;
    }
    let mut i: usize = 0;
    while i <= hlen - nlen
        invariant
            hlen == haystack@.len(),
            nlen == needle@.len(),
            0 < nlen <= hlen,
            0 <= i <= hlen - nlen + 1,
            forall|q: int|
                0 <= q < i ==> #[trigger] haystack@.subrange(q, q + needle@.len()) != needle@,
        decreases hlen + 1 - nlen - i,
    {
        if match_at(haystack, hlen, needle, nlen, i) {
            proof {
                assert(haystack@.subrange(i as int, i + needle@.len()) == needle@);
            }
            return true;
        }
        i += 1;
    }
    proof {
        assert forall|q: int|
            0 <= q <= haystack@.len() - needle@.len() implies #[trigger] haystack@.subrange(
            q,
            q + needle@.len(),
        ) != needle@ by {
            assert(q < i);
        }
    }
    false
}

/// The user-facing explanation replacing the firmware's PIN-policy
/// violation code.
pub open spec fn min_pin_decrease_msg() -> Seq<char> {
    "Cannot decrease minimum PIN length. The FIDO2 security policy only allows increasing the minimum PIN length, not decreasing it. A device reset is required to lower the minimum."@
}

/// Interprets the outcome of a setMinPINLength exchange.  Success reports
/// the new length; a failure whose message carries the firmware's PIN
/// policy violation code `0x37` is replaced by the specific
/// cannot-decrease explanation; every other failure passes through
/// generically.
pub fn min_pin_outcome(result: Result<Vec<u8>, PFError>, new_min_pin_length: u8) -> (r: Result<
    String,
    PFError,
>)
    ensures
        r is Ok <==> result is Ok,
        r matches Ok(m) ==> m@ == "Minimum PIN length successfully set to "@
            + crate::hexstr::dec_of_u8(new_min_pin_length),
        result matches Err(e0) ==> (r matches Err(e) && e matches PFError::Device(m) && (if
            contains_seq(e0.spec_message(), "0x37"@) {
            m@ == min_pin_decrease_msg()
        } else {
            m@ == "setMinPINLength failed: "@ + e0.spec_message()
        })),
{
    match result {
        Ok(_) => {
            proof {
                reveal_strlit("Minimum PIN length successfully set to ");
            }
            let mut msg = String::from_str("Minimum PIN length successfully set to ");
            let n_s = crate::hexstr::format_u8_dec(new_min_pin_length);
            msg.append(n_s.as_str());
            Ok(msg)
        },
        Err(e) => {
            let etext = e.message();
            proof {
                reveal_strlit("0x37");
            }
            if str_contains(etext.as_str(), "0x37") {
                proof {
                    reveal_strlit(
                        "Cannot decrease minimum PIN length. The FIDO2 security policy only allows increasing the minimum PIN length, not decreasing it. A device reset is required to lower the minimum.",
                    );
                }
                Err(
                    PFError::Device(
                        String::from_str(
                            "Cannot decrease minimum PIN length. The FIDO2 security policy only allows increasing the minimum PIN length, not decreasing it. A device reset is required to lower the minimum.",
                        ),
                    ),
                )
            } else {
                proof {
                    reveal_strlit("setMinPINLength failed: ");
                }
                let mut msg = String::from_str("setMinPINLength failed: ");
                msg.append(etext.as_str());
                Err(PFError::Device(msg))
            }
        },
    }
}


/// The GetInfo request payload: just the command byte.
pub fn get_info_payload() -> (r: Vec<u8>)
    ensures
        r@ == seq![CtapCommand::GetInfo.byte()],
{
    let mut out: Vec<u8> = Vec::new();
    out.push(CtapCommand::GetInfo.byte());
    proof {
        assert(out@ =~= seq![CtapCommand::GetInfo.byte()]);
    }
    out
}

/// The vendor memory-statistics request: the Memory sub-byte, then the
/// CBOR map `{1: GetStats}`.
pub fn memory_stats_payload() -> (r: Vec<u8>)
    ensures
        r@ == seq![VendorCommand::Memory.byte()] + cbor_map_header(1) + cbor_uint(1) + cbor_uint(
            MemorySubCommand::GetStats.byte() as u64,
        ),
{
    let mut out: Vec<u8> = Vec::new();
    out.push(VendorCommand::Memory.byte());
    push_cbor_map_header(&mut out, 1);
    push_cbor_uint(&mut out, 1);
    push_cbor_uint(&mut out, MemorySubCommand::GetStats.byte() as u64);
    proof {
        assert(out@ =~= seq![VendorCommand::Memory.byte()] + cbor_map_header(1) + cbor_uint(1)
            + cbor_uint(MemorySubCommand::GetStats.byte() as u64));
    }
    out
}

/// The vendor physical-options request: the PhysicalOptions sub-byte, then
/// the CBOR map `{1: GetOptions}`.
pub fn phy_options_payload() -> (r: Vec<u8>)
    ensures
        r@ == seq![VendorCommand::PhysicalOptions.byte()] + cbor_map_header(1) + cbor_uint(1)
            + cbor_uint(PhysicalOptionsSubCommand::GetOptions.byte() as u64),
{
    let mut out: Vec<u8> = Vec::new();
    out.push(VendorCommand::PhysicalOptions.byte());
    push_cbor_map_header(&mut out, 1);
    push_cbor_uint(&mut out, 1);
    push_cbor_uint(&mut out, PhysicalOptionsSubCommand::GetOptions.byte() as u64);
    proof {
        assert(out@ =~= seq![VendorCommand::PhysicalOptions.byte()] + cbor_map_header(1)
            + cbor_uint(1) + cbor_uint(PhysicalOptionsSubCommand::GetOptions.byte() as u64));
    }
    out
}

/// The fallback text when a GetInfo field is missing.
pub open spec fn unknown_text() -> Seq<char> {
    "Unknown"@
}

/// The AAGUID string a GetInfo response yields: map key 3 as uppercase
/// hex, or "Unknown".
pub open spec fn aaguid_of(info: Seq<u8>) -> Seq<char> {
    match spec_map_lookup_bytes(info, 3) {
        Some(b) => hex_upper_of(b),
        None => unknown_text(),
    }
}

/// The firmware version string a GetInfo response yields: map key 0x0E
/// split into "major.minor" by byte shift, or "Unknown".
pub open spec fn fw_version_of(info: Seq<u8>) -> Seq<char> {
    match spec_map_lookup_uint(info, 0x0E) {
        Some(v) => crate::hexstr::version_string_of(((v / 256) % 256) as u8, (v % 256) as u8),
        None => unknown_text(),
    }
}

/// Extracts AAGUID and firmware version from a GetInfo response.  Missing
/// keys fall back to "Unknown" rather than erroring: GetInfo is
/// best-effort for display.
pub fn parse_get_info(info: &[u8]) -> (r: (String, String))
    requires
        info@.len() <= 0xFFFF,
    ensures
        r.0@ == aaguid_of(info@),
        r.1@ == fw_version_of(info@),
{
    let aaguid = match cbor_map_lookup_bytes(info, 3) {
        Some(b) => hex_encode_upper(b.as_slice()),
        None => {
            proof {
                reveal_strlit("Unknown");
            }
            String::from_str("Unknown")
        },
    };
    let fw = match cbor_map_lookup_uint(info, 0x0E) {
        Some(v) => crate::hexstr::format_version(((v / 256) % 256) as u8, (v % 256) as u8),
        None => {
            proof {
                reveal_strlit("Unknown");
            }
            String::from_str("Unknown")
        },
    };
    (aaguid, fw)
}

/// Whether a CBOR document is a definite-length map at the top level.
pub open spec fn cbor_top_is_map(data: Seq<u8>) -> bool {
    match crate::cbor::spec_cbor_header(data, 0) {
        Some((major, n, after)) => major == 5,
        None => false,
    }
}

/// The used and total byte counts a memory-statistics response carries,
/// under keys 2 and 3, truncated to 32 bits; zero where absent.
pub open spec fn memory_stats_of(data: Seq<u8>) -> (u32, u32) {
    (
        match spec_map_lookup_uint(data, 2) {
            Some(v) => (v % 0x1_0000_0000) as u32,
            None => 0u32,
        },
        match spec_map_lookup_uint(data, 3) {
            Some(v) => (v % 0x1_0000_0000) as u32,
            None => 0u32,
        },
    )
}

/// Parses the memory-statistics response.  An empty response yields zero
/// counts; a response that is not a CBOR map at all is a parse error —
/// memory statistics are required data, unlike the physical options.
pub fn parse_memory_stats(data: &[u8]) -> (r: Result<(u32, u32), PFError>)
    requires
        data@.len() <= 0xFFFF,
    ensures
        data@.len() == 0 ==> (r matches Ok(ut) && ut.0 == 0 && ut.1 == 0),
        data@.len() > 0 && cbor_top_is_map(data@) ==> (r matches Ok(ut) && ut
            == memory_stats_of(data@)),
        data@.len() > 0 && !cbor_top_is_map(data@) ==> (r matches Err(e) && e matches PFError::Io(
            m,
        ) && m@ == "Failed to parse Memory Stats CBOR"@),
{
    if data.len() == 0 {
        return Ok((0, 0));
    }
    let is_map = match crate::cbor::cbor_header(data, 0) {
        Some((major, _, _)) => major == 5,
        None => false,
    };
    if !is_map {
        proof {
            reveal_strlit("Failed to parse Memory Stats CBOR");
        }
        return Err(PFError::Io(String::from_str("Failed to parse Memory Stats CBOR")));
    }
    let used: u32 = match cbor_map_lookup_uint(data, 2) {
        Some(v) => (v % 0x1_0000_0000) as u32,
        None => 0,
    };
    let total: u32 = match cbor_map_lookup_uint(data, 3) {
        Some(v) => (v % 0x1_0000_0000) as u32,
        None => 0,
    };
    Ok((used, total))
}

/// The LED GPIO a physical-options response reports under the text key
/// "gpio", truncated to a byte; zero where absent or unreadable.
pub open spec fn phy_gpio_of(data: Seq<u8>) -> u8 {
    match spec_map_lookup_text_uint(data, encode_utf8("gpio"@)) {
        Some(v) => (v % 256) as u8,
        None => 0u8,
    }
}

/// The LED brightness under the text key "brightness"; zero where absent.
pub open spec fn phy_brightness_of(data: Seq<u8>) -> u8 {
    match spec_map_lookup_text_uint(data, encode_utf8("brightness"@)) {
        Some(v) => (v % 256) as u8,
        None => 0u8,
    }
}

/// Builds the configuration view of a FIDO-channel read: identity fields
/// come from the HID descriptor (always populated, even when the vendor
/// call failed and `data` is empty), LED fields from the physical-options
/// response, everything else default.
pub fn parse_physical_config(data: &[u8], vid: u16, pid: u16, product_name: String) -> (r:
    crate::types::AppConfig)
    requires
        data@.len() <= 0xFFFF,
    ensures
        r.vid@ == crate::hexstr::hex4_of(vid),
        r.pid@ == crate::hexstr::hex4_of(pid),
        r.product_name@ == product_name@,
        r.led_gpio == phy_gpio_of(data@),
        r.led_brightness == phy_brightness_of(data@),
        r.touch_timeout == 0,
        r.led_driver is None,
        !r.led_dimmable,
        !r.power_cycle_on_reset,
        !r.led_steady,
        !r.enable_secp256k1,
{
    let mut config = crate::types::AppConfig::default();
    config.vid = crate::hexstr::format_hex4(vid);
    config.pid = crate::hexstr::format_hex4(pid);
    config.product_name = product_name;
    proof {
        reveal_strlit("gpio");
        reveal_strlit("brightness");
    }
    let gpio_key = "gpio".as_bytes_vec();
    if let Some(v) = cbor_map_lookup_text_uint(data, gpio_key.as_slice()) {
        config.led_gpio = (v % 256) as u8;
    }
    let bright_key = "brightness".as_bytes_vec();
    if let Some(v) = cbor_map_lookup_text_uint(data, bright_key.as_slice()) {
        config.led_brightness = (v % 256) as u8;
    }
    config
}

/// Assembles a FIDO-channel status read: no serial is available over this
/// channel, flash figures arrive in bytes and are reported in KB, the
/// secure-boot flags are unknowable and reported off, and the method is
/// recorded so writes are routed back over FIDO.
pub fn assemble_fido_status(
    fw_version: String,
    used_bytes: u32,
    total_bytes: u32,
    config: crate::types::AppConfig,
) -> (r: crate::types::FullDeviceStatus)
    ensures
        r.info.serial@ == "?"@,
        r.info.flash_used == used_bytes / 1024,
        r.info.flash_total == total_bytes / 1024,
        r.info.firmware_version@ == fw_version@,
        r.config == config,
        !r.secure_boot,
        !r.secure_lock,
        r.method == crate::types::DeviceMethod::Fido,
{
    proof {
        reveal_strlit("?");
    }
    crate::types::FullDeviceStatus {
        info: crate::types::DeviceInfo {
            serial: String::from_str("?"),
            flash_used: used_bytes / 1024,
            flash_total: total_bytes / 1024,
            firmware_version: fw_version,
        },
        config,
        secure_boot: false,
        secure_lock: false,
        method: crate::types::DeviceMethod::Fido,
    }
}

/// One planned vendor-config write.
#[derive(Debug)]
pub struct VendorWriteStep {
    /// The CTAP payload to send under the CBOR command byte.
    pub payload: Vec<u8>,
    /// Whether a failure of this step is ignored (the touch-timeout write).
    pub best_effort: bool,
}

/// The model of one planned step: which vendor command, the integer value
/// sent, and whether its failure is ignored.
pub struct FidoStepModel {
    pub cmd: VendorConfigCommand,
    pub value: u64,
    pub best_effort: bool,
}

/// The full vendor-config payload carrying one integer parameter.
pub open spec fn vendor_int_payload(token: Seq<u8>, cmd: VendorConfigCommand, value: u64) -> Seq<
    u8,
> {
    config_command_bytes(
        ConfigSubCommand::VendorPrototype.byte(),
        vendor_sub_params_spec(cmd, 3, cbor_uint(value)),
        pin_auth_of(
            token,
            ConfigSubCommand::VendorPrototype.byte(),
            vendor_sub_params_spec(cmd, 3, cbor_uint(value)),
        ),
    )
}

/// The options bitmask a FIDO write sends: absent flags fall back to their
/// defaults (not dimmable, power cycle on, not steady).
pub open spec fn fido_opts_bits(i: crate::types::AppConfigInput) -> u64 {
    (((if i.led_dimmable == Some(true) {
        2int
    } else {
        0int
    }) + (if i.power_cycle_on_reset == Some(false) {
        4int
    } else {
        0int
    }) + (if i.led_steady == Some(true) {
        8int
    } else {
        0int
    })) as u64)
}

/// Whether the diff touches any of the three option flags; only then is
/// the options bitmask written, so a diff that leaves the flags alone
/// cannot silently reset them on the device.
pub open spec fn fido_opts_present(i: crate::types::AppConfigInput) -> bool {
    i.led_dimmable is Some || i.power_cycle_on_reset is Some || i.led_steady is Some
}

/// The planned step sequence of a FIDO configuration write, in the order
/// the fields are sent: VID/PID combined into one 32-bit value (when both
/// are present), LED GPIO, LED brightness, the best-effort touch timeout,
/// and the options bitmask last, when any option flag is present.  A diff
/// with no populated field plans nothing at all.
pub open spec fn fido_plan_model(i: crate::types::AppConfigInput) -> Seq<FidoStepModel> {
    (match (i.vid, i.pid) {
        (Some(v), Some(p)) => seq![
            FidoStepModel {
                cmd: VendorConfigCommand::PhysicalVidPid,
                value: (crate::hexstr::hex_val_of(v@) * 0x10000 + crate::hexstr::hex_val_of(
                    p@,
                )) as u64,
                best_effort: false,
            },
        ],
        _ => Seq::empty(),
    }) + (match i.led_gpio {
        Some(g) => seq![
            FidoStepModel {
                cmd: VendorConfigCommand::PhysicalLedGpio,
                value: g as u64,
                best_effort: false,
            },
        ],
        None => Seq::empty(),
    }) + (match i.led_brightness {
        Some(b) => seq![
            FidoStepModel {
                cmd: VendorConfigCommand::PhysicalLedBrightness,
                value: b as u64,
                best_effort: false,
            },
        ],
        None => Seq::empty(),
    }) + (match i.touch_timeout {
        Some(t) => seq![
            FidoStepModel {
                cmd: VendorConfigCommand::PhysicalOptions,
                value: t as u64,
                best_effort: true,
            },
        ],
        None => Seq::empty(),
    }) + (if fido_opts_present(i) {
        seq![
            FidoStepModel {
                cmd: VendorConfigCommand::PhysicalOptions,
                value: fido_opts_bits(i),
                best_effort: false,
            },
        ]
    } else {
        Seq::empty()
    })
}

/// FIDO diff suppression: a diff with no populated field plans no vendor
/// write at all, so nothing is transmitted for it.
pub proof fn lemma_empty_fido_diff_plans_nothing(i: crate::types::AppConfigInput)
    requires
        i.vid is None || i.pid is None,
        i.led_gpio is None,
        i.led_brightness is None,
        i.touch_timeout is None,
        i.led_dimmable is None,
        i.power_cycle_on_reset is None,
        i.led_steady is None,
    ensures
        fido_plan_model(i).len() == 0,
{
}

/// The built steps realise the planned models under a token.
pub open spec fn steps_match(
    steps: Seq<VendorWriteStep>,
    m: Seq<FidoStepModel>,
    token: Seq<u8>,
) -> bool {
    &&& steps.len() == m.len()
    &&& forall|k: int|
        0 <= k < m.len() ==> (#[trigger] steps[k]).payload@ == vendor_int_payload(
            token,
            m[k].cmd,
            m[k].value,
        ) && steps[k].best_effort == m[k].best_effort
}

/// Appends one planned integer-parameter step.
fn push_int_step(
    steps: &mut Vec<VendorWriteStep>,
    pin_token: &[u8],
    cmd: VendorConfigCommand,
    value: u64,
    best_effort: bool,
)
    ensures
        final(steps)@.len() == old(steps)@.len() + 1,
        final(steps)@.drop_last() == old(steps)@,
        final(steps)@.last().payload@ == vendor_int_payload(pin_token@, cmd, value),
        final(steps)@.last().best_effort == best_effort,
{
    let payload = build_vendor_config_payload(pin_token, cmd, &CborParam::Int(value));
    steps.push(VendorWriteStep { payload, best_effort });
    proof {
        assert(steps@.drop_last() =~= old(steps)@);
    }
}

/// Plans the vendor-config writes for a configuration diff: one
/// independent call per populated field, as [`fido_plan_model`] lists
/// them; an empty diff plans nothing.  Fails only on an unparsable VID or
/// PID (when both are present), before any step is built; partial
/// application on the device remains possible because each step is sent
/// independently.
pub fn plan_fido_write(input: &crate::types::AppConfigInput, pin_token: &[u8]) -> (r: Result<
    Vec<VendorWriteStep>,
    PFError,
>)
    ensures
        r is Ok <==> (match (input.vid, input.pid) {
            (Some(v), Some(p)) => crate::hexstr::valid_hex_u16(v@) && crate::hexstr::valid_hex_u16(
                p@,
            ),
            _ => true,
        }),
        r matches Ok(steps) ==> steps_match(steps@, fido_plan_model(*input), pin_token@),
        r matches Err(e) ==> (e matches PFError::Io(msg) && (msg@ == "Invalid VID"@ || msg@
            == "Invalid PID"@)),
{
    let mut steps: Vec<VendorWriteStep> = Vec::new();
    let ghost mut m: Seq<FidoStepModel> = Seq::empty();

    if let (Some(vid_str), Some(pid_str)) = (&input.vid, &input.pid) {
        let vid = match crate::hexstr::parse_hex_u16(vid_str.as_str()) {
            Some(v) => v,
            None => {
                proof {
                    reveal_strlit("Invalid VID");
                }
                return Err(PFError::Io(String::from_str("Invalid VID")));
            },
        };
        let pid = match crate::hexstr::parse_hex_u16(pid_str.as_str()) {
            Some(p) => p,
            None => {
                proof {
                    reveal_strlit("Invalid PID");
                }
                return Err(PFError::Io(String::from_str("Invalid PID")));
            },
        };
        let vidpid: u64 = (vid as u64) * 0x10000 + (pid as u64);
        push_int_step(&mut steps, pin_token, VendorConfigCommand::PhysicalVidPid, vidpid, false);
        proof {
            crate::hexstr::lemma_hex_val_nonneg(vid_str@);
            crate::hexstr::lemma_hex_val_nonneg(pid_str@);
            m = m.push(
                FidoStepModel {
                    cmd: VendorConfigCommand::PhysicalVidPid,
                    value: vidpid,
                    best_effort: false,
                },
            );
            assert(steps_match(steps@, m, pin_token@));
        }
    }
    if let Some(gpio) = input.led_gpio {
        push_int_step(
            &mut steps,
            pin_token,
            VendorConfigCommand::PhysicalLedGpio,
            gpio as u64,
            false,
        );
        proof {
            m = m.push(
                FidoStepModel {
                    cmd: VendorConfigCommand::PhysicalLedGpio,
                    value: gpio as u64,
                    best_effort: false,
                },
            );
            assert(steps_match(steps@, m, pin_token@));
        }
    }
    if let Some(brightness) = input.led_brightness {
        push_int_step(
            &mut steps,
            pin_token,
            VendorConfigCommand::PhysicalLedBrightness,
            brightness as u64,
            false,
        );
        proof {
            m = m.push(
                FidoStepModel {
                    cmd: VendorConfigCommand::PhysicalLedBrightness,
                    value: brightness as u64,
                    best_effort: false,
                },
            );
            assert(steps_match(steps@, m, pin_token@));
        }
    }
    if let Some(timeout) = input.touch_timeout {
        push_int_step(
            &mut steps,
            pin_token,
            VendorConfigCommand::PhysicalOptions,
            timeout as u64,
            true,
        );
        proof {
            m = m.push(
                FidoStepModel {
                    cmd: VendorConfigCommand::PhysicalOptions,
                    value: timeout as u64,
                    best_effort: true,
                },
            );
            assert(steps_match(steps@, m, pin_token@));
        }
    }
    if input.led_dimmable.is_some() || input.power_cycle_on_reset.is_some()
        || input.led_steady.is_some() {
        let mut opts: u64 = 0;
        if let Some(true) = input.led_dimmable {
            opts += 0x02;
        }
        if let Some(false) = input.power_cycle_on_reset {
            opts += 0x04;
        }
        if let Some(true) = input.led_steady {
            opts += 0x08;
        }
        proof {
            assert(opts == fido_opts_bits(*input));
        }
        push_int_step(&mut steps, pin_token, VendorConfigCommand::PhysicalOptions, opts, false);
        proof {
            m = m.push(
                FidoStepModel {
                    cmd: VendorConfigCommand::PhysicalOptions,
                    value: fido_opts_bits(*input),
                    best_effort: false,
                },
            );
            assert(steps_match(steps@, m, pin_token@));
        }
    }
    proof {
        assert(m =~= fido_plan_model(*input));
    }
    Ok(steps)
}

/// Whether a diff plans no FIDO vendor write at all: no identity pair, no
/// LED or timeout field, and none of the option flags.  A write for such a
/// diff is reported as "no changes" without opening a transport.
pub fn fido_diff_is_empty(input: &crate::types::AppConfigInput) -> (r: bool)
    ensures
        r == (fido_plan_model(*input).len() == 0),
{
    let r = !(input.vid.is_some() && input.pid.is_some()) && input.led_gpio.is_none()
        && input.led_brightness.is_none() && input.touch_timeout.is_none()
        && input.led_dimmable.is_none() && input.power_cycle_on_reset.is_none()
        && input.led_steady.is_none();
    proof {
        if r {
            assert(fido_plan_model(*input).len() == 0);
        } else {
            assert(fido_plan_model(*input).len() > 0);
        }
    }
    r
}

/// The message reported when a FIDO write has nothing to send.
pub fn fido_no_changes_message() -> (r: String)
    ensures
        r@ == "No changes to apply"@,
{
    proof {
        reveal_strlit("No changes to apply");
    }
    String::from_str("No changes to apply")
}

/// Gates a FIDO configuration write on a PIN being supplied: without one
/// the write fails before any device I/O.
pub fn require_write_pin(pin: Option<String>) -> (r: Result<String, PFError>)
    ensures
        pin matches Some(p) ==> (r matches Ok(q) && q@ == p@),
        pin is None ==> (r matches Err(e) && e matches PFError::Device(m) && m@
            == "A security PIN is required to be set to change the configuration in fido mode"@),
{
    match pin {
        Some(p) => Ok(p),
        None => {
            proof {
                reveal_strlit(
                    "A security PIN is required to be set to change the configuration in fido mode",
                );
            }
            Err(
                PFError::Device(
                    String::from_str(
                        "A security PIN is required to be set to change the configuration in fido mode",
                    ),
                ),
            )
        },
    }
}

/// The message reported after a successful FIDO configuration write.
pub fn fido_write_success_message() -> (r: String)
    ensures
        r@
            == "Configuration updated successfully! Unplug and re-plug the device to apply VID/PID changes."@,
{
    proof {
        reveal_strlit(
            "Configuration updated successfully! Unplug and re-plug the device to apply VID/PID changes.",
        );
    }
    String::from_str(
        "Configuration updated successfully! Unplug and re-plug the device to apply VID/PID changes.",
    )
}

/// Builds one stored-credential record for display: identifiers are
/// hex-encoded lowercase, names carried through.
pub fn make_stored_credential(
    credential_id: &[u8],
    rp_id: String,
    rp_name: String,
    user_name: String,
    user_display_name: String,
    user_id: &[u8],
) -> (r: crate::types::StoredCredential)
    ensures
        r.credential_id@ == hex_lower_of(credential_id@),
        r.user_id@ == hex_lower_of(user_id@),
        r.rp_id@ == rp_id@,
        r.rp_name@ == rp_name@,
        r.user_name@ == user_name@,
        r.user_display_name@ == user_display_name@,
{
    crate::types::StoredCredential {
        credential_id: hex_encode_lower(credential_id),
        rp_id,
        rp_name,
        user_name,
        user_display_name,
        user_id: hex_encode_lower(user_id),
    }
}

/// Decodes a credential id supplied as hex; rejects anything `hex`
/// decoding rejects, with the message the deletion flow reports.
pub fn decode_credential_id(s: &str) -> (r: Result<Vec<u8>, String>)
    ensures
        r is Ok <==> valid_hex_str(s@),
        r matches Ok(v) ==> v@ == hex_decode_of(s@),
        r matches Err(m) ==> m@ == "Invalid Credential ID Hex string"@,
{
    match hex_decode_bytes(s) {
        Some(v) => Ok(v),
        None => {
            proof {
                reveal_strlit("Invalid Credential ID Hex string");
            }
            Err(String::from_str("Invalid Credential ID Hex string"))
        },
    }
}

/// Assembles the GetInfo summary read through the high-level FIDO
/// library: the AAGUID is hex-encoded uppercase and the firmware version
/// split into "major.minor" by byte shift; the other fields carry through.
pub fn make_fido_device_info(
    versions: Vec<String>,
    extensions: Vec<String>,
    aaguid_bytes: &[u8],
    options: Vec<(String, bool)>,
    max_msg_size: i32,
    pin_protocols: Vec<u32>,
    min_pin_length: u32,
    firmware_version: u32,
) -> (r: crate::types::FidoDeviceInfo)
    ensures
        r.aaguid@ == hex_upper_of(aaguid_bytes@),
        r.firmware_version@ == crate::hexstr::version_string_of(
            ((firmware_version / 256) % 256) as u8,
            (firmware_version % 256) as u8,
        ),
        r.versions == versions,
        r.extensions == extensions,
        r.options == options,
        r.max_msg_size == max_msg_size,
        r.pin_protocols == pin_protocols,
        r.min_pin_length == min_pin_length,
{
    crate::types::FidoDeviceInfo {
        versions,
        extensions,
        aaguid: hex_encode_upper(aaguid_bytes),
        options,
        max_msg_size,
        pin_protocols,
        min_pin_length,
        firmware_version: crate::hexstr::format_version(
            ((firmware_version / 256) % 256) as u8,
            (firmware_version % 256) as u8,
        ),
    }
}


/// The vendor sub-parameter map reads back through the map reader: the
/// 64-bit command id is found under key 1 and an integer parameter under
/// key 3.
#[verifier::rlimit(90)]
pub proof fn lemma_vendor_sub_params_readback(
    doc: Seq<u8>,
    cmd: VendorConfigCommand,
    value: u64,
)
    requires
        doc == vendor_sub_params_spec(cmd, 3, cbor_uint(value)),
    ensures
        crate::cbor::spec_map_lookup_uint(doc, 1) == Some(cmd.to_u64()),
        crate::cbor::spec_map_lookup_uint(doc, 3) == Some(value),
{
    let k1 = cbor_uint(1);
    let id = cbor_uint(cmd.to_u64());
    let k3 = cbor_uint(3);
    let v = cbor_uint(value);
    assert(cbor_map_header(2) == seq![0xA2u8]);
    assert(doc.len() == 1 + 1 + id.len() + 1 + v.len());
    assert(doc[0] == 0xA2);
    assert(crate::cbor::spec_cbor_header(doc, 0) == Some((5u8, 2u64, 1int)));
    let p_id = 2int;
    let p_k3 = p_id + id.len() as int;
    let p_v = p_k3 + 1;
    assert(doc.subrange(1, 2) =~= k1);
    crate::cbor::lemma_cbor_uint_at(doc, 1, 1);
    assert(doc.subrange(p_id, p_k3) =~= id);
    crate::cbor::lemma_cbor_uint_at(doc, p_id, cmd.to_u64());
    assert(doc.subrange(p_k3, p_v) =~= k3);
    crate::cbor::lemma_cbor_uint_at(doc, p_k3, 3);
    assert(doc.subrange(p_v, p_v + v.len() as int) =~= v);
    crate::cbor::lemma_cbor_uint_at(doc, p_v, value);

    assert(crate::cbor::spec_find_uint_key(doc, 1, 2, 1) == Some(p_id));
    assert(crate::cbor::spec_value_uint(doc, p_id) == Some(cmd.to_u64()));
    assert(crate::cbor::spec_find_uint_key(doc, 1, 2, 3) == Some(p_v)) by {
        assert(crate::cbor::spec_skip(doc, 1) == Some(p_id));
        assert(crate::cbor::spec_skip(doc, p_id) == Some(p_k3));
        assert(crate::cbor::spec_find_uint_key(doc, p_k3, 1, 3) == Some(p_v));
    }
    assert(crate::cbor::spec_value_uint(doc, p_v) == Some(value));
}

} // verus!
