//! The TLV codec for the physical-configuration blob.
//!
//! Each record is one tag byte, one length byte and that many value bytes.
//! Unknown tags and truncated records are skipped, never an error.  Encoding
//! writes only the fields present in an [`AppConfigInput`]; decoding folds
//! the records over a default [`AppConfig`].

use vstd::prelude::*;
use vstd::slice::slice_subrange;
use vstd::slice::slice_to_vec;
use vstd::string::*;
use vstd::utf8::encode_utf8;
use vstd::utf8::valid_utf8;

use crate::hexstr::format_hex4;
use crate::hexstr::hex_val_of;
use crate::hexstr::lemma_parse_hex4_roundtrip;
use crate::hexstr::lemma_hex_val_nonneg;
use crate::hexstr::parse_hex_u16;
use crate::hexstr::valid_hex_u16;
use crate::hexstr::hex4_of;
use crate::rescue_consts::PhyTag;
use crate::types::AppConfig;
use crate::types::AppConfigInput;
use crate::types::PFError;

verus! {

/// Spec-level image of a decoded configuration: parsed record values, with
/// the product name still as raw value bytes.
pub struct TlvConfig {
    pub vid_pid: Option<(u16, u16)>,
    pub led_gpio: u8,
    pub led_brightness: u8,
    pub touch_timeout: u8,
    pub name_bytes: Option<Seq<u8>>,
    pub led_dimmable: bool,
    pub power_cycle_on_reset: bool,
    pub led_steady: bool,
    pub enable_secp256k1: bool,
    pub led_driver: Option<u8>,
}

/// The configuration before any record is applied.
pub open spec fn tlv_default() -> TlvConfig {
    TlvConfig {
        vid_pid: None,
        led_gpio: 0,
        led_brightness: 0,
        touch_timeout: 0,
        name_bytes: None,
        led_dimmable: false,
        power_cycle_on_reset: false,
        led_steady: false,
        enable_secp256k1: false,
        led_driver: None,
    }
}

/// The option bitmask encoded in the TAG 0x06 record.
pub open spec fn opts_bits(dimmable: bool, power_cycle: bool, steady: bool) -> u16 {
    ((if dimmable {
        2int
    } else {
        0int
    }) + (if !power_cycle {
        4int
    } else {
        0int
    }) + (if steady {
        8int
    } else {
        0int
    })) as u16
}

/// The effect of one TLV record on the configuration.  Records with an
/// unknown tag or a value too short for their field leave it unchanged.
pub open spec fn apply_record(c: TlvConfig, tag: u8, val: Seq<u8>) -> TlvConfig {
    if tag == PhyTag::VidPid.byte() {
        if val.len() == 4 {
            TlvConfig {
                vid_pid: Some(
                    (
                        (val[0] * 256 + val[1]) as u16,
                        (val[2] * 256 + val[3]) as u16,
                    ),
                ),
                ..c
            }
        } else {
            c
        }
    } else if tag == PhyTag::LedGpio.byte() {
        if val.len() >= 1 {
            TlvConfig { led_gpio: val[0], ..c }
        } else {
            c
        }
    } else if tag == PhyTag::LedBrightness.byte() {
        if val.len() >= 1 {
            TlvConfig { led_brightness: val[0], ..c }
        } else {
            c
        }
    } else if tag == PhyTag::PresenceTimeout.byte() {
        if val.len() >= 1 {
            TlvConfig { touch_timeout: val[0], ..c }
        } else {
            c
        }
    } else if tag == PhyTag::UsbProduct.byte() {
        TlvConfig { name_bytes: Some(val), ..c }
    } else if tag == PhyTag::Opts.byte() {
        if val.len() >= 2 {
            let bits = val[0] * 256 + val[1];
            TlvConfig {
                led_dimmable: (bits / 2) % 2 == 1,
                power_cycle_on_reset: !((bits / 4) % 2 == 1),
                led_steady: (bits / 8) % 2 == 1,
                ..c
            }
        } else {
            c
        }
    } else if tag == PhyTag::Curves.byte() {
        if val.len() >= 4 {
            let curves = val[0] * 0x1000000 + val[1] * 0x10000 + val[2] * 256 + val[3];
            TlvConfig { enable_secp256k1: (curves / 8) % 2 == 1, ..c }
        } else {
            c
        }
    } else if tag == PhyTag::LedDriver.byte() {
        if val.len() >= 1 {
            TlvConfig { led_driver: Some(val[0]), ..c }
        } else {
            c
        }
    } else {
        c
    }
}

/// Folds a TLV stream over a configuration: stops at a truncated header or
/// a truncated value, otherwise applies each record in order.
pub open spec fn decode_tlv_spec(data: Seq<u8>, c: TlvConfig) -> TlvConfig
    decreases data.len(),
{
    if data.len() < 2 {
        c
    } else {
        let l = data[1] as int;
        if data.len() < 2 + l {
            c
        } else {
            decode_tlv_spec(data.skip(2 + l), apply_record(c, data[0], data.subrange(2, 2 + l)))
        }
    }
}

/// Drops leading NUL bytes.
pub open spec fn strip_leading_nuls(b: Seq<u8>) -> Seq<u8>
    decreases b.len(),
{
    if b.len() > 0 && b.first() == 0 {
        strip_leading_nuls(b.drop_first())
    } else {
        b
    }
}

/// Drops trailing NUL bytes.
pub open spec fn strip_trailing_nuls(b: Seq<u8>) -> Seq<u8>
    decreases b.len(),
{
    if b.len() > 0 && b.last() == 0 {
        strip_trailing_nuls(b.drop_last())
    } else {
        b
    }
}

/// Drops NUL bytes from both ends, as the product name field is trimmed.
pub open spec fn strip_nuls(b: Seq<u8>) -> Seq<u8> {
    strip_trailing_nuls(strip_leading_nuls(b))
}

/// How a product-name string relates to the raw bytes of its record: the
/// trimmed bytes decoded as UTF-8, or empty when they are not valid UTF-8.
pub open spec fn name_matches(name: Seq<char>, nb: Option<Seq<u8>>) -> bool {
    match nb {
        None => name == Seq::<char>::empty(),
        Some(b) => {
            let s = strip_nuls(b);
            if valid_utf8(s) {
                encode_utf8(name) == s
            } else {
                name == Seq::<char>::empty()
            }
        },
    }
}

/// How a decoded [`AppConfig`] realises a [`TlvConfig`] image: VID and PID
/// rendered as 4-digit uppercase hex (empty when never seen), scalar fields
/// copied, the product name UTF-8 decoded from its trimmed record bytes.
pub open spec fn config_matches(c: AppConfig, m: TlvConfig) -> bool {
    &&& match m.vid_pid {
        Some((v, p)) => c.vid@ == hex4_of(v) && c.pid@ == hex4_of(p),
        None => c.vid@ == Seq::<char>::empty() && c.pid@ == Seq::<char>::empty(),
    }
    &&& c.led_gpio == m.led_gpio
    &&& c.led_brightness == m.led_brightness
    &&& c.touch_timeout == m.touch_timeout
    &&& name_matches(c.product_name@, m.name_bytes)
    &&& c.led_dimmable == m.led_dimmable
    &&& c.power_cycle_on_reset == m.power_cycle_on_reset
    &&& c.led_steady == m.led_steady
    &&& c.enable_secp256k1 == m.enable_secp256k1
    &&& c.led_driver == m.led_driver
}

/// Relies on std's `String::from_utf8`: succeeds exactly on valid UTF-8
/// input and yields the string whose UTF-8 encoding is that input.
#[verifier::external_body]
fn bytes_to_string(v: &[u8]) -> (r: Option<String>)
    ensures
        r is Some <==> valid_utf8(v@),
        r matches Some(s) ==> encode_utf8(s@) == v@,
{
    String::from_utf8(v.to_vec()).ok()
}

/// Copies a byte slice with NUL bytes trimmed from both ends.
fn strip_nul_bytes(v: &[u8]) -> (r: Vec<u8>)
    ensures
        r@ == strip_nuls(v@),
{
    let mut start: usize = 0;
    let mut end: usize = v.len();
    proof {
        assert(v@.skip(0) =~= v@);
    }
    while start < end && v[start] == 0
        invariant
            0 <= start <= end <= v.len(),
            end == v.len(),
            strip_leading_nuls(v@) == strip_leading_nuls(v@.skip(start as int)),
        decreases end - start,
    {
        proof {
            assert(v@.skip(start as int).first() == v@[start as int]);
            assert(v@.skip(start as int).drop_first() =~= v@.skip(start + 1));
            assert(strip_leading_nuls(v@.skip(start as int)) == strip_leading_nuls(
                v@.skip(start + 1),
            ));
        }
        start += 1;
    }
    proof {
        if start < end {
            assert(v@.skip(start as int).first() == v@[start as int]);
            assert(strip_leading_nuls(v@.skip(start as int)) =~= v@.skip(start as int));
        } else {
            assert(v@.skip(start as int).len() == 0);
            assert(strip_leading_nuls(v@.skip(start as int)) =~= v@.skip(start as int));
        }
    }
    let ghost led = v@.skip(start as int);
    proof {
        assert(led.take(end - start) =~= led);
    }
    while end > start && v[end - 1] == 0
        invariant
            0 <= start <= end <= v.len(),
            led == v@.skip(start as int),
            strip_leading_nuls(v@) == led,
            strip_trailing_nuls(led) == strip_trailing_nuls(led.take(end - start)),
        decreases end - start,
    {
        proof {
            let cur = led.take(end - start);
            assert(cur.last() == v@[end - 1]);
            assert(cur.drop_last() =~= led.take(end - start - 1));
            assert(strip_trailing_nuls(cur) == strip_trailing_nuls(led.take(end - start - 1)));
        }
        end -= 1;
    }
    proof {
        let cur = led.take(end - start);
        if end > start {
            assert(cur.last() == v@[end - 1]);
            assert(strip_trailing_nuls(cur) =~= cur);
        } else {
            assert(cur.len() == 0);
            assert(strip_trailing_nuls(cur) =~= cur);
        }
    }
    let out = slice_subrange(v, start, end);
    proof {
        assert(out@ =~= led.take(end - start));
    }
    slice_to_vec(out)
}

/// Decodes a physical-configuration TLV blob over the default
/// configuration.  Never fails: truncated or unknown records are skipped,
/// exactly as [`decode_tlv_spec`] folds them.
#[verifier::rlimit(60)]
pub fn decode_tlv(data: &[u8]) -> (r: AppConfig)
    ensures
        config_matches(r, decode_tlv_spec(data@, tlv_default())),
{
    let mut config = AppConfig::default();
    let ghost mut m: TlvConfig = tlv_default();
    let mut i: usize = 0;
    proof {
        assert(config_matches(config, m));
        assert(data@.skip(0) =~= data@);
    }
    while i < data.len()
        invariant
            0 <= i <= data@.len(),
            config_matches(config, m),
            decode_tlv_spec(data@, tlv_default()) == decode_tlv_spec(data@.skip(i as int), m),
        decreases data@.len() - i,
    {
        if data.len() - i < 2 {
            proof {
                assert(data@.skip(i as int).len() < 2);
            }
            return config;
        }
        let tag_byte = data[i];
        let len = data[i + 1] as usize;
        if len > data.len() - (i + 2) {
            proof {
                let rem = data@.skip(i as int);
                assert(rem[1] == data@[i + 1]);
                assert(rem.len() < 2 + rem[1] as int);
            }
            return config;
        }
        let val = slice_subrange(data, i + 2, i + 2 + len);
        proof {
            let rem = data@.skip(i as int);
            assert(rem.len() >= 2);
            assert(rem[0] == data@[i as int]);
            assert(rem[1] == data@[i + 1]);
            assert(rem.subrange(2, 2 + len) =~= data@.subrange(i + 2, i + 2 + len));
            assert(rem.skip(2 + len) =~= data@.skip(i + 2 + len));
            assert(val@ =~= rem.subrange(2, 2 + len));
        }
        match PhyTag::from_u8(tag_byte) {
            Some(PhyTag::VidPid) => {
                if val.len() == 4 {
                    let vid: u16 = (val[0] as u16) * 256 + (val[1] as u16);
                    let pid: u16 = (val[2] as u16) * 256 + (val[3] as u16);
                    config.vid = format_hex4(vid);
                    config.pid = format_hex4(pid);
                }
            },
            Some(PhyTag::LedGpio) => {
                if val.len() >= 1 {
                    config.led_gpio = val[0];
                }
            },
            Some(PhyTag::LedBrightness) => {
                if val.len() >= 1 {
                    config.led_brightness = val[0];
                }
            },
            Some(PhyTag::PresenceTimeout) => {
                if val.len() >= 1 {
                    config.touch_timeout = val[0];
                }
            },
            Some(PhyTag::UsbProduct) => {
                let stripped = strip_nul_bytes(val);
                config.product_name = match bytes_to_string(stripped.as_slice()) {
                    Some(s) => s,
                    None => String::new(),
                };
            },
            Some(PhyTag::Opts) => {
                if val.len() >= 2 {
                    let bits: u16 = (val[0] as u16) * 256 + (val[1] as u16);
                    config.led_dimmable = (bits / 2) % 2 == 1;
                    config.power_cycle_on_reset = !((bits / 4) % 2 == 1);
                    config.led_steady = (bits / 8) % 2 == 1;
                }
            },
            Some(PhyTag::Curves) => {
                if val.len() >= 4 {
                    let curves: u32 = (val[0] as u32) * 0x1000000 + (val[1] as u32) * 0x10000
                        + (val[2] as u32) * 256 + (val[3] as u32);
                    config.enable_secp256k1 = (curves / 8) % 2 == 1;
                }
            },
            Some(PhyTag::LedDriver) => {
                if val.len() >= 1 {
                    config.led_driver = Some(val[0]);
                }
            },
            None => {},
        }
        proof {
            m = apply_record(m, tag_byte, val@);
            assert(config_matches(config, m));
        }
        i = i + 2 + len;
    }
    proof {
        assert(data@.skip(i as int).len() == 0);
    }
    config
}


/// Spec-level image of a configuration diff, ready for encoding: parsed
/// option fields, VID/PID still as the hex strings the caller supplied, the
/// product name as its UTF-8 bytes.  `None` means the field is absent from
/// the diff (for the option triple: not all three flags were given).
pub struct TlvInput {
    pub vid_pid: Option<(Seq<char>, Seq<char>)>,
    pub led_gpio: Option<u8>,
    pub led_brightness: Option<u8>,
    pub touch_timeout: Option<u8>,
    pub opts: Option<(bool, bool, bool)>,
    pub enable_secp256k1: Option<bool>,
    pub led_driver: Option<u8>,
    pub name_bytes: Option<Seq<u8>>,
}

/// The encoding image of an [`AppConfigInput`] diff.
pub open spec fn input_model(i: AppConfigInput) -> TlvInput {
    TlvInput {
        vid_pid: match (i.vid, i.pid) {
            (Some(v), Some(p)) => Some((v@, p@)),
            _ => None,
        },
        led_gpio: i.led_gpio,
        led_brightness: i.led_brightness,
        touch_timeout: i.touch_timeout,
        opts: match (i.led_dimmable, i.power_cycle_on_reset, i.led_steady) {
            (Some(d), Some(c), Some(st)) => Some((d, c, st)),
            _ => None,
        },
        enable_secp256k1: i.enable_secp256k1,
        led_driver: i.led_driver,
        name_bytes: match i.product_name {
            Some(n) => if n@.len() > 0 {
                Some(encode_utf8(n@))
            } else {
                None
            },
            None => None,
        },
    }
}

/// The VID/PID record (tag 0x00): two big-endian 16-bit values.
pub open spec fn vid_pid_rec(m: TlvInput) -> Seq<u8> {
    match m.vid_pid {
        Some((vs, ps)) => {
            let v = hex_val_of(vs) as u16;
            let p = hex_val_of(ps) as u16;
            seq![
                PhyTag::VidPid.byte(),
                4u8,
                (v / 256) as u8,
                (v % 256) as u8,
                (p / 256) as u8,
                (p % 256) as u8,
            ]
        },
        None => Seq::empty(),
    }
}

/// A one-byte-value record.
pub open spec fn byte_rec(tag: u8, v: Option<u8>) -> Seq<u8> {
    match v {
        Some(x) => seq![tag, 1u8, x],
        None => Seq::empty(),
    }
}

/// The options record (tag 0x06): a big-endian 16-bit bitmask, present only
/// when all three flags were given.
pub open spec fn opts_rec(m: TlvInput) -> Seq<u8> {
    match m.opts {
        Some((d, c, st)) => {
            let bits = opts_bits(d, c, st);
            seq![PhyTag::Opts.byte(), 2u8, (bits / 256) as u8, (bits % 256) as u8]
        },
        None => Seq::empty(),
    }
}

/// The curves record (tag 0x0A): a big-endian 32-bit bitmask with only the
/// secp256k1 bit in use.
pub open spec fn curves_rec(m: TlvInput) -> Seq<u8> {
    match m.enable_secp256k1 {
        Some(e) => seq![
            PhyTag::Curves.byte(),
            4u8,
            0u8,
            0u8,
            0u8,
            if e {
                8u8
            } else {
                0u8
            },
        ],
        None => Seq::empty(),
    }
}

/// The product-name record (tag 0x09): the UTF-8 bytes plus one trailing
/// NUL; skipped entirely for an empty name.
pub open spec fn name_rec(m: TlvInput) -> Seq<u8> {
    match m.name_bytes {
        Some(nb) => if nb.len() > 0 {
            seq![PhyTag::UsbProduct.byte(), (nb.len() + 1) as u8] + nb + seq![0u8]
        } else {
            Seq::empty()
        },
        None => Seq::empty(),
    }
}

/// The whole encoded diff: present records in the fixed field order.
pub open spec fn encode_model(m: TlvInput) -> Seq<u8> {
    vid_pid_rec(m) + byte_rec(PhyTag::LedGpio.byte(), m.led_gpio) + byte_rec(
        PhyTag::LedBrightness.byte(),
        m.led_brightness,
    ) + byte_rec(PhyTag::PresenceTimeout.byte(), m.touch_timeout) + opts_rec(m) + curves_rec(m)
        + byte_rec(PhyTag::LedDriver.byte(), m.led_driver) + name_rec(m)
}

/// The inputs the encoder accepts: hex-parsable VID/PID when both are
/// given, and a product name of at most 31 bytes.
pub open spec fn tlv_input_valid(m: TlvInput) -> bool {
    &&& match m.vid_pid {
        Some((vs, ps)) => valid_hex_u16(vs) && valid_hex_u16(ps),
        None => true,
    }
    &&& match m.name_bytes {
        Some(nb) => nb.len() > 0 ==> nb.len() + 1 <= 32,
        None => true,
    }
}

/// The message of the first encoding failure, in the order the fields are
/// processed: VID, then PID, then the product name.
pub open spec fn encode_err_msg(m: TlvInput) -> Seq<char> {
    match m.vid_pid {
        Some((vs, ps)) => if !valid_hex_u16(vs) {
            "Invalid VID"@
        } else if !valid_hex_u16(ps) {
            "Invalid PID"@
        } else {
            "Product name too long"@
        },
        None => "Product name too long"@,
    }
}

/// Builds the VID/PID record of a diff, or fails on an unparsable value.
fn encode_vid_pid(input: &AppConfigInput) -> (r: Result<Vec<u8>, PFError>)
    ensures
        r is Ok <==> (match input_model(*input).vid_pid {
            Some((vs, ps)) => valid_hex_u16(vs) && valid_hex_u16(ps),
            None => true,
        }),
        r matches Ok(v) ==> v@ == vid_pid_rec(input_model(*input)),
        r matches Err(e) ==> (e matches PFError::Io(msg) && (match input_model(*input).vid_pid {
            Some((vs, ps)) => if !valid_hex_u16(vs) {
                msg@ == "Invalid VID"@
            } else {
                msg@ == "Invalid PID"@
            },
            None => false,
        })),
{
    let ghost m = input_model(*input);
    let mut tlv: Vec<u8> = Vec::new();
    if let (Some(vid_str), Some(pid_str)) = (&input.vid, &input.pid) {
        let vid = match parse_hex_u16(vid_str.as_str()) {
            Some(v) => v,
            None => {
                return Err(PFError::Io(String::from_str("Invalid VID")));
            },
        };
        let pid = match parse_hex_u16(pid_str.as_str()) {
            Some(p) => p,
            None => {
                return Err(PFError::Io(String::from_str("Invalid PID")));
            },
        };
        proof {
            lemma_hex_val_nonneg(vid_str@);
            lemma_hex_val_nonneg(pid_str@);
        }
        tlv.push(PhyTag::VidPid.byte());
        tlv.push(0x04);
        tlv.push((vid / 256) as u8);
        tlv.push((vid % 256) as u8);
        tlv.push((pid / 256) as u8);
        tlv.push((pid % 256) as u8);
    }
    proof {
        assert(tlv@ =~= vid_pid_rec(m));
    }
    Ok(tlv)
}

/// Builds a one-byte-value record, or nothing for an absent field.
fn encode_byte_rec(tag: u8, v: Option<u8>) -> (r: Vec<u8>)
    ensures
        r@ == byte_rec(tag, v),
{
    let mut tlv: Vec<u8> = Vec::new();
    if let Some(x) = v {
        tlv.push(tag);
        tlv.push(0x01);
        tlv.push(x);
    }
    proof {
        assert(tlv@ =~= byte_rec(tag, v));
    }
    tlv
}

/// Builds the options record when all three flags are present.
fn encode_opts(input: &AppConfigInput) -> (r: Vec<u8>)
    ensures
        r@ == opts_rec(input_model(*input)),
{
    let ghost m = input_model(*input);
    let mut tlv: Vec<u8> = Vec::new();
    if let (Some(dim), Some(cycle), Some(steady)) = (
        input.led_dimmable,
        input.power_cycle_on_reset,
        input.led_steady,
    ) {
        let mut bits: u16 = 0;
        if dim {
            bits += 0x02;
        }
        if !cycle {
            bits += 0x04;
        }
        if steady {
            bits += 0x08;
        }
        proof {
            assert(bits == opts_bits(dim, cycle, steady));
        }
        tlv.push(PhyTag::Opts.byte());
        tlv.push(0x02);
        tlv.push((bits / 256) as u8);
        tlv.push((bits % 256) as u8);
    }
    proof {
        assert(tlv@ =~= opts_rec(m));
    }
    tlv
}

/// Builds the curves record when the secp256k1 switch is present.
fn encode_curves(input: &AppConfigInput) -> (r: Vec<u8>)
    ensures
        r@ == curves_rec(input_model(*input)),
{
    let ghost m = input_model(*input);
    let mut tlv: Vec<u8> = Vec::new();
    if let Some(enabled) = input.enable_secp256k1 {
        let curves: u32 = if enabled {
            0x08
        } else {
            0x00
        };
        tlv.push(PhyTag::Curves.byte());
        tlv.push(0x04);
        tlv.push((curves / 0x1000000) as u8);
        tlv.push(((curves / 0x10000) % 256) as u8);
        tlv.push(((curves / 256) % 256) as u8);
        tlv.push((curves % 256) as u8);
    }
    proof {
        assert(tlv@ =~= curves_rec(m));
    }
    tlv
}

/// Builds the product-name record, or fails when the name (plus its NUL
/// terminator) does not fit the 32-byte field.
fn encode_name(input: &AppConfigInput) -> (r: Result<Vec<u8>, PFError>)
    ensures
        r is Ok <==> (match input_model(*input).name_bytes {
            Some(nb) => nb.len() + 1 <= 32,
            None => true,
        }),
        r matches Ok(v) ==> v@ == name_rec(input_model(*input)),
        r matches Err(e) ==> (e matches PFError::Io(msg) && msg@ == "Product name too long"@),
{
    let ghost m = input_model(*input);
    let mut tlv: Vec<u8> = Vec::new();
    if let Some(name) = &input.product_name {
        if name.as_str().unicode_len() > 0 {
            let name_bytes = name.as_str().as_bytes_vec();
            proof {
                assert(encode_utf8(name@) == vstd::utf8::encode_scalar(name@[0] as u32)
                    + encode_utf8(name@.drop_first()));
                assert(vstd::utf8::encode_scalar(name@[0] as u32).len() >= 1);
                assert(name_bytes@ == encode_utf8(name@));
            }
            if name_bytes.len() > 31 {
                return Err(PFError::Io(String::from_str("Product name too long")));
            }
            tlv.push(PhyTag::UsbProduct.byte());
            tlv.push((name_bytes.len() + 1) as u8);
            let ghost prefix = tlv@;
            let mut k: usize = 0;
            while k < name_bytes.len()
                invariant
                    0 <= k <= name_bytes@.len(),
                    tlv@ == prefix + name_bytes@.take(k as int),
                decreases name_bytes@.len() - k,
            {
                tlv.push(name_bytes[k]);
                proof {
                    assert(prefix + name_bytes@.take(k + 1) =~= (prefix + name_bytes@.take(
                        k as int,
                    )).push(name_bytes@[k as int]));
                }
                k += 1;
            }
            tlv.push(0x00);
            proof {
                assert(name_bytes@.take(name_bytes@.len() as int) =~= name_bytes@);
                assert(tlv@ =~= name_rec(m));
            }
        }
    }
    proof {
        assert(tlv@ =~= name_rec(m));
    }
    Ok(tlv)
}

/// Encodes a configuration diff as the TLV blob written to the device.
/// Fields absent from the diff produce no record; VID and PID are encoded
/// only when both are present.  Fails exactly on a VID or PID that is not
/// 16-bit hex (when both are present) and on a product name longer than 31
/// bytes, in that order of precedence.
pub fn encode_tlv(input: &AppConfigInput) -> (r: Result<Vec<u8>, PFError>)
    ensures
        r is Ok <==> tlv_input_valid(input_model(*input)),
        r matches Ok(v) ==> v@ == encode_model(input_model(*input)),
        r matches Err(e) ==> (e matches PFError::Io(msg) && msg@ == encode_err_msg(
            input_model(*input),
        )),
{
    let ghost m = input_model(*input);
    let mut tlv: Vec<u8> = match encode_vid_pid(input) {
        Ok(v) => v,
        Err(e) => {
            return Err(e);
        },
    };
    let mut r2 = encode_byte_rec(PhyTag::LedGpio.byte(), input.led_gpio);
    tlv.append(&mut r2);
    let mut r3 = encode_byte_rec(PhyTag::LedBrightness.byte(), input.led_brightness);
    tlv.append(&mut r3);
    let mut r4 = encode_byte_rec(PhyTag::PresenceTimeout.byte(), input.touch_timeout);
    tlv.append(&mut r4);
    let mut r5 = encode_opts(input);
    tlv.append(&mut r5);
    let mut r6 = encode_curves(input);
    tlv.append(&mut r6);
    let mut r7 = encode_byte_rec(PhyTag::LedDriver.byte(), input.led_driver);
    tlv.append(&mut r7);
    let mut r8 = match encode_name(input) {
        Ok(v) => v,
        Err(e) => {
            return Err(e);
        },
    };
    tlv.append(&mut r8);
    proof {
        assert(m.led_gpio == input.led_gpio);
        assert(m.led_brightness == input.led_brightness);
        assert(m.touch_timeout == input.touch_timeout);
        assert(m.led_driver == input.led_driver);
        assert(tlv@ == encode_model(m));
    }
    Ok(tlv)
}


/// The all-fields-present diff that re-encoding an [`AppConfig`] produces.
pub fn config_to_input(c: &AppConfig) -> (r: AppConfigInput)
    ensures
        input_model(r) == (TlvInput {
            vid_pid: Some((c.vid@, c.pid@)),
            led_gpio: Some(c.led_gpio),
            led_brightness: Some(c.led_brightness),
            touch_timeout: Some(c.touch_timeout),
            opts: Some((c.led_dimmable, c.power_cycle_on_reset, c.led_steady)),
            enable_secp256k1: Some(c.enable_secp256k1),
            led_driver: c.led_driver,
            name_bytes: if c.product_name@.len() > 0 {
                Some(encode_utf8(c.product_name@))
            } else {
                None
            },
        }),
{
    AppConfigInput {
        vid: Some(c.vid.clone()),
        pid: Some(c.pid.clone()),
        product_name: Some(c.product_name.clone()),
        led_gpio: Some(c.led_gpio),
        led_brightness: Some(c.led_brightness),
        touch_timeout: Some(c.touch_timeout),
        led_driver: c.led_driver,
        led_dimmable: Some(c.led_dimmable),
        power_cycle_on_reset: Some(c.power_cycle_on_reset),
        led_steady: Some(c.led_steady),
        enable_secp256k1: Some(c.enable_secp256k1),
    }
}

/// One well-formed record at the head of a stream is consumed in one
/// decoding step.
proof fn lemma_decode_step(rec: Seq<u8>, rest: Seq<u8>, c: TlvConfig)
    requires
        rec.len() >= 2,
        rec.len() == 2 + rec[1] as int,
    ensures
        decode_tlv_spec(rec + rest, c) == decode_tlv_spec(
            rest,
            apply_record(c, rec[0], rec.subrange(2, rec.len() as int)),
        ),
{
    let d = rec + rest;
    assert(d[0] == rec[0]);
    assert(d[1] == rec[1]);
    assert(d.subrange(2, 2 + rec[1] as int) =~= rec.subrange(2, rec.len() as int));
    assert(d.skip(2 + rec[1] as int) =~= rest);
}

/// Appending the record's NUL terminator to a name with no NUL at either
/// end strips back to the name itself.
proof fn lemma_strip_append_nul(b: Seq<u8>)
    requires
        b.len() > 0,
        b[0] != 0,
        b[b.len() - 1] != 0,
    ensures
        strip_nuls(b + seq![0u8]) == b,
{
    let e = b + seq![0u8];
    assert(e.first() == b[0]);
    assert(strip_leading_nuls(e) == e);
    assert(e.last() == 0);
    assert(e.drop_last() =~= b);
    assert(strip_trailing_nuls(e) == strip_trailing_nuls(b));
    assert(b.last() == b[b.len() - 1]);
    assert(strip_trailing_nuls(b) == b);
}

/// A diff with every field present, as comparing a full desired state
/// against a full current state produces.
pub open spec fn tlv_input_full(m: TlvInput) -> bool {
    &&& m.vid_pid is Some
    &&& m.led_gpio is Some
    &&& m.led_brightness is Some
    &&& m.touch_timeout is Some
    &&& m.opts is Some
    &&& m.enable_secp256k1 is Some
}

/// A product name the record format represents faithfully: valid UTF-8
/// with no NUL byte at either end (or no name at all).
pub open spec fn tlv_name_normal(m: TlvInput) -> bool {
    match m.name_bytes {
        Some(nb) => nb.len() > 0 && nb[0] != 0 && nb[nb.len() - 1] != 0 && valid_utf8(nb),
        None => true,
    }
}

/// The full diff that re-encoding a decoded configuration produces: every
/// field present, VID/PID rendered as 4-digit hex, the name as its trimmed
/// decoded bytes.
pub open spec fn reencode_input(d: TlvConfig) -> TlvInput {
    TlvInput {
        vid_pid: match d.vid_pid {
            Some((v, p)) => Some((hex4_of(v), hex4_of(p))),
            None => Some((Seq::empty(), Seq::empty())),
        },
        led_gpio: Some(d.led_gpio),
        led_brightness: Some(d.led_brightness),
        touch_timeout: Some(d.touch_timeout),
        opts: Some((d.led_dimmable, d.power_cycle_on_reset, d.led_steady)),
        enable_secp256k1: Some(d.enable_secp256k1),
        led_driver: d.led_driver,
        name_bytes: match d.name_bytes {
            Some(b) => if valid_utf8(strip_nuls(b)) && strip_nuls(b).len() > 0 {
                Some(strip_nuls(b))
            } else {
                None
            },
            None => None,
        },
    }
}

/// TLV round trip: for every full, valid diff, decoding its encoding and
/// re-encoding the decoded configuration reproduces the encoded bytes, so
/// re-encoding is idempotent.
#[verifier::rlimit(90)]
pub proof fn lemma_tlv_reencode_idempotent(m: TlvInput)
    requires
        tlv_input_valid(m),
        tlv_input_full(m),
        tlv_name_normal(m),
    ensures
        encode_model(reencode_input(decode_tlv_spec(encode_model(m), tlv_default()))) == encode_model(m),
{
    let (vs, ps) = m.vid_pid.unwrap();
    let v = hex_val_of(vs) as u16;
    let p = hex_val_of(ps) as u16;
    let (dim, cyc, st) = m.opts.unwrap();
    let en = m.enable_secp256k1.unwrap();
    let r1 = vid_pid_rec(m);
    let r2 = byte_rec(PhyTag::LedGpio.byte(), m.led_gpio);
    let r3 = byte_rec(PhyTag::LedBrightness.byte(), m.led_brightness);
    let r4 = byte_rec(PhyTag::PresenceTimeout.byte(), m.touch_timeout);
    let r5 = opts_rec(m);
    let r6 = curves_rec(m);
    let r7 = byte_rec(PhyTag::LedDriver.byte(), m.led_driver);
    let r8 = name_rec(m);
    let t8 = r8;
    let t7 = r7 + t8;
    let t6 = r6 + t7;
    let t5 = r5 + t6;
    let t4 = r4 + t5;
    let t3 = r3 + t4;
    let t2 = r2 + t3;
    let t1 = r1 + t2;
    assert(encode_model(m) =~= t1);

    let c0 = tlv_default();
    lemma_decode_step(r1, t2, c0);
    let c1 = apply_record(c0, r1[0], r1.subrange(2, 6));
    assert(r1.subrange(2, 6) =~= seq![
        (v / 256) as u8,
        (v % 256) as u8,
        (p / 256) as u8,
        (p % 256) as u8,
    ]);
    assert((((v / 256) as u8) * 256 + ((v % 256) as u8)) as u16 == v);
    assert((((p / 256) as u8) * 256 + ((p % 256) as u8)) as u16 == p);
    assert(c1 == TlvConfig { vid_pid: Some((v, p)), ..c0 });

    lemma_decode_step(r2, t3, c1);
    let c2 = apply_record(c1, r2[0], r2.subrange(2, 3));
    assert(r2.subrange(2, 3) =~= seq![m.led_gpio.unwrap()]);
    assert(c2 == TlvConfig { led_gpio: m.led_gpio.unwrap(), ..c1 });

    lemma_decode_step(r3, t4, c2);
    let c3 = apply_record(c2, r3[0], r3.subrange(2, 3));
    assert(r3.subrange(2, 3) =~= seq![m.led_brightness.unwrap()]);
    assert(c3 == TlvConfig { led_brightness: m.led_brightness.unwrap(), ..c2 });

    lemma_decode_step(r4, t5, c3);
    let c4 = apply_record(c3, r4[0], r4.subrange(2, 3));
    assert(r4.subrange(2, 3) =~= seq![m.touch_timeout.unwrap()]);
    assert(c4 == TlvConfig { touch_timeout: m.touch_timeout.unwrap(), ..c3 });

    let bits = opts_bits(dim, cyc, st);
    lemma_decode_step(r5, t6, c4);
    let c5 = apply_record(c4, r5[0], r5.subrange(2, 4));
    assert(r5.subrange(2, 4) =~= seq![(bits / 256) as u8, (bits % 256) as u8]);
    assert(((bits / 256) as u8) * 256 + ((bits % 256) as u8) == bits);
    assert((bits / 2) % 2 == 1 <==> dim);
    assert((bits / 4) % 2 == 1 <==> !cyc);
    assert((bits / 8) % 2 == 1 <==> st);
    assert(c5 == TlvConfig {
        led_dimmable: dim,
        power_cycle_on_reset: cyc,
        led_steady: st,
        ..c4
    });

    lemma_decode_step(r6, t7, c5);
    let c6 = apply_record(c5, r6[0], r6.subrange(2, 6));
    let e8: u8 = if en {
        8u8
    } else {
        0u8
    };
    assert(r6.subrange(2, 6) =~= seq![0u8, 0u8, 0u8, e8]);
    assert(((0u8 * 0x1000000 + 0u8 * 0x10000 + 0u8 * 256 + e8) / 8) % 2 == 1 <==> en);
    assert(c6 == TlvConfig { enable_secp256k1: en, ..c5 });

    let c7: TlvConfig = if m.led_driver is Some {
        lemma_decode_step(r7, t8, c6);
        let c7x = apply_record(c6, r7[0], r7.subrange(2, 3));
        assert(r7.subrange(2, 3) =~= seq![m.led_driver.unwrap()]);
        assert(c7x == TlvConfig { led_driver: m.led_driver, ..c6 });
        c7x
    } else {
        assert(r7 =~= Seq::<u8>::empty());
        assert(t7 =~= t8);
        c6
    };
    assert(decode_tlv_spec(t7, c6) == decode_tlv_spec(t8, c7));
    assert(c7.led_driver == m.led_driver);

    let dfin: TlvConfig = if m.name_bytes is Some {
        let nb = m.name_bytes.unwrap();
        assert(r8.len() == 2 + nb.len() + 1);
        assert(r8[1] == (nb.len() + 1) as u8);
        assert(nb.len() + 1 <= 32);
        assert(t8 =~= r8 + Seq::<u8>::empty());
        lemma_decode_step(r8, Seq::empty(), c7);
        let c8 = apply_record(c7, r8[0], r8.subrange(2, r8.len() as int));
        assert(r8.subrange(2, r8.len() as int) =~= nb + seq![0u8]);
        assert(c8 == TlvConfig { name_bytes: Some(nb + seq![0u8]), ..c7 });
        assert(decode_tlv_spec(Seq::<u8>::empty(), c8) == c8);
        c8
    } else {
        assert(r8 =~= Seq::<u8>::empty());
        assert(decode_tlv_spec(t8, c7) == c7);
        c7
    };
    assert(decode_tlv_spec(encode_model(m), tlv_default()) == dfin);

    let m2 = reencode_input(dfin);
    assert(m2.led_gpio == m.led_gpio);
    assert(m2.led_brightness == m.led_brightness);
    assert(m2.touch_timeout == m.touch_timeout);
    assert(m2.opts == m.opts);
    assert(m2.enable_secp256k1 == m.enable_secp256k1);
    assert(m2.led_driver == m.led_driver);
    if m.name_bytes is Some {
        let nb = m.name_bytes.unwrap();
        lemma_strip_append_nul(nb);
        assert(m2.name_bytes == Some(nb));
    } else {
        assert(m2.name_bytes is None);
    }
    assert(m2.vid_pid == Some((hex4_of(v), hex4_of(p))));

    lemma_parse_hex4_roundtrip(v);
    lemma_parse_hex4_roundtrip(p);
    lemma_hex_val_nonneg(vs);
    lemma_hex_val_nonneg(ps);
    assert(hex_val_of(hex4_of(v)) as u16 == v);
    assert(hex_val_of(hex4_of(p)) as u16 == p);
    assert(vid_pid_rec(m2) == vid_pid_rec(m));
    assert(byte_rec(PhyTag::LedGpio.byte(), m2.led_gpio) == r2);
    assert(byte_rec(PhyTag::LedBrightness.byte(), m2.led_brightness) == r3);
    assert(byte_rec(PhyTag::PresenceTimeout.byte(), m2.touch_timeout) == r4);
    assert(opts_rec(m2) == r5);
    assert(curves_rec(m2) == r6);
    assert(byte_rec(PhyTag::LedDriver.byte(), m2.led_driver) == r7);
    assert(name_rec(m2) == r8);
    assert(encode_model(m2) == encode_model(m));
}


/// Builds the diff between a desired configuration and the current one:
/// each field is populated exactly when it differs, so an unchanged
/// desired state yields the all-`None` diff and a write planned from it
/// touches no wire.
pub fn build_config_diff(current: &AppConfig, desired: &AppConfig) -> (r: AppConfigInput)
    ensures
        (match r.vid {
            Some(s) => s@ == desired.vid@ && desired.vid@ != current.vid@,
            None => desired.vid@ == current.vid@,
        }),
        (match r.pid {
            Some(s) => s@ == desired.pid@ && desired.pid@ != current.pid@,
            None => desired.pid@ == current.pid@,
        }),
        (match r.product_name {
            Some(s) => s@ == desired.product_name@ && desired.product_name@
                != current.product_name@,
            None => desired.product_name@ == current.product_name@,
        }),
        r.led_gpio == (if desired.led_gpio != current.led_gpio {
            Some(desired.led_gpio)
        } else {
            None
        }),
        r.led_brightness == (if desired.led_brightness != current.led_brightness {
            Some(desired.led_brightness)
        } else {
            None
        }),
        r.touch_timeout == (if desired.touch_timeout != current.touch_timeout {
            Some(desired.touch_timeout)
        } else {
            None
        }),
        r.led_driver == (if desired.led_driver != current.led_driver {
            desired.led_driver
        } else {
            None
        }),
        r.led_dimmable == (if desired.led_dimmable != current.led_dimmable {
            Some(desired.led_dimmable)
        } else {
            None
        }),
        r.power_cycle_on_reset == (if desired.power_cycle_on_reset
            != current.power_cycle_on_reset {
            Some(desired.power_cycle_on_reset)
        } else {
            None
        }),
        r.led_steady == (if desired.led_steady != current.led_steady {
            Some(desired.led_steady)
        } else {
            None
        }),
        r.enable_secp256k1 == (if desired.enable_secp256k1 != current.enable_secp256k1 {
            Some(desired.enable_secp256k1)
        } else {
            None
        }),
{
    let vid = if !desired.vid.eq(&current.vid) {
        Some(desired.vid.clone())
    } else {
        None
    };
    let pid = if !desired.pid.eq(&current.pid) {
        Some(desired.pid.clone())
    } else {
        None
    };
    let product_name = if !desired.product_name.eq(&current.product_name) {
        Some(desired.product_name.clone())
    } else {
        None
    };
    let led_driver: Option<u8> = match (desired.led_driver, current.led_driver) {
        (Some(d), Some(c)) => if d != c {
            Some(d)
        } else {
            None
        },
        (Some(d), None) => Some(d),
        (None, Some(_)) => None,
        (None, None) => None,
    };
    AppConfigInput {
        vid,
        pid,
        product_name,
        led_gpio: if desired.led_gpio != current.led_gpio {
            Some(desired.led_gpio)
        } else {
            None
        },
        led_brightness: if desired.led_brightness != current.led_brightness {
            Some(desired.led_brightness)
        } else {
            None
        },
        touch_timeout: if desired.touch_timeout != current.touch_timeout {
            Some(desired.touch_timeout)
        } else {
            None
        },
        led_driver,
        led_dimmable: if desired.led_dimmable != current.led_dimmable {
            Some(desired.led_dimmable)
        } else {
            None
        },
        power_cycle_on_reset: if desired.power_cycle_on_reset != current.power_cycle_on_reset {
            Some(desired.power_cycle_on_reset)
        } else {
            None
        },
        led_steady: if desired.led_steady != current.led_steady {
            Some(desired.led_steady)
        } else {
            None
        },
        enable_secp256k1: if desired.enable_secp256k1 != current.enable_secp256k1 {
            Some(desired.enable_secp256k1)
        } else {
            None
        },
    }
}

/// Diff suppression: a diff with no field present encodes to the empty
/// blob and is always valid, so planning a write from it reports "no
/// changes" without any device I/O.
pub proof fn lemma_empty_diff_encodes_nothing(i: AppConfigInput)
    requires
        i.vid is None || i.pid is None,
        i.product_name is None,
        i.led_gpio is None,
        i.led_brightness is None,
        i.touch_timeout is None,
        i.led_driver is None,
        i.led_dimmable is None || i.power_cycle_on_reset is None || i.led_steady is None,
        i.enable_secp256k1 is None,
    ensures
        encode_model(input_model(i)).len() == 0,
        tlv_input_valid(input_model(i)),
{
}

} // verus!
