//! Hex and decimal text helpers: rendering byte strings as hex, parsing
//! 4-hex-digit VID/PID strings, and the small decimal formatting the device
//! status strings need.

use vstd::prelude::*;

verus! {

/// The uppercase hex digit for a value below 16.
pub open spec fn hex_digit_upper(d: u8) -> char
    recommends
        d < 16,
{
    if d == 0 {
        '0'
    } else if d == 1 {
        '1'
    } else if d == 2 {
        '2'
    } else if d == 3 {
        '3'
    } else if d == 4 {
        '4'
    } else if d == 5 {
        '5'
    } else if d == 6 {
        '6'
    } else if d == 7 {
        '7'
    } else if d == 8 {
        '8'
    } else if d == 9 {
        '9'
    } else if d == 10 {
        'A'
    } else if d == 11 {
        'B'
    } else if d == 12 {
        'C'
    } else if d == 13 {
        'D'
    } else if d == 14 {
        'E'
    } else {
        'F'
    }
}

/// The lowercase hex digit for a value below 16.
pub open spec fn hex_digit_lower(d: u8) -> char
    recommends
        d < 16,
{
    if d == 10 {
        'a'
    } else if d == 11 {
        'b'
    } else if d == 12 {
        'c'
    } else if d == 13 {
        'd'
    } else if d == 14 {
        'e'
    } else if d == 15 {
        'f'
    } else {
        hex_digit_upper(d)
    }
}

/// Uppercase hex rendering of a byte string: two digits per byte.
pub open spec fn hex_upper_of(b: Seq<u8>) -> Seq<char> {
    Seq::new(
        b.len() * 2,
        |i: int|
            if i % 2 == 0 {
                hex_digit_upper(b[i / 2] / 16)
            } else {
                hex_digit_upper(b[i / 2] % 16)
            },
    )
}

/// Lowercase hex rendering of a byte string: two digits per byte.
pub open spec fn hex_lower_of(b: Seq<u8>) -> Seq<char> {
    Seq::new(
        b.len() * 2,
        |i: int|
            if i % 2 == 0 {
                hex_digit_lower(b[i / 2] / 16)
            } else {
                hex_digit_lower(b[i / 2] % 16)
            },
    )
}

/// Whether a character code denotes a hex digit (either case).
pub open spec fn is_hex_code(v: int) -> bool {
    (0x30 <= v && v <= 0x39) || (0x41 <= v && v <= 0x46) || (0x61 <= v && v <= 0x66)
}

/// Whether a character is a hex digit (either case).
pub open spec fn is_hex_char(c: char) -> bool {
    is_hex_code(c as int)
}

/// The numeric value of a hex digit character code.
pub open spec fn hex_code_val(v: int) -> int
    recommends
        is_hex_code(v),
{
    if 0x30 <= v && v <= 0x39 {
        v - 0x30
    } else if 0x41 <= v && v <= 0x46 {
        v - 0x41 + 10
    } else {
        v - 0x61 + 10
    }
}

/// The numeric value of a hex digit character.
pub open spec fn hex_char_val(c: char) -> int {
    hex_code_val(c as int)
}

/// A string that `hex` decoding accepts: even length, hex digits only.
pub open spec fn valid_hex_str(s: Seq<char>) -> bool {
    s.len() % 2 == 0 && (forall|i: int| 0 <= i < s.len() ==> is_hex_char(#[trigger] s[i]))
}

/// The bytes denoted by an even-length hex digit string.
pub open spec fn hex_decode_of(s: Seq<char>) -> Seq<u8> {
    Seq::new(
        s.len() / 2,
        |i: int| (hex_char_val(s[2 * i]) * 16 + hex_char_val(s[2 * i + 1])) as u8,
    )
}

/// Relies on `hex::encode_upper`: each byte becomes exactly two uppercase
/// hex digits, most significant nibble first.
#[verifier::external_body]
pub(crate) fn hex_encode_upper(b: &[u8]) -> (r: String)
    ensures
        r@ == hex_upper_of(b@),
        r.is_ascii(),
{
    hex::encode_upper(b)
}

/// Relies on `hex::encode`: each byte becomes exactly two lowercase hex
/// digits, most significant nibble first.
#[verifier::external_body]
pub(crate) fn hex_encode_lower(b: &[u8]) -> (r: String)
    ensures
        r@ == hex_lower_of(b@),
        r.is_ascii(),
{
    hex::encode(b)
}

/// Relies on `hex::decode`: succeeds exactly on even-length strings of hex
/// digits (either case), pairing digits into bytes.
#[verifier::external_body]
pub(crate) fn hex_decode_bytes(s: &str) -> (r: Option<Vec<u8>>)
    ensures
        r is Some <==> valid_hex_str(s@),
        r matches Some(v) ==> v@ == hex_decode_of(s@),
{
    hex::decode(s).ok()
}

/// The value of a hex digit string read most significant digit first.
pub open spec fn hex_val_of(s: Seq<char>) -> int
    decreases s.len(),
{
    if s.len() == 0 {
        0
    } else {
        hex_val_of(s.drop_last()) * 16 + hex_char_val(s.last())
    }
}

/// A string accepted as a 16-bit hex number: non-empty, hex digits only,
/// value at most `0xFFFF`.
pub open spec fn valid_hex_u16(s: Seq<char>) -> bool {
    s.len() >= 1 && (forall|i: int| 0 <= i < s.len() ==> is_hex_char(#[trigger] s[i]))
        && hex_val_of(s) <= 0xFFFF
}

/// The value of an all-hex-digit string is never negative.
pub proof fn lemma_hex_val_nonneg(s: Seq<char>)
    requires
        forall|i: int| 0 <= i < s.len() ==> is_hex_char(#[trigger] s[i]),
    ensures
        hex_val_of(s) >= 0,
    decreases s.len(),
{
    if s.len() > 0 {
        lemma_hex_val_nonneg(s.drop_last());
    }
}

proof fn lemma_hex_val_prefix_le(s: Seq<char>, j: int)
    requires
        forall|i: int| 0 <= i < s.len() ==> is_hex_char(#[trigger] s[i]),
        0 <= j <= s.len(),
    ensures
        hex_val_of(s.take(j)) <= hex_val_of(s),
    decreases s.len() - j,
{
    if j == s.len() {
        assert(s.take(j) =~= s);
    } else {
        lemma_hex_val_prefix_le(s, j + 1);
        let t = s.take(j + 1);
        assert(t.drop_last() =~= s.take(j));
        lemma_hex_val_nonneg(s.take(j));
        assert(hex_val_of(t) == hex_val_of(s.take(j)) * 16 + hex_char_val(t.last()));
        assert(hex_char_val(t.last()) >= 0);
        assert(hex_val_of(s.take(j)) <= hex_val_of(s.take(j)) * 16 + hex_char_val(t.last()));
    }
}

/// Parses a hex digit string as a 16-bit number, most significant digit
/// first.  Accepts exactly the strings of [`valid_hex_u16`]: at least one
/// digit, every character a hex digit, value within `u16`.
pub fn parse_hex_u16(s: &str) -> (r: Option<u16>)
    ensures
        r is Some <==> valid_hex_u16(s@),
        r matches Some(v) ==> v as int == hex_val_of(s@),
{
    if !s.is_ascii() {
        proof {
            let i = choose|i: int| 0 <= i < s@.len() && !('\0' <= #[trigger] s@[i] <= '\u{7f}');
            assert(!is_hex_char(s@[i]));
        }
        return None;
    }
    let len = s.unicode_len();
    if len == 0 {
        return None;
    }
    let mut acc: u32 = 0;
    let mut i: usize = 0;
    while i < len
        invariant
            s.is_ascii(),
            len == s@.len(),
            0 <= i <= len,
            forall|j: int| 0 <= j < i ==> is_hex_char(#[trigger] s@[j]),
            acc as int == hex_val_of(s@.take(i as int)),
            acc <= 0xFFFF,
        decreases len - i,
    {
        let b = s.get_ascii(i);
        proof {
            assert('\0' <= s@[i as int] <= '\u{7f}');
            assert(b as int == s@[i as int] as int);
        }
        let d: u8 = if 0x30 <= b && b <= 0x39 {
            b - 0x30
        } else if 0x41 <= b && b <= 0x46 {
            b - 0x41 + 10
        } else if 0x61 <= b && b <= 0x66 {
            b - 0x61 + 10
        } else {
            proof {
                assert(!is_hex_char(s@[i as int]));
            }
            return None;
        };
        let next: u32 = acc * 16 + d as u32;
        proof {
            assert(s@.take(i + 1).drop_last() =~= s@.take(i as int));
            assert(s@.take(i + 1).last() == s@[i as int]);
            assert(next as int == hex_val_of(s@.take(i + 1)));
        }
        if next > 0xFFFF {
            proof {
                if forall|k: int| 0 <= k < s@.len() ==> is_hex_char(#[trigger] s@[k]) {
                    lemma_hex_val_prefix_le(s@, i + 1);
                    assert(s@.take(s@.len() as int) =~= s@);
                }
            }
            return None;
        }
        acc = next;
        i += 1;
    }
    proof {
        assert(s@.take(len as int) =~= s@);
    }
    Some(acc as u16)
}

/// The 4-character uppercase hex rendering of a 16-bit value.
pub open spec fn hex4_of(v: u16) -> Seq<char> {
    hex_upper_of(seq![(v / 256) as u8, (v % 256) as u8])
}

/// Renders a 16-bit value as 4 uppercase hex digits, as VID/PID fields are
/// always displayed.
pub fn format_hex4(v: u16) -> (r: String)
    ensures
        r@ == hex4_of(v),
        r@.len() == 4,
{
    let hi: u8 = (v >> 8) as u8;
    let lo: u8 = (v & 0xFF) as u8;
    proof {
        assert(v >> 8 == v / 256) by (bit_vector);
        assert(v & 0xFF == v % 256) by (bit_vector);
        assert(v / 256 < 256);
    }
    let mut b: Vec<u8> = Vec::new();
    b.push(hi);
    b.push(lo);
    let r = hex_encode_upper(b.as_slice());
    proof {
        assert(b@ =~= seq![(v / 256) as u8, (v % 256) as u8]);
    }
    r
}

/// Round trip: parsing the 4-digit uppercase rendering of a 16-bit value
/// yields the value back, and the rendering is always accepted.
pub proof fn lemma_parse_hex4_roundtrip(v: u16)
    ensures
        valid_hex_u16(hex4_of(v)),
        hex_val_of(hex4_of(v)) == v as int,
{
    let s = hex4_of(v);
    let hi = (v / 256) as u8;
    let lo = (v % 256) as u8;
    assert(s.len() == 4);
    assert forall|i: int| 0 <= i < s.len() implies is_hex_char(#[trigger] s[i]) by {
        let d: u8 = if i == 0 {
            hi / 16
        } else if i == 1 {
            hi % 16
        } else if i == 2 {
            lo / 16
        } else {
            lo % 16
        };
        assert(d < 16);
        assert(is_hex_char(hex_digit_upper(d)));
    }
    assert(hex_char_val(hex_digit_upper(hi / 16)) == (hi / 16) as int);
    assert(hex_char_val(hex_digit_upper(hi % 16)) == (hi % 16) as int);
    assert(hex_char_val(hex_digit_upper(lo / 16)) == (lo / 16) as int);
    assert(hex_char_val(hex_digit_upper(lo % 16)) == (lo % 16) as int);
    assert(s[0] == hex_digit_upper(hi / 16));
    assert(s[1] == hex_digit_upper(hi % 16));
    assert(s[2] == hex_digit_upper(lo / 16));
    assert(s[3] == hex_digit_upper(lo % 16));
    assert(s.drop_last() =~= s.take(3));
    assert(s.take(3).drop_last() =~= s.take(2));
    assert(s.take(2).drop_last() =~= s.take(1));
    assert(s.take(1).drop_last() =~= s.take(0));
    assert(s.take(0) =~= Seq::<char>::empty());
    assert(hex_val_of(s.take(0)) == 0);
    assert(s.take(1).last() == s[0]);
    assert(s.take(2).last() == s[1]);
    assert(s.take(3).last() == s[2]);
    assert(s.last() == s[3]);
    assert(hex_val_of(s.take(1)) == (hi / 16) as int);
    assert(hex_val_of(s.take(2)) == (hi / 16) * 16 + (hi % 16));
    assert((hi / 16) * 16 + (hi % 16) == hi as int);
    assert(hex_val_of(s.take(2)) == hi as int);
    assert(hex_val_of(s.take(3)) == hi as int * 16 + (lo / 16));
    assert(hex_val_of(s) == (hi as int * 16 + (lo / 16)) * 16 + (lo % 16));
    assert((lo / 16) * 16 + (lo % 16) == lo as int);
    assert(hex_val_of(s) == hi as int * 256 + lo as int);
    assert(hi as int * 256 + lo as int == v as int);
}

/// The decimal rendering of a byte value, without leading zeros.
pub open spec fn dec_of_u8(n: u8) -> Seq<char> {
    if n < 10 {
        seq![hex_digit_upper(n)]
    } else if n < 100 {
        seq![hex_digit_upper(n / 10), hex_digit_upper(n % 10)]
    } else {
        seq![hex_digit_upper(n / 100), hex_digit_upper((n / 10) % 10), hex_digit_upper(n % 10)]
    }
}

/// The one-character string for a single digit value.
fn digit_str(d: u8) -> (r: &'static str)
    requires
        d < 16,
    ensures
        r@ == seq![hex_digit_upper(d)],
        r@.len() == 1,
{
    proof {
        reveal_strlit("0");
        reveal_strlit("1");
        reveal_strlit("2");
        reveal_strlit("3");
        reveal_strlit("4");
        reveal_strlit("5");
        reveal_strlit("6");
        reveal_strlit("7");
        reveal_strlit("8");
        reveal_strlit("9");
        reveal_strlit("A");
        reveal_strlit("B");
        reveal_strlit("C");
        reveal_strlit("D");
        reveal_strlit("E");
        reveal_strlit("F");
    }
    let r: &'static str = if d == 0 {
        "0"
    } else if d == 1 {
        "1"
    } else if d == 2 {
        "2"
    } else if d == 3 {
        "3"
    } else if d == 4 {
        "4"
    } else if d == 5 {
        "5"
    } else if d == 6 {
        "6"
    } else if d == 7 {
        "7"
    } else if d == 8 {
        "8"
    } else if d == 9 {
        "9"
    } else if d == 10 {
        "A"
    } else if d == 11 {
        "B"
    } else if d == 12 {
        "C"
    } else if d == 13 {
        "D"
    } else if d == 14 {
        "E"
    } else {
        "F"
    };
    proof {
        assert(r@ =~= seq![hex_digit_upper(d)]);
    }
    r
}

/// Renders a byte value in decimal without leading zeros.
pub fn format_u8_dec(n: u8) -> (r: String)
    ensures
        r@ == dec_of_u8(n),
{
    let mut s = String::new();
    if n >= 100 {
        s.append(digit_str(n / 100));
    }
    if n >= 10 {
        s.append(digit_str((n / 10) % 10));
    }
    s.append(digit_str(n % 10));
    proof {
        if n < 10 {
            assert(s@ =~= dec_of_u8(n));
        } else if n < 100 {
            assert(n / 10 < 10);
            assert((n / 10) % 10 == n / 10);
            assert(s@ =~= dec_of_u8(n));
        } else {
            assert(n / 100 < 10);
            assert(s@ =~= dec_of_u8(n));
        }
    }
    s
}

/// The "major.minor" rendering of a two-byte firmware version.
pub open spec fn version_string_of(major: u8, minor: u8) -> Seq<char> {
    dec_of_u8(major) + seq!['.'] + dec_of_u8(minor)
}

/// Renders a firmware version as "major.minor" in decimal.
pub fn format_version(major: u8, minor: u8) -> (r: String)
    ensures
        r@ == version_string_of(major, minor),
{
    let mut s = format_u8_dec(major);
    proof {
        reveal_strlit(".");
    }
    s.append(".");
    let minor_s = format_u8_dec(minor);
    s.append(minor_s.as_str());
    proof {
        assert("."@ =~= seq!['.']);
        assert(s@ =~= version_string_of(major, minor));
    }
    s
}

} // verus!
