//! Canonical CBOR for the CTAP2 command bodies.
//!
//! Encoding always uses the shortest argument form, and the fixed command
//! maps are emitted with their keys in ascending numeric order — the
//! firmware's parser rejects any other order.  Decoding is a skimming
//! reader for the integer- and text-keyed maps the responses carry: it
//! walks the top-level map, skips values it does not need, and extracts
//! unsigned integers and byte strings.

use vstd::prelude::*;
use vstd::string::StrSliceExecFns;
use vstd::utf8::encode_utf8;

verus! {

/// The canonical (shortest-form) CBOR head for a major type and argument.
pub open spec fn cbor_arg(major: u8, n: u64) -> Seq<u8>
    recommends
        major < 8,
{
    let mb = (major * 32) as u8;
    if n < 24 {
        seq![(mb + n) as u8]
    } else if n <= 0xFF {
        seq![(mb + 24) as u8, n as u8]
    } else if n <= 0xFFFF {
        seq![(mb + 25) as u8, (n / 256) as u8, (n % 256) as u8]
    } else if n <= 0xFFFF_FFFF {
        seq![
            (mb + 26) as u8,
            (n / 0x1000000) as u8,
            ((n / 0x10000) % 256) as u8,
            ((n / 256) % 256) as u8,
            (n % 256) as u8,
        ]
    } else {
        seq![
            (mb + 27) as u8,
            (n / 0x100000000000000) as u8,
            ((n / 0x1000000000000) % 256) as u8,
            ((n / 0x10000000000) % 256) as u8,
            ((n / 0x100000000) % 256) as u8,
            ((n / 0x1000000) % 256) as u8,
            ((n / 0x10000) % 256) as u8,
            ((n / 256) % 256) as u8,
            (n % 256) as u8,
        ]
    }
}

/// A canonical unsigned integer.
pub open spec fn cbor_uint(n: u64) -> Seq<u8> {
    cbor_arg(0, n)
}

/// A canonical byte string.
pub open spec fn cbor_bytes(b: Seq<u8>) -> Seq<u8>
    recommends
        b.len() <= 0xFFFF_FFFF_FFFF_FFFF,
{
    cbor_arg(2, b.len() as u64) + b
}

/// A canonical text string given its UTF-8 bytes.
pub open spec fn cbor_text_bytes(b: Seq<u8>) -> Seq<u8>
    recommends
        b.len() <= 0xFFFF_FFFF_FFFF_FFFF,
{
    cbor_arg(3, b.len() as u64) + b
}

/// A canonical map head for an entry count.
pub open spec fn cbor_map_header(n: u64) -> Seq<u8> {
    cbor_arg(5, n)
}

/// Appends the canonical head for a major type and argument.
pub fn push_cbor_arg(out: &mut Vec<u8>, major: u8, n: u64)
    requires
        major < 8,
    ensures
        final(out)@ == old(out)@ + cbor_arg(major, n),
{
    let mb: u8 = major * 32;
    if n < 24 {
        out.push(mb + (n as u8));
    } else if n <= 0xFF {
        out.push(mb + 24);
        out.push(n as u8);
    } else if n <= 0xFFFF {
        out.push(mb + 25);
        out.push((n / 256) as u8);
        out.push((n % 256) as u8);
    } else if n <= 0xFFFF_FFFF {
        out.push(mb + 26);
        out.push((n / 0x1000000) as u8);
        out.push(((n / 0x10000) % 256) as u8);
        out.push(((n / 256) % 256) as u8);
        out.push((n % 256) as u8);
    } else {
        out.push(mb + 27);
        out.push((n / 0x100000000000000) as u8);
        out.push(((n / 0x1000000000000) % 256) as u8);
        out.push(((n / 0x10000000000) % 256) as u8);
        out.push(((n / 0x100000000) % 256) as u8);
        out.push(((n / 0x1000000) % 256) as u8);
        out.push(((n / 0x10000) % 256) as u8);
        out.push(((n / 256) % 256) as u8);
        out.push((n % 256) as u8);
    }
    proof {
        assert(out@ =~= old(out)@ + cbor_arg(major, n));
    }
}

/// Appends a canonical unsigned integer.
pub fn push_cbor_uint(out: &mut Vec<u8>, n: u64)
    ensures
        final(out)@ == old(out)@ + cbor_uint(n),
{
    push_cbor_arg(out, 0, n);
}

/// Appends a canonical byte string.
pub fn push_cbor_bytes(out: &mut Vec<u8>, b: &[u8])
    ensures
        final(out)@ == old(out)@ + cbor_bytes(b@),
{
    push_cbor_arg(out, 2, b.len() as u64);
    let ghost prefix = out@;
    let mut k: usize = 0;
    while k < b.len()
        invariant
            0 <= k <= b@.len(),
            out@ == prefix + b@.take(k as int),
        decreases b@.len() - k,
    {
        out.push(b[k]);
        proof {
            assert(prefix + b@.take(k + 1) =~= (prefix + b@.take(k as int)).push(b@[k as int]));
        }
        k += 1;
    }
    proof {
        assert(b@.take(b@.len() as int) =~= b@);
        assert(out@ =~= old(out)@ + cbor_bytes(b@));
    }
}

/// Appends a canonical text string.
pub fn push_cbor_text(out: &mut Vec<u8>, s: &str)
    ensures
        final(out)@ == old(out)@ + cbor_text_bytes(encode_utf8(s@)),
{
    let bytes = s.as_bytes_vec();
    push_cbor_arg(out, 3, bytes.len() as u64);
    let ghost prefix = out@;
    let mut k: usize = 0;
    while k < bytes.len()
        invariant
            0 <= k <= bytes@.len(),
            out@ == prefix + bytes@.take(k as int),
        decreases bytes@.len() - k,
    {
        out.push(bytes[k]);
        proof {
            assert(prefix + bytes@.take(k + 1) =~= (prefix + bytes@.take(k as int)).push(
                bytes@[k as int],
            ));
        }
        k += 1;
    }
    proof {
        assert(bytes@.take(bytes@.len() as int) =~= bytes@);
        assert(out@ =~= old(out)@ + cbor_text_bytes(encode_utf8(s@)));
    }
}

/// Appends a canonical map head.
pub fn push_cbor_map_header(out: &mut Vec<u8>, n: u64)
    ensures
        final(out)@ == old(out)@ + cbor_map_header(n),
{
    push_cbor_arg(out, 5, n);
}

/// One decoded CBOR head: major type, argument, and the position after the
/// head.  `None` on a truncated head or a non-canonical reserved or
/// indefinite argument form.
pub open spec fn spec_cbor_header(data: Seq<u8>, pos: int) -> Option<(u8, u64, int)> {
    if pos < 0 || pos >= data.len() {
        None
    } else {
        let ib = data[pos];
        let major = ib / 32;
        let ai = ib % 32;
        if ai < 24 {
            Some((major, ai as u64, pos + 1))
        } else if ai == 24 {
            if pos + 2 <= data.len() {
                Some((major, data[pos + 1] as u64, pos + 2))
            } else {
                None
            }
        } else if ai == 25 {
            if pos + 3 <= data.len() {
                Some((major, (data[pos + 1] * 256 + data[pos + 2]) as u64, pos + 3))
            } else {
                None
            }
        } else if ai == 26 {
            if pos + 5 <= data.len() {
                let b1 = data[pos + 1];
                let b2 = data[pos + 2];
                let b3 = data[pos + 3];
                let b4 = data[pos + 4];
                Some((major, (b1 * 0x1000000 + b2 * 0x10000 + b3 * 256 + b4) as u64, pos + 5))
            } else {
                None
            }
        } else if ai == 27 {
            if pos + 9 <= data.len() {
                let b1 = data[pos + 1];
                let b2 = data[pos + 2];
                let b3 = data[pos + 3];
                let b4 = data[pos + 4];
                let b5 = data[pos + 5];
                let b6 = data[pos + 6];
                let b7 = data[pos + 7];
                let b8 = data[pos + 8];
                Some(
                    (
                        major,
                        (b1 * 0x100000000000000 + b2 * 0x1000000000000 + b3 * 0x10000000000 + b4
                            * 0x100000000 + b5 * 0x1000000 + b6 * 0x10000 + b7 * 256 + b8) as u64,
                        pos + 9,
                    ),
                )
            } else {
                None
            }
        } else {
            None
        }
    }
}

/// Position after the item starting at `pos`, or `None` for a malformed
/// item.  Integers and simple values end with their head; strings carry
/// their argument in bytes; arrays and maps carry that many (or twice as
/// many) further items; a tag carries one.
pub open spec fn spec_skip(data: Seq<u8>, pos: int) -> Option<int>
    decreases data.len() - pos, 0int,
{
    match spec_cbor_header(data, pos) {
        None => None,
        Some((major, arg, after)) => {
            if after <= pos || after > data.len() {
                None
            } else if major == 0 || major == 1 || major == 7 {
                Some(after)
            } else if major == 2 || major == 3 {
                if arg <= data.len() - after {
                    Some(after + arg)
                } else {
                    None
                }
            } else if major == 4 {
                if arg <= data.len() - after {
                    spec_skip_many(data, after, arg as int)
                } else {
                    None
                }
            } else if major == 5 {
                if arg <= data.len() - after {
                    spec_skip_many(data, after, 2 * arg as int)
                } else {
                    None
                }
            } else {
                spec_skip_many(data, after, 1)
            }
        },
    }
}

/// Position after `n` consecutive items starting at `pos`.
pub open spec fn spec_skip_many(data: Seq<u8>, pos: int, n: int) -> Option<int>
    decreases data.len() - pos, 1 + n,
{
    if n <= 0 {
        Some(pos)
    } else if pos >= data.len() {
        None
    } else {
        match spec_skip(data, pos) {
            None => None,
            Some(np) => if np <= pos || np > data.len() {
                None
            } else {
                spec_skip_many(data, np, n - 1)
            },
        }
    }
}

/// The unsigned integer at `pos`, if the item there is one.
pub open spec fn spec_value_uint(data: Seq<u8>, pos: int) -> Option<u64> {
    match spec_cbor_header(data, pos) {
        Some((major, arg, after)) => if major == 0 {
            Some(arg)
        } else {
            None
        },
        None => None,
    }
}

/// The byte string at `pos`, if the item there is one.
pub open spec fn spec_value_bytes(data: Seq<u8>, pos: int) -> Option<Seq<u8>> {
    match spec_cbor_header(data, pos) {
        Some((major, arg, after)) => if major == 2 && arg <= data.len() - after {
            Some(data.subrange(after, after + arg))
        } else {
            None
        },
        None => None,
    }
}

/// Walks `n` map entries from `pos` looking for an unsigned-integer key
/// equal to `key`; the position of its value item, for the first match.
pub open spec fn spec_find_uint_key(data: Seq<u8>, pos: int, n: int, key: u64) -> Option<int>
    decreases data.len() - pos, 1 + n,
{
    if n <= 0 || pos >= data.len() {
        None
    } else {
        match spec_skip(data, pos) {
            None => None,
            Some(kend) => if kend <= pos || kend > data.len() {
                None
            } else {
                let is_match = match spec_cbor_header(data, pos) {
                    Some((kmajor, karg, _)) => kmajor == 0 && karg == key,
                    None => false,
                };
                if is_match {
                    Some(kend)
                } else {
                    match spec_skip(data, kend) {
                        None => None,
                        Some(vend) => if vend <= kend || vend > data.len() {
                            None
                        } else {
                            spec_find_uint_key(data, vend, n - 1, key)
                        },
                    }
                }
            },
        }
    }
}

/// Walks `n` map entries from `pos` looking for a text key whose UTF-8
/// bytes equal `key`; the position of its value item, for the first match.
pub open spec fn spec_find_text_key(data: Seq<u8>, pos: int, n: int, key: Seq<u8>) -> Option<int>
    decreases data.len() - pos, 1 + n,
{
    if n <= 0 || pos >= data.len() {
        None
    } else {
        match spec_skip(data, pos) {
            None => None,
            Some(kend) => if kend <= pos || kend > data.len() {
                None
            } else {
                let is_match = match spec_cbor_header(data, pos) {
                    Some((kmajor, karg, kafter)) => kmajor == 3 && karg <= data.len() - kafter
                        && kend == kafter + karg && data.subrange(kafter, kafter + karg) == key,
                    None => false,
                };
                if is_match {
                    Some(kend)
                } else {
                    match spec_skip(data, kend) {
                        None => None,
                        Some(vend) => if vend <= kend || vend > data.len() {
                            None
                        } else {
                            spec_find_text_key(data, vend, n - 1, key)
                        },
                    }
                }
            },
        }
    }
}

/// The unsigned integer under an integer key of a top-level map, if the
/// document is such a map and the first entry with that key holds one.
pub open spec fn spec_map_lookup_uint(data: Seq<u8>, key: u64) -> Option<u64> {
    match spec_cbor_header(data, 0) {
        Some((major, n, after)) => if major == 5 {
            match spec_find_uint_key(data, after, n as int, key) {
                Some(vpos) => spec_value_uint(data, vpos),
                None => None,
            }
        } else {
            None
        },
        None => None,
    }
}

/// The byte string under an integer key of a top-level map.
pub open spec fn spec_map_lookup_bytes(data: Seq<u8>, key: u64) -> Option<Seq<u8>> {
    match spec_cbor_header(data, 0) {
        Some((major, n, after)) => if major == 5 {
            match spec_find_uint_key(data, after, n as int, key) {
                Some(vpos) => spec_value_bytes(data, vpos),
                None => None,
            }
        } else {
            None
        },
        None => None,
    }
}

/// The unsigned integer under a text key of a top-level map.
pub open spec fn spec_map_lookup_text_uint(data: Seq<u8>, key: Seq<u8>) -> Option<u64> {
    match spec_cbor_header(data, 0) {
        Some((major, n, after)) => if major == 5 {
            match spec_find_text_key(data, after, n as int, key) {
                Some(vpos) => spec_value_uint(data, vpos),
                None => None,
            }
        } else {
            None
        },
        None => None,
    }
}

/// Reads one CBOR head.
pub fn cbor_header(data: &[u8], pos: usize) -> (r: Option<(u8, u64, usize)>)
    requires
        data@.len() <= 0xFFFF,
    ensures
        r is Some <==> spec_cbor_header(data@, pos as int) is Some,
        r matches Some(h) ==> spec_cbor_header(data@, pos as int) == Some(
            (h.0, h.1, h.2 as int),
        ),
{
    if pos >= data.len() {
        return None;
    }
    let ib = data[pos];
    let major = ib / 32;
    let ai = ib % 32;
    if ai < 24 {
        Some((major, ai as u64, pos + 1))
    } else if ai == 24 {
        if pos + 2 <= data.len() {
            Some((major, data[pos + 1] as u64, pos + 2))
        } else {
            None
        }
    } else if ai == 25 {
        if pos + 3 <= data.len() {
            Some((major, (data[pos + 1] as u64) * 256 + (data[pos + 2] as u64), pos + 3))
        } else {
            None
        }
    } else if ai == 26 {
        if pos + 5 <= data.len() {
            let b1 = data[pos + 1] as u64;
            let b2 = data[pos + 2] as u64;
            let b3 = data[pos + 3] as u64;
            let b4 = data[pos + 4] as u64;
            Some((major, b1 * 0x1000000 + b2 * 0x10000 + b3 * 256 + b4, pos + 5))
        } else {
            None
        }
    } else if ai == 27 {
        if pos + 9 <= data.len() {
            let b1 = data[pos + 1] as u64;
            let b2 = data[pos + 2] as u64;
            let b3 = data[pos + 3] as u64;
            let b4 = data[pos + 4] as u64;
            let b5 = data[pos + 5] as u64;
            let b6 = data[pos + 6] as u64;
            let b7 = data[pos + 7] as u64;
            let b8 = data[pos + 8] as u64;
            Some(
                (
                    major,
                    b1 * 0x100000000000000 + b2 * 0x1000000000000 + b3 * 0x10000000000 + b4
                        * 0x100000000 + b5 * 0x1000000 + b6 * 0x10000 + b7 * 256 + b8,
                    pos + 9,
                ),
            )
        } else {
            None
        }
    } else {
        None
    }
}

/// Position after the item at `pos`; see [`spec_skip`].
fn cbor_skip(data: &[u8], pos: usize) -> (r: Option<usize>)
    requires
        data@.len() <= 0xFFFF,
    ensures
        r is Some <==> spec_skip(data@, pos as int) is Some,
        r matches Some(np) ==> spec_skip(data@, pos as int) == Some(np as int) && pos < np
            <= data@.len(),
    decreases data@.len() - pos, 0int,
{
    let h = match cbor_header(data, pos) {
        Some(h) => h,
        None => {
            return None;
        },
    };
    let (major, arg, after) = h;
    if after <= pos || after > data.len() {
        return None;
    }
    if major == 0 || major == 1 || major == 7 {
        Some(after)
    } else if major == 2 || major == 3 {
        if arg <= (data.len() - after) as u64 {
            Some(after + (arg as usize))
        } else {
            None
        }
    } else if major == 4 {
        if arg <= (data.len() - after) as u64 {
            cbor_skip_many(data, after, arg)
        } else {
            None
        }
    } else if major == 5 {
        if arg <= (data.len() - after) as u64 {
            cbor_skip_many(data, after, 2 * arg)
        } else {
            None
        }
    } else {
        cbor_skip_many(data, after, 1)
    }
}

/// Position after `n` items from `pos`; see [`spec_skip_many`].
fn cbor_skip_many(data: &[u8], pos: usize, n: u64) -> (r: Option<usize>)
    requires
        data@.len() <= 0xFFFF,
        pos <= data@.len(),
        n <= 0x2_0000,
    ensures
        r is Some <==> spec_skip_many(data@, pos as int, n as int) is Some,
        r matches Some(np) ==> spec_skip_many(data@, pos as int, n as int) == Some(np as int)
            && pos <= np <= data@.len(),
    decreases data@.len() - pos, 1 + n,
{
    if n == 0 {
        return Some(pos);
    }
    if pos >= data.len() {
        return None;
    }
    let np = match cbor_skip(data, pos) {
        Some(np) => np,
        None => {
            return None;
        },
    };
    cbor_skip_many(data, np, n - 1)
}

/// Finds the value position of the first entry with the given integer key
/// among `n` entries from `pos`; see [`spec_find_uint_key`].
fn cbor_find_uint_key(data: &[u8], pos: usize, n: u64, key: u64) -> (r: Option<usize>)
    requires
        data@.len() <= 0xFFFF,
    ensures
        r is Some <==> spec_find_uint_key(data@, pos as int, n as int, key) is Some,
        r matches Some(vp) ==> spec_find_uint_key(data@, pos as int, n as int, key) == Some(
            vp as int,
        ) && vp <= data@.len(),
    decreases data@.len() - pos, 1 + n,
{
    if n == 0 || pos >= data.len() {
        return None;
    }
    let kend = match cbor_skip(data, pos) {
        Some(k) => k,
        None => {
            return None;
        },
    };
    let is_match = match cbor_header(data, pos) {
        Some((kmajor, karg, _)) => kmajor == 0 && karg == key,
        None => false,
    };
    if is_match {
        return Some(kend);
    }
    let vend = match cbor_skip(data, kend) {
        Some(v) => v,
        None => {
            return None;
        },
    };
    cbor_find_uint_key(data, vend, n - 1, key)
}

/// Looks up an unsigned integer under an integer key of a top-level map;
/// see [`spec_map_lookup_uint`].
pub fn cbor_map_lookup_uint(data: &[u8], key: u64) -> (r: Option<u64>)
    requires
        data@.len() <= 0xFFFF,
    ensures
        r == spec_map_lookup_uint(data@, key),
{
    let h = match cbor_header(data, 0) {
        Some(h) => h,
        None => {
            return None;
        },
    };
    let (major, n, after) = h;
    if major != 5 {
        return None;
    }
    let vpos = match cbor_find_uint_key(data, after, n, key) {
        Some(v) => v,
        None => {
            return None;
        },
    };
    match cbor_header(data, vpos) {
        Some((vmajor, varg, _)) => if vmajor == 0 {
            Some(varg)
        } else {
            None
        },
        None => None,
    }
}

/// Looks up a byte string under an integer key of a top-level map; see
/// [`spec_map_lookup_bytes`].
pub fn cbor_map_lookup_bytes(data: &[u8], key: u64) -> (r: Option<Vec<u8>>)
    requires
        data@.len() <= 0xFFFF,
    ensures
        r is Some <==> spec_map_lookup_bytes(data@, key) is Some,
        r matches Some(v) ==> Some(v@) == spec_map_lookup_bytes(data@, key),
{
    let h = match cbor_header(data, 0) {
        Some(h) => h,
        None => {
            return None;
        },
    };
    let (major, n, after) = h;
    if major != 5 {
        return None;
    }
    let vpos = match cbor_find_uint_key(data, after, n, key) {
        Some(v) => v,
        None => {
            return None;
        },
    };
    match cbor_header(data, vpos) {
        Some((vmajor, varg, vafter)) => {
            if vmajor == 2 && vafter <= data.len() && varg <= (data.len() - vafter) as u64 {
                let out = vstd::slice::slice_to_vec(
                    vstd::slice::slice_subrange(data, vafter, vafter + (varg as usize)),
                );
                proof {
                    assert(out@ =~= data@.subrange(vafter as int, vafter + varg));
                }
                Some(out)
            } else {
                None
            }
        },
        None => None,
    }
}

/// Finds the value position of the first entry whose text key has the
/// given UTF-8 bytes among `n` entries from `pos`; see
/// [`spec_find_text_key`].
fn cbor_find_text_key(data: &[u8], pos: usize, n: u64, key: &[u8]) -> (r: Option<usize>)
    requires
        data@.len() <= 0xFFFF,
    ensures
        r is Some <==> spec_find_text_key(data@, pos as int, n as int, key@) is Some,
        r matches Some(vp) ==> spec_find_text_key(data@, pos as int, n as int, key@) == Some(
            vp as int,
        ) && vp <= data@.len(),
    decreases data@.len() - pos, 1 + n,
{
    if n == 0 || pos >= data.len() {
        return None;
    }
    let kend = match cbor_skip(data, pos) {
        Some(k) => k,
        None => {
            return None;
        },
    };
    let is_match = match cbor_header(data, pos) {
        Some((kmajor, karg, kafter)) => {
            if kmajor == 3 && kafter <= data.len() && karg <= (data.len() - kafter) as u64 && kend
                == kafter + (karg as usize) && karg == key.len() as u64 {
                let mut eq = true;
                let mut i: usize = 0;
                proof {
                    assert(kafter + karg <= data@.len());
                    assert(data@.subrange(kafter as int, kafter as int) =~= key@.take(0));
                }
                while i < key.len()
                    invariant
                        data@.len() <= 0xFFFF,
                        0 <= i <= key@.len(),
                        kafter + key@.len() <= data@.len(),
                        eq == (data@.subrange(kafter as int, kafter + i as int) == key@.take(
                            i as int,
                        )),
                    decreases key@.len() - i,
                {
                    proof {
                        assert(i < key@.len());
                        assert(kafter + i < data@.len());
                        assert(data@.subrange(kafter as int, kafter + i + 1).drop_last()
                            =~= data@.subrange(kafter as int, kafter + i as int));
                        assert(key@.take(i + 1).drop_last() =~= key@.take(i as int));
                    }
                    let di = kafter + i;
                    if data[di] != key[i] {
                        proof {
                            assert(data@.subrange(kafter as int, kafter + i + 1).last() != key@.take(
                                i + 1,
                            ).last());
                        }
                        eq = false;
                    } else {
                        proof {
                            if eq {
                                assert(data@.subrange(kafter as int, kafter + i + 1) =~= data@
                                    .subrange(kafter as int, kafter + i as int).push(
                                    data@[kafter + i],
                                ));
                                assert(key@.take(i + 1) =~= key@.take(i as int).push(
                                    key@[i as int],
                                ));
                            } else {
                                if data@.subrange(kafter as int, kafter + i + 1) == key@.take(
                                    i + 1,
                                ) {
                                    assert(data@.subrange(kafter as int, kafter + i as int)
                                        == key@.take(i as int));
                                }
                            }
                        }
                    }
                    i += 1;
                }
                proof {
                    assert(data@.subrange(kafter as int, kafter + key@.len() as int) =~= data@
                        .subrange(kafter as int, kafter + key@.len()));
                    assert(key@.take(key@.len() as int) =~= key@);
                }
                eq
            } else {
                false
            }
        },
        None => false,
    };
    if is_match {
        return Some(kend);
    }
    let vend = match cbor_skip(data, kend) {
        Some(v) => v,
        None => {
            return None;
        },
    };
    cbor_find_text_key(data, vend, n - 1, key)
}

/// Looks up an unsigned integer under a text key of a top-level map; see
/// [`spec_map_lookup_text_uint`].
pub fn cbor_map_lookup_text_uint(data: &[u8], key: &[u8]) -> (r: Option<u64>)
    requires
        data@.len() <= 0xFFFF,
    ensures
        r == spec_map_lookup_text_uint(data@, key@),
{
    let h = match cbor_header(data, 0) {
        Some(h) => h,
        None => {
            return None;
        },
    };
    let (major, n, after) = h;
    if major != 5 {
        return None;
    }
    let vpos = match cbor_find_text_key(data, after, n, key) {
        Some(v) => v,
        None => {
            return None;
        },
    };
    match cbor_header(data, vpos) {
        Some((vmajor, varg, _)) => if vmajor == 0 {
            Some(varg)
        } else {
            None
        },
        None => None,
    }
}


/// A canonical unsigned integer embedded at `pos` reads back as itself:
/// the head decodes to major type 0 with the same value, ending exactly
/// where the encoding ends.
#[verifier::rlimit(90)]
pub proof fn lemma_cbor_uint_at(data: Seq<u8>, pos: int, n: u64)
    requires
        0 <= pos,
        pos + cbor_uint(n).len() <= data.len(),
        data.subrange(pos, pos + cbor_uint(n).len()) == cbor_uint(n),
    ensures
        spec_cbor_header(data, pos) == Some((0u8, n, pos + cbor_uint(n).len())),
        spec_skip(data, pos) == Some(pos + cbor_uint(n).len()),
{
    let e = cbor_uint(n);
    let l = e.len() as int;
    let sub = data.subrange(pos, pos + l);
    if n < 24 {
        assert(data[pos] == sub[0]);
        assert(sub[0] == e[0]);
        assert(e[0] == n as u8);
        assert((n as u8) < 24);
        assert(data[pos] / 32 == 0);
        assert(data[pos] % 32 == n);
    } else if n <= 0xFF {
        assert(data[pos] == sub[0] && sub[0] == e[0]);
        assert(data[pos + 1] == sub[1] && sub[1] == e[1]);
        assert(e[0] == 24);
        assert(e[1] == n as u8);
    } else if n <= 0xFFFF {
        assert(data[pos] == sub[0] && sub[0] == e[0]);
        assert(data[pos + 1] == sub[1] && sub[1] == e[1]);
        assert(data[pos + 2] == sub[2] && sub[2] == e[2]);
        assert(e[0] == 25);
        assert(e[1] == (n / 256) as u8 && e[2] == (n % 256) as u8);
        assert((n / 256) * 256 + n % 256 == n);
    } else if n <= 0xFFFF_FFFF {
        assert(data[pos] == sub[0] && sub[0] == e[0]);
        assert(data[pos + 1] == sub[1] && sub[1] == e[1]);
        assert(data[pos + 2] == sub[2] && sub[2] == e[2]);
        assert(data[pos + 3] == sub[3] && sub[3] == e[3]);
        assert(data[pos + 4] == sub[4] && sub[4] == e[4]);
        assert(e[0] == 26);
        assert(e[1] == (n / 0x1000000) as u8);
        assert(e[2] == ((n / 0x10000) % 256) as u8);
        assert(e[3] == ((n / 256) % 256) as u8);
        assert(e[4] == (n % 256) as u8);
        assert((n / 0x1000000) * 0x1000000 + ((n / 0x10000) % 256) * 0x10000 + ((n / 256) % 256)
            * 256 + n % 256 == n) by {
            assert(n / 0x1000000 == (n / 0x10000) / 256);
            assert(((n / 0x10000) / 256) * 256 + (n / 0x10000) % 256 == n / 0x10000);
            assert(n / 0x10000 == (n / 256) / 256);
            assert(((n / 256) / 256) * 256 + (n / 256) % 256 == n / 256);
            assert((n / 256) * 256 + n % 256 == n);
        }
    } else {
        assert(data[pos] == sub[0] && sub[0] == e[0]);
        assert(data[pos + 1] == sub[1] && sub[1] == e[1]);
        assert(data[pos + 2] == sub[2] && sub[2] == e[2]);
        assert(data[pos + 3] == sub[3] && sub[3] == e[3]);
        assert(data[pos + 4] == sub[4] && sub[4] == e[4]);
        assert(data[pos + 5] == sub[5] && sub[5] == e[5]);
        assert(data[pos + 6] == sub[6] && sub[6] == e[6]);
        assert(data[pos + 7] == sub[7] && sub[7] == e[7]);
        assert(data[pos + 8] == sub[8] && sub[8] == e[8]);
        assert(e[0] == 27);
        assert(e[1] == (n / 0x100000000000000) as u8);
        assert(e[2] == ((n / 0x1000000000000) % 256) as u8);
        assert(e[3] == ((n / 0x10000000000) % 256) as u8);
        assert(e[4] == ((n / 0x100000000) % 256) as u8);
        assert(e[5] == ((n / 0x1000000) % 256) as u8);
        assert(e[6] == ((n / 0x10000) % 256) as u8);
        assert(e[7] == ((n / 256) % 256) as u8);
        assert(e[8] == (n % 256) as u8);
        assert((n / 0x100000000000000) * 0x100000000000000 + ((n / 0x1000000000000) % 256)
            * 0x1000000000000 + ((n / 0x10000000000) % 256) * 0x10000000000 + ((n / 0x100000000)
            % 256) * 0x100000000 + ((n / 0x1000000) % 256) * 0x1000000 + ((n / 0x10000) % 256)
            * 0x10000 + ((n / 256) % 256) * 256 + n % 256 == n) by {
            assert(n / 0x100000000000000 == (n / 0x1000000000000) / 256);
            assert(((n / 0x1000000000000) / 256) * 256 + (n / 0x1000000000000) % 256 == n
                / 0x1000000000000);
            assert(n / 0x1000000000000 == (n / 0x10000000000) / 256);
            assert(((n / 0x10000000000) / 256) * 256 + (n / 0x10000000000) % 256 == n
                / 0x10000000000);
            assert(n / 0x10000000000 == (n / 0x100000000) / 256);
            assert(((n / 0x100000000) / 256) * 256 + (n / 0x100000000) % 256 == n / 0x100000000);
            assert(n / 0x100000000 == (n / 0x1000000) / 256);
            assert(((n / 0x1000000) / 256) * 256 + (n / 0x1000000) % 256 == n / 0x1000000);
            assert(n / 0x1000000 == (n / 0x10000) / 256);
            assert(((n / 0x10000) / 256) * 256 + (n / 0x10000) % 256 == n / 0x10000);
            assert(n / 0x10000 == (n / 256) / 256);
            assert(((n / 256) / 256) * 256 + (n / 256) % 256 == n / 256);
            assert((n / 256) * 256 + n % 256 == n);
        }
    }
}

/// The setMinPINLength sub-parameter map reads back through the map
/// reader: the new length is found under key 1.
pub proof fn lemma_min_pin_sub_params_readback(doc: Seq<u8>, new_min: u8)
    requires
        doc == cbor_map_header(1) + cbor_uint(1) + cbor_uint(new_min as u64),
    ensures
        spec_map_lookup_uint(doc, 1) == Some(new_min as u64),
{
    let k = cbor_uint(1);
    let v = cbor_uint(new_min as u64);
    assert(cbor_map_header(1) == seq![0xA1u8]);
    assert(doc.len() == 1 + 1 + v.len());
    assert(doc[0] == 0xA1);
    assert(spec_cbor_header(doc, 0) == Some((5u8, 1u64, 1int)));
    assert(doc.subrange(1, 2) =~= k);
    lemma_cbor_uint_at(doc, 1, 1);
    assert(doc.subrange(2, 2 + v.len() as int) =~= v);
    lemma_cbor_uint_at(doc, 2, new_min as u64);
    assert(spec_find_uint_key(doc, 1, 1, 1) == Some(2int));
    assert(spec_value_uint(doc, 2) == Some(new_min as u64));
}

} // verus!
