//! [High-byte mapping through table](https://docs.microsoft.com/en-us/typography/opentype/spec/cmap#format-2-high-byte-mapping-through-table).
//!
//! A 256-entry array maps the high byte of a code point to a sub-header; the
//! sub-header selects a range of low bytes and the glyph array entries for them.

use vstd::prelude::*;
use crate::parser::{in_bounds, u16_at, i16_at, opt_u16_at, read_u16_at, read_i16_at};

verus! {

/// Entry `j` of the sub-header keys (sub-header index times 8).
pub open spec fn key(d: Seq<u8>, j: int) -> u16 {
    u16_at(d, 6 + 2 * j)
}

/// The largest sub-header index among the first `k` keys (`k >= 1`).
pub open spec fn max_index(d: Seq<u8>, k: int) -> int
    decreases k,
{
    if k <= 1 {
        key(d, 0) as int / 8
    } else {
        let m = max_index(d, k - 1);
        let v = key(d, k - 1) as int / 8;
        if v > m {
            v
        } else {
            m
        }
    }
}

/// The number of sub-headers: one more than the largest index in the keys.
pub open spec fn sub_header_count(d: Seq<u8>) -> int {
    max_index(d, 256) + 1
}

pub open spec fn first_code(d: Seq<u8>, i: int) -> u16 {
    u16_at(d, 518 + 8 * i)
}

pub open spec fn entry_count(d: Seq<u8>, i: int) -> u16 {
    u16_at(d, 520 + 8 * i)
}

pub open spec fn id_delta(d: Seq<u8>, i: int) -> i16 {
    i16_at(d, 522 + 8 * i)
}

pub open spec fn id_range_offset(d: Seq<u8>, i: int) -> u16 {
    u16_at(d, 524 + 8 * i)
}

/// The keys and all sub-headers are present.
pub open spec fn headers_ok(d: Seq<u8>) -> bool {
    in_bounds(d, 6, 512) && in_bounds(d, 518, 8 * sub_header_count(d))
}

/// The glyph a format 2 subtable maps `cp` to.
pub open spec fn spec_glyph(d: Seq<u8>, cp: u32) -> Option<u16> {
    if cp > 0xFFFF || !headers_ok(d) {
        None
    } else {
        let high = cp as int / 256;
        let low = cp as int % 256;
        // Sub-header 0 serves single-byte codes.
        let i = if cp < 0xff { 0 } else { key(d, high) as int / 8 };
        let first = first_code(d, i) as int;
        let range_end = first + entry_count(d, i) as int;
        if range_end > 0xFFFF || low < first || low >= range_end {
            None
        } else {
            // `idRangeOffset` counts bytes from its own position.
            let offset = 518 + 8 * (i + 1) - 2 + id_range_offset(d, i) as int + (low - first) * 2;
            match opt_u16_at(d, offset) {
                None => None,
                Some(g) => if g == 0 {
                    None
                } else {
                    let t = g as int + id_delta(d, i) as int;
                    if t < 0 {
                        None
                    } else {
                        Some((t % 65536) as u16)
                    }
                },
            }
        }
    }
}

proof fn lemma_max_index_bound(d: Seq<u8>, k: int, j: int)
    requires
        1 <= k,
        0 <= j < k,
    ensures
        key(d, j) as int / 8 <= max_index(d, k),
        0 <= max_index(d, k) <= 8191,
    decreases k,
{
    if k > 1 {
        if j < k - 1 {
            lemma_max_index_bound(d, k - 1, j);
        } else {
            lemma_max_index_bound(d, k - 1, 0);
        }
    }
}

/// Reads the keys and computes the number of sub-headers.
fn read_sub_header_count(data: &[u8]) -> (r: Option<u16>)
    ensures
        r matches Some(c) ==> in_bounds(data@, 6, 512) && c as int == sub_header_count(data@),
        r is None <==> !in_bounds(data@, 6, 512),
{
    if !(data.len() >= 6 && data.len() - 6 >= 512) {
        return None;
    }
    let mut m: u16 = match read_u16_at(data, 6) {
        Some(v) => v / 8,
        None => return None,
    };
    let mut j: usize = 1;
    while j < 256
        invariant
            in_bounds(data@, 6, 512),
            1 <= j <= 256,
            m as int == max_index(data@, j as int),
        decreases 256 - j,
    {
        let v = match read_u16_at(data, 6 + 2 * j) {
            Some(v) => v / 8,
            None => return None,
        };
        if v > m {
            m = v;
        }
        j = j + 1;
    }
    proof {
        lemma_max_index_bound(data@, 256, 0);
    }
    Some(m + 1)
}

/// Maps a code point to a glyph ID.
pub fn parse(data: &[u8], code_point: u32) -> (r: Option<u16>)
    ensures
        r == spec_glyph(data@, code_point),
{
    // This subtable supports code points only in a u16 range.
    if code_point > 0xFFFF {
        return None;
    }
    let high_byte = code_point / 256;
    let low_byte = code_point % 256;
    let count = match read_sub_header_count(data) {
        Some(c) => c,
        None => return None,
    };
    // Sub-headers start right after the 256 keys.
    let sub_headers_offset: usize = 518;
    if !(data.len() >= 518 && (data.len() - 518) / 8 >= count as usize) {
        return None;
    }
    let i: u16 = if code_point < 0xff {
        0
    } else {
        match read_u16_at(data, 6 + 2 * high_byte as usize) {
            Some(v) => v / 8,
            None => return None,
        }
    };
    proof {
        lemma_max_index_bound(data@, 256, high_byte as int);
    }
    assert(i < count);
    let first = match read_u16_at(data, sub_headers_offset + 8 * i as usize) {
        Some(v) => v,
        None => return None,
    };
    let entry_count = match read_u16_at(data, sub_headers_offset + 8 * i as usize + 2) {
        Some(v) => v,
        None => return None,
    };
    let delta = match read_i16_at(data, sub_headers_offset + 8 * i as usize + 4) {
        Some(v) => v,
        None => return None,
    };
    let iro = match read_u16_at(data, sub_headers_offset + 8 * i as usize + 6) {
        Some(v) => v,
        None => return None,
    };
    let range_end = first as u32 + entry_count as u32;
    if range_end > 0xFFFF {
        return None;
    }
    if low_byte < first as u32 || low_byte >= range_end {
        return None;
    }
    let index_offset: usize = (low_byte as usize - first as usize) * 2;
    let offset: usize = sub_headers_offset + 8 * (i as usize + 1) - 2 + iro as usize + index_offset;
    let glyph = match read_u16_at(data, offset) {
        Some(v) => v,
        None => return None,
    };
    if glyph == 0 {
        return None;
    }
    let t: i32 = glyph as i32 + delta as i32;
    if t < 0 {
        None
    } else {
        Some((t % 65536) as u16)
    }
}

/// What the code point walk yields from high byte `fb` on; it stops for good
/// where a range would run past 0xFFFF.
pub open spec fn codepoints_from(d: Seq<u8>, fb: int) -> Seq<u32>
    decreases 256 - fb,
{
    if fb >= 256 || fb < 0 {
        Seq::empty()
    } else {
        let i = key(d, fb) as int / 8;
        let first = first_code(d, i) as int;
        let cnt = entry_count(d, i) as int;
        if i == 0 {
            // A single byte code.
            if first + cnt > 0xFFFF {
                Seq::empty()
            } else if first <= fb < first + cnt {
                seq![fb as u32] + codepoints_from(d, fb + 1)
            } else {
                codepoints_from(d, fb + 1)
            }
        } else {
            // A two byte code.
            let base = first + fb * 256;
            if base > 0xFFFF {
                Seq::empty()
            } else if base + cnt > 0x10000 {
                Seq::new((0x10000 - base) as nat, |j: int| (base + j) as u32)
            } else {
                Seq::new(cnt as nat, |j: int| (base + j) as u32) + codepoints_from(d, fb + 1)
            }
        }
    }
}

/// The code points of a format 2 subtable; nothing when its headers are truncated.
pub open spec fn spec_codepoints(d: Seq<u8>) -> Seq<u32> {
    if headers_ok(d) {
        codepoints_from(d, 0)
    } else {
        Seq::empty()
    }
}

/// Lists the code points of the subtable.
pub fn codepoints(data: &[u8]) -> (r: Vec<u32>)
    ensures
        r@ == spec_codepoints(data@),
{
    let mut out: Vec<u32> = Vec::new();
    let count = match read_sub_header_count(data) {
        Some(c) => c,
        None => return out,
    };
    if !(data.len() >= 518 && (data.len() - 518) / 8 >= count as usize) {
        return out;
    }
    let ghost d = data@;
    let mut fb: u32 = 0;
    while fb < 256
        invariant
            d == data@,
            headers_ok(d),
            count as int == sub_header_count(d),
            0 <= fb <= 256,
            out@ + codepoints_from(d, fb as int) == codepoints_from(d, 0),
        decreases 256 - fb,
    {
        let i = match read_u16_at(data, 6 + 2 * fb as usize) {
            Some(v) => v / 8,
            None => return out,
        };
        proof {
            lemma_max_index_bound(d, 256, fb as int);
        }
        let first = match read_u16_at(data, 518 + 8 * i as usize) {
            Some(v) => v,
            None => return out,
        };
        let cnt = match read_u16_at(data, 520 + 8 * i as usize) {
            Some(v) => v,
            None => return out,
        };
        let ghost before = out@;
        if i == 0 {
            if first as u32 + cnt as u32 > 0xFFFF {
                assert(out@ =~= out@ + codepoints_from(d, fb as int));
                return out;
            }
            if first as u32 <= fb && fb < first as u32 + cnt as u32 {
                out.push(fb);
            }
            assert(out@ + codepoints_from(d, fb + 1) =~= before + codepoints_from(d, fb as int));
        } else {
            let base: u32 = first as u32 + fb * 256;
            if base > 0xFFFF {
                assert(out@ =~= out@ + codepoints_from(d, fb as int));
                return out;
            }
            let mut k: u32 = 0;
            while k < cnt as u32
                invariant
                    base <= 0xFFFF,
                    0 <= k <= cnt,
                    base + k <= 0x10000,
                    out@ == before + Seq::new(k as nat, |j: int| (base + j) as u32),
                ensures
                    k == cnt || base + k == 0x10000,
                    out@ == before + Seq::new(k as nat, |j: int| (base + j) as u32),
                decreases cnt - k,
            {
                if base + k > 0xFFFF {
                    break;
                }
                out.push(base + k);
                k = k + 1;
                assert(out@ =~= before + Seq::new(k as nat, |j: int| (base + j) as u32));
            }
            if k < cnt as u32 {
                assert(out@ =~= before + codepoints_from(d, fb as int));
                assert(out@ =~= out@ + Seq::<u32>::empty());
                return out;
            }
            assert(out@ + codepoints_from(d, fb + 1) =~= before + codepoints_from(d, fb as int));
        }
        fb = fb + 1;
    }
    assert(out@ =~= out@ + codepoints_from(d, 256));
    out
}

} // verus!
