//! [Trimmed table mapping](https://docs.microsoft.com/en-us/typography/opentype/spec/cmap#format-6-trimmed-table-mapping).

use vstd::prelude::*;
use crate::parser::{in_bounds, be_u16, u16_at, read_u16_at, Stream};

verus! {

/// The glyph a format 6 subtable maps `cp` to: entry `cp - first` of the
/// glyph array, when the code point falls inside the array.
pub open spec fn spec_glyph(d: Seq<u8>, cp: u32) -> Option<u16> {
    let first = u16_at(d, 6) as int;
    let count = u16_at(d, 8) as int;
    if cp > 0xFFFF || !in_bounds(d, 6, 4) || !in_bounds(d, 10, 2 * count) || (cp as int) < first
        || cp - first >= count {
        None
    } else {
        Some(u16_at(d, 10 + 2 * (cp - first)))
    }
}

/// The code points `first..first + count`, cut at 0xFFFF.
pub open spec fn spec_codepoints(d: Seq<u8>) -> Seq<u32> {
    if !in_bounds(d, 6, 4) {
        Seq::empty()
    } else {
        let first = u16_at(d, 6) as int;
        let count = u16_at(d, 8) as int;
        let n = if first + count <= 0x10000 { count } else { 0x10000 - first };
        Seq::new(n as nat, |j: int| (first + j) as u32)
    }
}

/// Maps a code point to a glyph ID.
pub fn parse(data: &[u8], code_point: u32) -> (r: Option<u16>)
    ensures
        r == spec_glyph(data@, code_point),
{
    // This subtable supports code points only in a u16 range.
    if code_point > 0xFFFF {
        return None;
    }
    let cp = code_point as u16;
    let mut s = Stream::new(data);
    s.advance(6); // format + length + language
    let first_code_point = match s.read_u16() {
        Some(v) => v,
        None => return None,
    };
    let count = match s.read_u16() {
        Some(v) => v,
        None => return None,
    };
    let glyphs = match s.read_array(count as u32, 2) {
        Some(g) => g,
        None => return None,
    };
    if cp < first_code_point {
        return None;
    }
    let idx = cp - first_code_point;
    if idx >= count {
        return None;
    }
    assert(glyphs@.subrange(2 * idx as int, 2 * idx + 2) =~= data@.subrange(10 + 2 * idx, 12 + 2 * idx));
    let r = read_u16_at(glyphs, 2 * idx as usize);
    assert(u16_at(glyphs@, 2 * idx as int) == u16_at(data@, 10 + 2 * idx as int));
    r
}

/// Lists the code points of the subtable.
pub fn codepoints(data: &[u8]) -> (r: Vec<u32>)
    ensures
        r@ == spec_codepoints(data@),
{
    let mut out: Vec<u32> = Vec::new();
    let first = match read_u16_at(data, 6) {
        Some(v) => v,
        None => return out,
    };
    let count = match read_u16_at(data, 8) {
        Some(v) => v,
        None => return out,
    };
    let mut i: u16 = 0;
    while i < count
        invariant
            0 <= i <= count,
            first + i <= 0x10000,
            out@ == Seq::new(i as nat, |j: int| (first + j) as u32),
        ensures
            i == count || first + i == 0x10000,
            out@ == Seq::new(i as nat, |j: int| (first + j) as u32),
        decreases count - i,
    {
        if first as u32 + i as u32 > 0xFFFF {
            break;
        }
        out.push(first as u32 + i as u32);
        i = i + 1;
        assert(out@ =~= Seq::new(i as nat, |j: int| (first + j) as u32));
    }
    assert(out@ =~= spec_codepoints(data@));
    out
}

/// With the whole glyph array present, every code point a format 6 subtable
/// lists has a glyph, and every code point with a glyph is listed.
pub proof fn lemma_codepoints_are_mapped(d: Seq<u8>, cp: u32)
    requires
        in_bounds(d, 6, 4),
        in_bounds(d, 10, 2 * u16_at(d, 8)),
    ensures
        spec_codepoints(d).contains(cp) <==> spec_glyph(d, cp) is Some,
{
    let first = u16_at(d, 6) as int;
    let s = spec_codepoints(d);
    if spec_glyph(d, cp) is Some {
        assert(s[cp - first] == cp);
    }
    if s.contains(cp) {
        let k = choose|k: int| 0 <= k < s.len() && s[k] == cp;
        assert(s[k] == (first + k) as u32);
    }
}

/// A format 6 subtable maps each 16-bit code point of `first..first + count`
/// (the 16-bit numbers at bytes 6 and 8) to the 16-bit glyph ID at
/// `10 + 2 * (cp - first)`, and no other code point.
pub proof fn lemma_trimmed_table_glyph(d: Seq<u8>, cp: u32)
    requires
        10 + 2 * be_u16(d, 8) <= d.len(),
    ensures
        cp <= 0xFFFF && be_u16(d, 6) <= cp < be_u16(d, 6) + be_u16(d, 8) ==> spec_glyph(d, cp)
            == Some(be_u16(d, 10 + 2 * (cp - be_u16(d, 6))) as u16),
        cp > 0xFFFF || !(be_u16(d, 6) <= cp < be_u16(d, 6) + be_u16(d, 8)) ==> spec_glyph(d, cp) is None,
{
}

} // verus!
