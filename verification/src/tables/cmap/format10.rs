//! [Trimmed array](https://docs.microsoft.com/en-us/typography/opentype/spec/cmap#format-10-trimmed-array).

use vstd::prelude::*;
use crate::parser::{in_bounds, be_u16, be_u32, u16_at, u32_at, read_u16_at, read_u32_at, Stream};

verus! {

/// The glyph a format 10 subtable maps `cp` to: entry `cp - first` of the
/// glyph array, when the code point falls inside the array.
pub open spec fn spec_glyph(d: Seq<u8>, cp: u32) -> Option<u16> {
    let first = u32_at(d, 12) as int;
    let count = u32_at(d, 16) as int;
    if !in_bounds(d, 12, 8) || !in_bounds(d, 20, 2 * count) || (cp as int) < first || cp - first >= count {
        None
    } else {
        Some(u16_at(d, 20 + 2 * (cp - first)))
    }
}

/// The code points `first..first + count`, cut at `u32::MAX`.
pub open spec fn spec_codepoints(d: Seq<u8>) -> Seq<u32> {
    if !in_bounds(d, 12, 8) {
        Seq::empty()
    } else {
        let first = u32_at(d, 12) as int;
        let count = u32_at(d, 16) as int;
        let n = if first + count <= 0x1_0000_0000 { count } else { 0x1_0000_0000 - first };
        Seq::new(n as nat, |j: int| (first + j) as u32)
    }
}

/// Maps a code point to a glyph ID.
pub fn parse(data: &[u8], code_point: u32) -> (r: Option<u16>)
    ensures
        r == spec_glyph(data@, code_point),
{
    let mut s = Stream::new(data);
    s.advance(12); // format + reserved + length + language
    let first_code_point = match s.read_u32() {
        Some(v) => v,
        None => return None,
    };
    let count = match s.read_u32() {
        Some(v) => v,
        None => return None,
    };
    let glyphs = match s.read_array(count, 2) {
        Some(g) => g,
        None => return None,
    };
    if code_point < first_code_point {
        return None;
    }
    let idx = code_point - first_code_point;
    if idx >= count {
        return None;
    }
    assert(glyphs@.subrange(2 * idx as int, 2 * idx + 2) =~= data@.subrange(20 + 2 * idx, 22 + 2 * idx));
    assert(glyphs@.len() == glyphs.len());
    let r = read_u16_at(glyphs, 2 * idx as usize);
    assert(u16_at(glyphs@, 2 * idx as int) == u16_at(data@, 20 + 2 * idx as int));
    r
}

/// Lists the code points of the subtable.
pub fn codepoints(data: &[u8]) -> (r: Vec<u32>)
    ensures
        r@ == spec_codepoints(data@),
{
    let mut out: Vec<u32> = Vec::new();
    let first = match read_u32_at(data, 12) {
        Some(v) => v,
        None => return out,
    };
    let count = match read_u32_at(data, 16) {
        Some(v) => v,
        None => return out,
    };
    let mut i: u32 = 0;
    while i < count
        invariant
            0 <= i <= count,
            first + i <= 0x1_0000_0000,
            out@ == Seq::new(i as nat, |j: int| (first + j) as u32),
        ensures
            i == count || first + i == 0x1_0000_0000,
            out@ == Seq::new(i as nat, |j: int| (first + j) as u32),
        decreases count - i,
    {
        if first as u64 + i as u64 > 0xFFFF_FFFF {
            break;
        }
        out.push(first + i);
        i = i + 1;
        assert(out@ =~= Seq::new(i as nat, |j: int| (first + j) as u32));
    }
    assert(out@ =~= spec_codepoints(data@));
    out
}

/// With the whole glyph array present, every code point a format 10 subtable
/// lists has a glyph, and every code point with a glyph is listed.
pub proof fn lemma_codepoints_are_mapped(d: Seq<u8>, cp: u32)
    requires
        in_bounds(d, 12, 8),
        in_bounds(d, 20, 2 * u32_at(d, 16)),
    ensures
        spec_codepoints(d).contains(cp) <==> spec_glyph(d, cp) is Some,
{
    let first = u32_at(d, 12) as int;
    let s = spec_codepoints(d);
    if spec_glyph(d, cp) is Some {
        assert(s[cp - first] == cp);
    }
    if s.contains(cp) {
        let k = choose|k: int| 0 <= k < s.len() && s[k] == cp;
        assert(s[k] == (first + k) as u32);
    }
}

/// A format 10 subtable maps each code point of `first..first + count` (the
/// 32-bit numbers at bytes 12 and 16) to the 16-bit glyph ID at
/// `20 + 2 * (cp - first)`, and no other code point.
pub proof fn lemma_trimmed_array_glyph(d: Seq<u8>, cp: u32)
    requires
        20 + 2 * be_u32(d, 16) <= d.len(),
    ensures
        be_u32(d, 12) <= cp < be_u32(d, 12) + be_u32(d, 16) ==> spec_glyph(d, cp) == Some(
            be_u16(d, 20 + 2 * (cp - be_u32(d, 12))) as u16,
        ),
        !(be_u32(d, 12) <= cp < be_u32(d, 12) + be_u32(d, 16)) ==> spec_glyph(d, cp) is None,
{
}

} // verus!
