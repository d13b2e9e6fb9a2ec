//! [Byte encoding table](https://docs.microsoft.com/en-us/typography/opentype/spec/cmap#format-0-byte-encoding-table).

use vstd::prelude::*;
use crate::parser::{in_bounds, Stream};

verus! {

/// The glyph a format 0 subtable maps `cp` to: the byte at `6 + cp`, unless it is zero.
pub open spec fn spec_glyph(d: Seq<u8>, cp: u32) -> Option<u16> {
    let off = 6 + cp as int;
    if in_bounds(d, off, 1) && d[off] != 0 {
        Some(d[off] as u16)
    } else {
        None
    }
}

/// The code points a format 0 subtable defines: those of the 256 entries whose
/// glyph is not zero, in ascending order; nothing when the array is truncated.
pub open spec fn spec_codepoints(d: Seq<u8>) -> Seq<u32> {
    if in_bounds(d, 6, 256) {
        spec_codepoints_from(d, 0)
    } else {
        Seq::empty()
    }
}

pub open spec fn spec_codepoints_from(d: Seq<u8>, i: int) -> Seq<u32>
    decreases 256 - i,
{
    if i >= 256 || i < 0 {
        Seq::empty()
    } else if d[6 + i] != 0 {
        seq![i as u32] + spec_codepoints_from(d, i + 1)
    } else {
        spec_codepoints_from(d, i + 1)
    }
}

/// Maps a code point to a glyph ID.
pub fn parse(data: &[u8], code_point: u32) -> (r: Option<u16>)
    ensures
        r == spec_glyph(data@, code_point),
{
    let mut s = Stream::new(data);
    s.advance(6); // format + length + language
    s.advance(code_point as usize);
    let glyph_id = match s.read_u8() {
        Some(v) => v,
        None => return None,
    };
    // The array always has 256 entries, but some code points may map to zero.
    if glyph_id != 0 {
        Some(glyph_id as u16)
    } else {
        None
    }
}

/// Lists the code points with a non-zero glyph.
pub fn codepoints(data: &[u8]) -> (r: Vec<u32>)
    ensures
        r@ == spec_codepoints(data@),
{
    let mut out: Vec<u32> = Vec::new();
    if !(data.len() >= 6 && data.len() - 6 >= 256) {
        return out;
    }
    let mut i: usize = 0;
    while i < 256
        invariant
            in_bounds(data@, 6, 256),
            0 <= i <= 256,
            out@ + spec_codepoints_from(data@, i as int) == spec_codepoints_from(data@, 0),
        decreases 256 - i,
    {
        if data[6 + i] != 0 {
            out.push(i as u32);
            assert(out@ + spec_codepoints_from(data@, i + 1) =~= spec_codepoints_from(data@, 0));
        }
        i = i + 1;
    }
    assert(spec_codepoints_from(data@, 256) =~= Seq::<u32>::empty());
    assert(out@ =~= out@ + spec_codepoints_from(data@, 256));
    out
}

proof fn lemma_codepoints_from(d: Seq<u8>, i: int, cp: u32)
    requires
        in_bounds(d, 6, 256),
        0 <= i,
    ensures
        spec_codepoints_from(d, i).contains(cp) <==> (i <= cp && cp < 256 && d[6 + cp] != 0),
    decreases 256 - i,
{
    if i < 256 {
        lemma_codepoints_from(d, i + 1, cp);
        let rest = spec_codepoints_from(d, i + 1);
        if d[6 + i] != 0 {
            let s = seq![i as u32] + rest;
            assert(s.contains(cp) <==> (cp == i as u32 || rest.contains(cp))) by {
                if s.contains(cp) {
                    let k = choose|k: int| 0 <= k < s.len() && s[k] == cp;
                    if k > 0 {
                        assert(rest[k - 1] == cp);
                    }
                }
                if rest.contains(cp) {
                    let k = choose|k: int| 0 <= k < rest.len() && rest[k] == cp;
                    assert(s[k + 1] == cp);
                }
                if cp == i as u32 {
                    assert(s[0] == cp);
                }
            }
        }
    } else {
        assert(spec_codepoints_from(d, i) =~= Seq::<u32>::empty());
    }
}

/// With the whole glyph array present, the code points a format 0 subtable
/// lists are exactly those that it maps to a glyph. (Past the array, bytes
/// that follow the subtable would be read as glyphs of code points 256 and up.)
pub proof fn lemma_codepoints_are_mapped(d: Seq<u8>, cp: u32)
    requires
        in_bounds(d, 6, 256),
        cp < 256 || d.len() <= 262,
    ensures
        spec_codepoints(d).contains(cp) <==> spec_glyph(d, cp) is Some,
{
    lemma_codepoints_from(d, 0, cp);
}

} // verus!
