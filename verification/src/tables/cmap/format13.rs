//! [Many-to-one range mappings](https://docs.microsoft.com/en-us/typography/opentype/spec/cmap#format-13-many-to-one-range-mappings).
//!
//! The layout is that of format 12; only the glyph mapping differs.

use vstd::prelude::*;
use super::format12::{groups_ok, first_group, start_glyph, spec_codepoints as f12_codepoints, find_group, lemma_group_ok, lemma_first_group_range};
use crate::parser::{read_u32_at, Stream};

verus! {

/// The glyph a format 13 subtable maps `cp` to: the glyph of the first group
/// containing it, the same for the whole group.
pub open spec fn spec_glyph(d: Seq<u8>, cp: u32) -> Option<u16> {
    if !groups_ok(d) {
        None
    } else {
        match first_group(d, cp as int, 0) {
            None => None,
            Some(i) => if start_glyph(d, i) > 0xFFFF {
                None
            } else {
                Some(start_glyph(d, i) as u16)
            },
        }
    }
}

/// The code points of a format 13 subtable: those of format 12.
pub open spec fn spec_codepoints(d: Seq<u8>) -> Seq<u32> {
    f12_codepoints(d)
}

/// Maps a code point to a glyph ID.
pub fn parse(data: &[u8], code_point: u32) -> (r: Option<u16>)
    ensures
        r == spec_glyph(data@, code_point),
{
    let mut s = Stream::new(data);
    s.advance(12); // format + reserved + length + language
    let count = match s.read_u32() {
        Some(v) => v,
        None => return None,
    };
    match s.read_array(count, 12) {
        Some(_) => {},
        None => return None,
    }
    let i = match find_group(data, code_point) {
        Some(i) => i,
        None => return None,
    };
    proof {
        lemma_group_ok(data@, i as int);
        lemma_first_group_range(data@, code_point as int, 0);
    }
    assert(data@.len() == data.len());
    let start_glyph_id = match read_u32_at(data, 24 + 12 * i as usize) {
        Some(v) => v,
        None => return None,
    };
    if start_glyph_id > 0xFFFF {
        None
    } else {
        Some(start_glyph_id as u16)
    }
}

/// Lists the code points of all groups.
pub fn codepoints(data: &[u8]) -> (r: Vec<u32>)
    ensures
        r@ == spec_codepoints(data@),
{
    super::format12::codepoints(data)
}

} // verus!
