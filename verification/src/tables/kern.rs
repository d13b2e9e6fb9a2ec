//! Pair kerning from a [Kerning Table](https://docs.microsoft.com/en-us/typography/opentype/spec/kern).

use vstd::prelude::*;
use crate::GlyphId;
use crate::parser::{in_bounds, u16_at, i16_at, key_at, keys_sorted, bsearch, binary_search, lemma_bsearch_finds,
    lemma_bsearch_sound, read_i16_at, Stream};

verus! {

/// The first subtable of the `kern` table `d` is a horizontal format 0
/// subtable whose pair array fits: version 0, at least one subtable, format
/// byte at 8 zero and the horizontal bit of the coverage byte at 9 set.
pub open spec fn pairs_ok(d: Seq<u8>) -> bool {
    &&& in_bounds(d, 0, 12)
    &&& u16_at(d, 0) == 0
    &&& u16_at(d, 2) != 0
    &&& d[9] % 2 == 1
    &&& d[8] == 0
    &&& in_bounds(d, 18, 6 * u16_at(d, 10))
}

/// The 32-bit key of a glyph pair: the left glyph in the high half.
pub open spec fn pair_key(left: u16, right: u16) -> int {
    left * 0x10000 + right
}

/// The kerning value of the pair, found by binary search over the pair records.
pub open spec fn spec_glyphs_kerning(d: Seq<u8>, left: u16, right: u16) -> Option<i16> {
    if !pairs_ok(d) {
        None
    } else {
        match bsearch(d, 18, u16_at(d, 10) as int, 6, 4, pair_key(left, right)) {
            Some(i) => Some(i16_at(d, 18 + 6 * i + 4)),
            None => None,
        }
    }
}

/// Returns the kerning value of a glyph pair from the first subtable of a
/// `kern` table, when that subtable is horizontal and of format 0.
pub fn glyphs_kerning(kern_table: &[u8], glyph_id1: GlyphId, glyph_id2: GlyphId) -> (r: Option<i16>)
    ensures
        r == spec_glyphs_kerning(kern_table@, glyph_id1.0, glyph_id2.0),
{
    let data = kern_table;
    let mut s = Stream::new(data);
    let version = match s.read_u16() {
        Some(v) => v,
        None => return None,
    };
    if version != 0 {
        return None;
    }
    let number_of_subtables = match s.read_u16() {
        Some(v) => v,
        None => return None,
    };
    // Only the first subtable is looked at.
    if number_of_subtables == 0 {
        return None;
    }
    s.advance(4); // subtable version + length
    let format = match s.read_u8() {
        Some(v) => v,
        None => return None,
    };
    let coverage = match s.read_u8() {
        Some(v) => v,
        None => return None,
    };
    assert(coverage & 1 == 1 <==> coverage % 2 == 1) by (bit_vector);
    if coverage & 1 != 1 {
        return None;
    }
    if format != 0 {
        return None;
    }
    let number_of_pairs = match s.read_u16() {
        Some(v) => v,
        None => return None,
    };
    s.advance(6); // search range + entry selector + range shift
    if s.read_array(number_of_pairs as u32, 6).is_none() {
        return None;
    }
    let needle: u32 = (glyph_id1.0 as u32) * 0x10000 + glyph_id2.0 as u32;
    match binary_search(data, 18, number_of_pairs as u32, 6, 4, needle) {
        Some(i) => {
            assert(data@.len() == data.len());
            read_i16_at(data, 18 + 6 * i as usize + 4)
        },
        None => None,
    }
}

/// When the pair records are sorted by pair, the kerning value of a listed
/// pair is that of its record, and a pair that no record lists has none.
pub proof fn lemma_kerning_of_sorted_pairs(d: Seq<u8>, left: u16, right: u16)
    requires
        pairs_ok(d),
        keys_sorted(d, 18, u16_at(d, 10) as int, 6, 4),
    ensures
        forall|i: int| 0 <= i < u16_at(d, 10) && #[trigger] key_at(d, 18, 6, 4, i) == pair_key(left, right)
            ==> spec_glyphs_kerning(d, left, right) == Some(i16_at(d, 18 + 6 * i + 4)),
        spec_glyphs_kerning(d, left, right) is Some ==> exists|i: int| 0 <= i < u16_at(d, 10)
            && #[trigger] key_at(d, 18, 6, 4, i) == pair_key(left, right),
{
    let n = u16_at(d, 10) as int;
    assert forall|i: int| 0 <= i < n && #[trigger] key_at(d, 18, 6, 4, i) == pair_key(left, right)
        implies spec_glyphs_kerning(d, left, right) == Some(i16_at(d, 18 + 6 * i + 4)) by {
        lemma_bsearch_finds(d, 18, n, 6, 4, i);
    }
    lemma_bsearch_sound(d, 18, n, 6, 4, pair_key(left, right));
    crate::parser::lemma_bsearch_range(d, 18, n, 6, 4, pair_key(left, right));
}

} // verus!
