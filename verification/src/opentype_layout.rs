//! Common OpenType layout structures.

use vstd::prelude::*;
use crate::GlyphId;
use crate::parser::{in_bounds, u16_at, read_u16_at, bsearch, binary_search, key_at, keys_sorted,
    lemma_bsearch_finds, lemma_bsearch_sound, lemma_bsearch_range};

verus! {

/// The bytes hold a coverage table of a known format whose glyph array
/// (format 1) or range records (format 2) lie inside them.
pub open spec fn coverage_ok(d: Seq<u8>) -> bool {
    &&& in_bounds(d, 0, 4)
    &&& {
        ||| u16_at(d, 0) == 1 && in_bounds(d, 4, 2 * u16_at(d, 2))
        ||| u16_at(d, 0) == 2 && in_bounds(d, 4, 6 * u16_at(d, 2))
    }
}

/// The coverage index that the first range record from `i` on that holds
/// `glyph` gives it: the record's start index plus the glyph's distance from
/// the start of the range, when that fits in 16 bits.
pub open spec fn range_index(d: Seq<u8>, count: int, glyph: u16, i: int) -> Option<u16>
    decreases count - i,
{
    if i < 0 || i >= count {
        None
    } else {
        let p = 4 + 6 * i;
        let start = u16_at(d, p);
        let end = u16_at(d, p + 2);
        let value = u16_at(d, p + 4);
        if start <= glyph && glyph <= end {
            if value + (glyph - start) <= 0xFFFF {
                Some((value + (glyph - start)) as u16)
            } else {
                None
            }
        } else {
            range_index(d, count, glyph, i + 1)
        }
    }
}

/// The coverage index of `glyph` in the coverage table `d`.
pub open spec fn coverage_index(d: Seq<u8>, glyph: u16) -> Option<u16> {
    if !coverage_ok(d) {
        None
    } else if u16_at(d, 0) == 1 {
        match bsearch(d, 4, u16_at(d, 2) as int, 2, 2, glyph as int) {
            Some(i) => Some(i as u16),
            None => None,
        }
    } else {
        range_index(d, u16_at(d, 2) as int, glyph, 0)
    }
}

/// A [Coverage Table](
/// https://docs.microsoft.com/en-us/typography/opentype/spec/chapter2#coverage-table).
#[derive(Clone, Copy, Debug)]
pub struct Coverage<'a> {
    /// The bytes of the table.
    pub data: &'a [u8],
}

impl<'a> Coverage<'a> {
    /// Parses a coverage table; fails on an unknown format or when the glyph
    /// array or the range records do not fit.
    pub fn parse(data: &'a [u8]) -> (r: Option<Coverage<'a>>)
        ensures
            r is Some <==> coverage_ok(data@),
            r matches Some(c) ==> c.data@ == data@,
    {
        let format = match read_u16_at(data, 0) {
            Some(v) => v,
            None => return None,
        };
        let count = match read_u16_at(data, 2) {
            Some(v) => v,
            None => return None,
        };
        let size: usize = if format == 1 {
            2
        } else if format == 2 {
            6
        } else {
            return None;
        };
        if count as usize * size <= data.len() - 4 {
            Some(Coverage { data })
        } else {
            None
        }
    }

    /// Checks that glyph is present.
    pub fn contains(&self, glyph: GlyphId) -> (r: bool)
        ensures
            r == coverage_index(self.data@, glyph.0) is Some,
    {
        self.get(glyph).is_some()
    }

    /// Returns the coverage index of the glyph or `None` if it is not covered.
    pub fn get(&self, glyph: GlyphId) -> (r: Option<u16>)
        ensures
            r == coverage_index(self.data@, glyph.0),
    {
        let data = self.data;
        let format = match read_u16_at(data, 0) {
            Some(v) => v,
            None => return None,
        };
        let count = match read_u16_at(data, 2) {
            Some(v) => v,
            None => return None,
        };
        if format == 1 {
            if count as usize * 2 > data.len() - 4 {
                return None;
            }
            match binary_search(data, 4, count as u32, 2, 2, glyph.0 as u32) {
                Some(i) => Some(i as u16),
                None => None,
            }
        } else if format == 2 {
            if count as usize * 6 > data.len() - 4 {
                return None;
            }
            let g = glyph.0;
            let mut i: u16 = 0;
            while i < count
                invariant
                    data@ == self.data@,
                    g == glyph.0,
                    in_bounds(data@, 4, 6 * count),
                    count == u16_at(data@, 2),
                    u16_at(data@, 0) == 2,
                    in_bounds(data@, 0, 4),
                    i <= count,
                    range_index(data@, count as int, g, 0) == range_index(data@, count as int, g, i as int),
                decreases count - i,
            {
                let p = 4 + 6 * i as usize;
                assert(data@.len() == data.len());
                let start = match read_u16_at(data, p) {
                    Some(v) => v,
                    None => return None,
                };
                let end = match read_u16_at(data, p + 2) {
                    Some(v) => v,
                    None => return None,
                };
                let value = match read_u16_at(data, p + 4) {
                    Some(v) => v,
                    None => return None,
                };
                assert(start == u16_at(data@, 4 + 6 * i) && end == u16_at(data@, 4 + 6 * i + 2)
                    && value == u16_at(data@, 4 + 6 * i + 4));
                if start <= g && g <= end {
                    assert(coverage_ok(data@));
                    let r = value.checked_add(g - start);
                    assert(r == range_index(data@, count as int, g, i as int));
                    return r;
                }
                i = i + 1;
            }
            None
        } else {
            None
        }
    }
}

/// In a format 1 coverage table whose glyphs are sorted in strictly ascending
/// order, a listed glyph's coverage index is its position in the list, and a
/// glyph that the list does not hold has none.
pub proof fn lemma_sorted_coverage_index(d: Seq<u8>, glyph: u16)
    requires
        coverage_ok(d),
        u16_at(d, 0) == 1,
        keys_sorted(d, 4, u16_at(d, 2) as int, 2, 2),
    ensures
        forall|i: int| 0 <= i < u16_at(d, 2) && #[trigger] key_at(d, 4, 2, 2, i) == glyph
            ==> coverage_index(d, glyph) == Some(i as u16),
        coverage_index(d, glyph) matches Some(i) ==> key_at(d, 4, 2, 2, i as int) == glyph,
{
    let n = u16_at(d, 2) as int;
    assert forall|i: int| 0 <= i < n && #[trigger] key_at(d, 4, 2, 2, i) == glyph
        implies coverage_index(d, glyph) == Some(i as u16) by {
        lemma_bsearch_finds(d, 4, n, 2, 2, i);
    }
    lemma_bsearch_sound(d, 4, n, 2, 2, glyph as int);
    lemma_bsearch_range(d, 4, n, 2, 2, glyph as int);
}

} // verus!
