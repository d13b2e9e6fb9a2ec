//! Vertical origins from a [Vertical Origin Table](
//! https://docs.microsoft.com/en-us/typography/opentype/spec/vorg).

use vstd::prelude::*;
use crate::GlyphId;
use crate::parser::{in_bounds, u16_at, i16_at, u32_at, key_at, keys_sorted, bsearch, binary_search,
    lemma_bsearch_finds, lemma_bsearch_sound, lemma_bsearch_range, read_i16_at, Stream};

verus! {

/// A [Vertical Origin Table](https://docs.microsoft.com/en-us/typography/opentype/spec/vorg).
#[derive(Clone, Copy, Debug)]
pub struct Table<'a> {
    /// The origin of glyphs without a record of their own.
    pub default_y: i16,
    /// The records: glyph ID and origin, four bytes each, sorted by glyph ID.
    pub origins: &'a [u8],
    /// Number of records.
    pub count: u16,
}

/// The table is of version 1.0 and its records fit.
pub open spec fn table_ok(d: Seq<u8>) -> bool {
    in_bounds(d, 0, 8) && u32_at(d, 0) == 0x00010000 && in_bounds(d, 8, 4 * u16_at(d, 6))
}

impl<'a> Table<'a> {
    /// Parses a table from raw data.
    pub fn parse(data: &'a [u8]) -> (r: Option<Table<'a>>)
        ensures
            r is Some <==> table_ok(data@),
            r matches Some(t) ==> {
                &&& t.default_y == i16_at(data@, 4)
                &&& t.count == u16_at(data@, 6)
                &&& t.origins@ == data@.subrange(8, 8 + 4 * u16_at(data@, 6))
            },
    {
        let mut s = Stream::new(data);
        let version = match s.read_u32() {
            Some(v) => v,
            None => return None,
        };
        if version != 0x00010000 {
            return None;
        }
        let default_y = match s.read_i16() {
            Some(v) => v,
            None => return None,
        };
        let count = match s.read_u16() {
            Some(v) => v,
            None => return None,
        };
        let origins = match s.read_array(count as u32, 4) {
            Some(b) => b,
            None => return None,
        };
        Some(Table { default_y, origins, count })
    }

    /// Returns the vertical origin of the glyph: that of its record, found by
    /// binary search, or the default one (also when the records are not all
    /// there).
    pub fn glyph_y_origin(&self, glyph_id: GlyphId) -> (r: i16)
        ensures
            !in_bounds(self.origins@, 0, 4 * self.count) ==> r == self.default_y,
            in_bounds(self.origins@, 0, 4 * self.count) ==> r == (match bsearch(
                self.origins@,
                0,
                self.count as int,
                4,
                2,
                glyph_id.0 as int,
            ) {
                Some(i) => i16_at(self.origins@, 4 * i + 2),
                None => self.default_y,
            }),
    {
        if self.origins.len() / 4 < self.count as usize {
            return self.default_y;
        }
        match binary_search(self.origins, 0, self.count as u32, 4, 2, glyph_id.0 as u32) {
            Some(i) => {
                assert(self.origins@.len() == self.origins.len());
                match read_i16_at(self.origins, 4 * i as usize + 2) {
                    Some(v) => v,
                    None => self.default_y,
                }
            },
            None => self.default_y,
        }
    }
}

/// When the origin records are sorted by glyph, a glyph with a record has
/// the record's origin and any other glyph the default one.
pub proof fn lemma_origin_of_sorted_records(t: Table, glyph: u16)
    requires
        in_bounds(t.origins@, 0, 4 * t.count),
        keys_sorted(t.origins@, 0, t.count as int, 4, 2),
    ensures
        forall|i: int| 0 <= i < t.count && #[trigger] key_at(t.origins@, 0, 4, 2, i) == glyph
            ==> (match bsearch(t.origins@, 0, t.count as int, 4, 2, glyph as int) {
                Some(k) => i16_at(t.origins@, 4 * k + 2),
                None => t.default_y,
            }) == i16_at(t.origins@, 4 * i + 2),
        (forall|i: int| 0 <= i < t.count ==> #[trigger] key_at(t.origins@, 0, 4, 2, i) != glyph)
            ==> bsearch(t.origins@, 0, t.count as int, 4, 2, glyph as int) is None,
{
    let n = t.count as int;
    assert forall|i: int| 0 <= i < n && #[trigger] key_at(t.origins@, 0, 4, 2, i) == glyph
        implies bsearch(t.origins@, 0, n, 4, 2, glyph as int) == Some(i) by {
        lemma_bsearch_finds(t.origins@, 0, n, 4, 2, i);
    }
    lemma_bsearch_sound(t.origins@, 0, n, 4, 2, glyph as int);
    lemma_bsearch_range(t.origins@, 0, n, 4, 2, glyph as int);
}

} // verus!
