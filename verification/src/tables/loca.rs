//! Glyph data ranges from an [Index to Location Table](
//! https://docs.microsoft.com/en-us/typography/opentype/spec/loca).

use vstd::prelude::*;
use core::ops::Range;
use crate::GlyphId;
use crate::parser::{in_bounds, u16_at, u32_at, be_u16, be_u32, read_u16_at, read_u32_at, bytes_at};
use super::head::IndexToLocationFormat;

verus! {

/// An [Index to Location Table](https://docs.microsoft.com/en-us/typography/opentype/spec/loca).
#[derive(Clone, Copy, Debug)]
pub struct Table<'a> {
    /// Whether offsets are stored halved in 16 bits or as they are in 32 bits.
    pub format: IndexToLocationFormat,
    /// The offsets.
    pub data: &'a [u8],
    /// Number of offsets.
    pub count: u16,
}

/// Bytes per offset in a format.
pub open spec fn offset_size(format: IndexToLocationFormat) -> int {
    match format {
        IndexToLocationFormat::Short => 2,
        IndexToLocationFormat::Long => 4,
    }
}

/// The number of offsets a table for `n` glyphs holds: one more than the
/// glyph count, capped at 65535.
pub open spec fn offset_count(n: u16) -> u16 {
    if n == 0xFFFF {
        n
    } else {
        (n + 1) as u16
    }
}

/// The offset of entry `i`, in bytes.
pub open spec fn offset_at(t: Table, i: int) -> int {
    match t.format {
        IndexToLocationFormat::Short => u16_at(t.data@, 2 * i) * 2,
        IndexToLocationFormat::Long => u32_at(t.data@, 4 * i) as int,
    }
}

/// The byte range of glyph `g` in the `glyf` table: from its offset to the
/// next one, when both exist and the range is not empty.
pub open spec fn spec_glyph_range(t: Table, g: u16) -> Option<(int, int)> {
    if g == 0xFFFF || g + 1 >= t.count || !in_bounds(t.data@, offset_size(t.format) * g,
        2 * offset_size(t.format)) {
        None
    } else if offset_at(t, g as int) >= offset_at(t, g + 1) {
        None
    } else {
        Some((offset_at(t, g as int), offset_at(t, g + 1)))
    }
}

impl<'a> Table<'a> {
    /// Parses a table for `number_of_glyphs` glyphs.
    pub fn parse(data: &'a [u8], number_of_glyphs: u16, format: IndexToLocationFormat) -> (r: Option<Table<'a>>)
        ensures
            r is Some <==> in_bounds(data@, 0, offset_size(format) * offset_count(number_of_glyphs)),
            r matches Some(t) ==> {
                &&& t.format == format
                &&& t.count == offset_count(number_of_glyphs)
                &&& t.data@ == data@.subrange(0, offset_size(format) * offset_count(number_of_glyphs))
            },
    {
        // The number of ranges is `maxp.numGlyphs + 1`, unless that overflows.
        let total: u16 = if number_of_glyphs == 0xFFFF {
            number_of_glyphs
        } else {
            number_of_glyphs + 1
        };
        let size: usize = match format {
            IndexToLocationFormat::Short => 2,
            IndexToLocationFormat::Long => 4,
        };
        match bytes_at(data, 0, size * total as usize) {
            Some(b) => Some(Table { format, data: b, count: total }),
            None => None,
        }
    }

    /// Number of offsets.
    pub fn len(&self) -> (r: u16)
        ensures
            r == self.count,
    {
        self.count
    }

    /// Returns the byte range of the glyph's data.
    pub fn glyph_range(&self, glyph_id: GlyphId) -> (r: Option<Range<usize>>)
        ensures
            match spec_glyph_range(*self, glyph_id.0) {
                Some(x) => r matches Some(range) && range.start == x.0 && range.end == x.1,
                None => r is None,
            },
    {
        let g = glyph_id.0;
        if g == 0xFFFF {
            return None;
        }
        // The glyph ID must be smaller than the number of offsets, less one.
        if g + 1 >= self.count {
            return None;
        }
        let d = self.data;
        let (start, end): (usize, usize) = match self.format {
            IndexToLocationFormat::Short => {
                let a = match read_u16_at(d, 2 * g as usize) {
                    Some(v) => v,
                    None => return None,
                };
                let b = match read_u16_at(d, 2 * g as usize + 2) {
                    Some(v) => v,
                    None => return None,
                };
                // The offset divided by 2 is stored.
                (a as usize * 2, b as usize * 2)
            },
            IndexToLocationFormat::Long => {
                let a = match read_u32_at(d, 4 * g as usize) {
                    Some(v) => v,
                    None => return None,
                };
                let b = match read_u32_at(d, 4 * g as usize + 4) {
                    Some(v) => v,
                    None => return None,
                };
                (a as usize, b as usize)
            },
        };
        // The offsets must be in ascending order, and a range cannot be empty.
        if start >= end {
            None
        } else {
            Some(start..end)
        }
    }
}

/// A glyph range is never empty: it starts before it ends.
pub proof fn lemma_glyph_range_not_empty(t: Table, g: u16)
    ensures
        spec_glyph_range(t, g) matches Some(r) ==> r.0 < r.1,
{
}

/// A glyph's range runs from its offset to the next glyph's: in the long
/// format the two full 32-bit big-endian offsets at `4g` and `4g + 4`, in the
/// short format twice the 16-bit offsets at `2g` and `2g + 2`. It exists
/// exactly when the glyph has a next offset, both are there and the first is
/// below the second.
pub proof fn lemma_glyph_range_offsets(t: Table, g: u16)
    ensures
        t.format == IndexToLocationFormat::Long ==> spec_glyph_range(t, g) == (if g + 1 < t.count
            && 4 * g + 8 <= t.data@.len() && be_u32(t.data@, 4 * g) < be_u32(t.data@, 4 * g + 4) {
            Some((be_u32(t.data@, 4 * g), be_u32(t.data@, 4 * g + 4)))
        } else {
            None
        }),
        t.format == IndexToLocationFormat::Short ==> spec_glyph_range(t, g) == (if g + 1 < t.count
            && 2 * g + 4 <= t.data@.len() && be_u16(t.data@, 2 * g) < be_u16(t.data@, 2 * g + 2) {
            Some((2 * be_u16(t.data@, 2 * g), 2 * be_u16(t.data@, 2 * g + 2)))
        } else {
            None
        }),
{
}

} // verus!
