//! A [Color Palette Table](
//! https://docs.microsoft.com/en-us/typography/opentype/spec/cpal) implementation.

use vstd::prelude::*;
use crate::parser::{be_u16, in_bounds, u16_at, u32_at, read_u8_at, read_u16_at, read_u32_at, bytes_at};

verus! {

/// A BGRA color in sRGB.
#[derive(Clone, Copy, PartialEq, Eq, Structural, Debug)]
pub struct Color {
    pub blue: u8,
    pub green: u8,
    pub red: u8,
    pub alpha: u8,
}

/// The color record at `p` of `d`.
pub open spec fn color_at(d: Seq<u8>, p: int) -> Color {
    Color { blue: d[p], green: d[p + 1], red: d[p + 2], alpha: d[p + 3] }
}

/// A [Color Palette Table](
/// https://docs.microsoft.com/en-us/typography/opentype/spec/cpal).
#[derive(Clone, Copy, Debug)]
pub struct Table<'a> {
    /// The index of the first color of each palette, two bytes each.
    pub color_indices: &'a [u8],
    /// The color records, four bytes each.
    pub colors: &'a [u8],
}

/// The table is of version 0 or 1 and its palette indices and color records fit.
pub open spec fn table_ok(d: Seq<u8>) -> bool {
    &&& in_bounds(d, 0, 12)
    &&& u16_at(d, 0) <= 1
    &&& in_bounds(d, 12, 2 * u16_at(d, 4))
    &&& in_bounds(d, u32_at(d, 8) as int, 4 * u16_at(d, 6))
}

/// The color of entry `entry` of palette `palette`.
pub open spec fn spec_color(t: Table, palette: u16, entry: u16) -> Option<Color> {
    if !in_bounds(t.color_indices@, 2 * palette, 2) {
        None
    } else {
        let index = u16_at(t.color_indices@, 2 * palette) + entry;
        if index > 0xFFFF || !in_bounds(t.colors@, 4 * index, 4) {
            None
        } else {
            Some(color_at(t.colors@, 4 * index))
        }
    }
}

impl<'a> Table<'a> {
    /// Parses a table from raw data.
    pub fn parse(data: &'a [u8]) -> (r: Option<Table<'a>>)
        ensures
            r is Some <==> table_ok(data@),
            r matches Some(t) ==> {
                &&& t.color_indices@ == data@.subrange(12, 12 + 2 * u16_at(data@, 4))
                &&& t.colors@ == data@.subrange(
                    u32_at(data@, 8) as int,
                    u32_at(data@, 8) + 4 * u16_at(data@, 6),
                )
            },
    {
        let version = match read_u16_at(data, 0) {
            Some(v) => v,
            None => return None,
        };
        if version > 1 {
            return None;
        }
        let num_palettes = match read_u16_at(data, 4) {
            Some(v) => v,
            None => return None,
        };
        let num_colors = match read_u16_at(data, 6) {
            Some(v) => v,
            None => return None,
        };
        let color_records_offset = match read_u32_at(data, 8) {
            Some(v) => v,
            None => return None,
        };
        let color_indices = match bytes_at(data, 12, 2 * num_palettes as usize) {
            Some(b) => b,
            None => return None,
        };
        assert(data@.len() == data.len());
        if color_records_offset as u64 > data.len() as u64 {
            return None;
        }
        let colors = match bytes_at(data, color_records_offset as usize, 4 * num_colors as usize) {
            Some(b) => b,
            None => return None,
        };
        Some(Table { color_indices, colors })
    }

    /// Returns the color at the given index into the given palette.
    pub fn get(&self, palette: u16, palette_entry: u16) -> (r: Option<Color>)
        ensures
            r == spec_color(*self, palette, palette_entry),
    {
        let first = match read_u16_at(self.color_indices, 2 * palette as usize) {
            Some(v) => v,
            None => return None,
        };
        let index = match first.checked_add(palette_entry) {
            Some(v) => v,
            None => return None,
        };
        let c = self.colors;
        let p = 4 * index as usize;
        assert(c@.len() == c.len());
        if p > c.len() || c.len() - p < 4 {
            return None;
        }
        let blue = c[p];
        let green = c[p + 1];
        let red = c[p + 2];
        let alpha = c[p + 3];
        Some(Color { blue, green, red, alpha })
    }
}

/// Entry `e` of palette `p` is color record `first + e`, where `first` is
/// the palette's first color index (the 16-bit number at `2p` of the
/// indices); a record is four bytes, blue, green, red and alpha.
pub proof fn lemma_palette_entry(t: Table, p: u16, e: u16)
    requires
        2 * p + 2 <= t.color_indices@.len(),
    ensures
        ({
            let k = be_u16(t.color_indices@, 2 * p) + e;
            &&& k <= 0xFFFF && 4 * k + 4 <= t.colors@.len() ==> spec_color(t, p, e) == Some(
                Color {
                    blue: t.colors@[4 * k],
                    green: t.colors@[4 * k + 1],
                    red: t.colors@[4 * k + 2],
                    alpha: t.colors@[4 * k + 3],
                },
            )
            &&& (k > 0xFFFF || 4 * k + 4 > t.colors@.len()) ==> spec_color(t, p, e) is None
        }),
{
}

} // verus!
