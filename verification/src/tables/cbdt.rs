//! A [Color Bitmap Data Table](
//! https://docs.microsoft.com/en-us/typography/opentype/spec/cbdt) implementation.

use vstd::prelude::*;
use crate::{GlyphId, RasterGlyphImage, RasterImageFormat};
use crate::parser::{in_bounds, i8_at, u32_at, read_u8_at, read_u32_at, bytes_at};
use super::cblc::{BitmapFormat, Location, find_location, spec_find_location};

verus! {

/// The image that the bitmap data at `o` of `d`, stored in format `f`, holds,
/// for a strike of `ppem` pixels per em.
pub open spec fn spec_image(d: Seq<u8>, f: BitmapFormat, o: int, ppem: u16)
    -> Option<(i16, i16, u16, u16, u16, RasterImageFormat, Seq<u8>)>
{
    match f {
        BitmapFormat::Format17 => if in_bounds(d, o, 9) && in_bounds(d, o + 9, u32_at(d, o + 5) as int) {
            Some((
                i8_at(d, o + 2) as i16,
                (i8_at(d, o + 3) - d[o]) as i16,
                d[o + 1] as u16,
                d[o] as u16,
                ppem,
                RasterImageFormat::PNG,
                d.subrange(o + 9, o + 9 + u32_at(d, o + 5)),
            ))
        } else {
            None
        },
        BitmapFormat::Format18 => if in_bounds(d, o, 12) && in_bounds(d, o + 12, u32_at(d, o + 8) as int) {
            Some((
                i8_at(d, o + 2) as i16,
                (i8_at(d, o + 3) - d[o]) as i16,
                d[o + 1] as u16,
                d[o] as u16,
                ppem,
                RasterImageFormat::PNG,
                d.subrange(o + 12, o + 12 + u32_at(d, o + 8)),
            ))
        } else {
            None
        },
        BitmapFormat::Format19 => if in_bounds(d, o, 4) && in_bounds(d, o + 4, u32_at(d, o) as int) {
            Some((0, 0, 0, 0, ppem, RasterImageFormat::PNG, d.subrange(o + 4, o + 4 + u32_at(d, o))))
        } else {
            None
        },
    }
}

/// A [Color Bitmap Data Table](
/// https://docs.microsoft.com/en-us/typography/opentype/spec/cbdt).
#[derive(Clone, Copy, Debug)]
pub struct Table<'a> {
    /// The `CBLC` table, which locates the bitmaps.
    pub locations: &'a [u8],
    /// The `CBDT` table, which holds them.
    pub data: &'a [u8],
}

impl<'a> Table<'a> {
    /// Parses a table from raw data.
    pub fn parse(locations: &'a [u8], data: &'a [u8]) -> (r: Option<Table<'a>>)
        ensures
            r matches Some(t) && t.locations@ == locations@ && t.data@ == data@,
    {
        Some(Table { locations, data })
    }

    /// Returns a raster image for the glyph.
    pub fn get(&self, glyph_id: GlyphId, pixels_per_em: u16) -> (r: Option<RasterGlyphImage<'a>>)
        ensures
            match spec_find_location(self.locations@, glyph_id.0, pixels_per_em) {
                Some(l) => match r {
                    Some(img) => spec_image(self.data@, l.0, l.1, l.2) == Some(img@),
                    None => spec_image(self.data@, l.0, l.1, l.2) is None,
                },
                None => r is None,
            },
    {
        let location = match find_location(self.locations, glyph_id, pixels_per_em) {
            Some(l) => l,
            None => return None,
        };
        let d = self.data;
        let o = location.offset;
        assert(d@.len() == d.len());
        match location.format {
            BitmapFormat::Format17 => {
                if o > d.len() || d.len() - o < 9 {
                    return None;
                }
                let height = d[o];
                let width = d[o + 1];
                let bearing_x = d[o + 2];
                let bearing_y = d[o + 3];
                // advance
                let data_len = match read_u32_at(d, o + 5) {
                    Some(v) => v,
                    None => return None,
                };
                let image = match bytes_at(d, o + 9, data_len as usize) {
                    Some(b) => b,
                    None => return None,
                };
                let bx = signed_byte(bearing_x);
                let by = signed_byte(bearing_y);
                Some(RasterGlyphImage {
                    x: bx as i16,
                    // `y` in CBDT is a bottom bound, not top one.
                    y: by as i16 - height as i16,
                    width: width as u16,
                    height: height as u16,
                    pixels_per_em: location.ppem,
                    format: RasterImageFormat::PNG,
                    data: image,
                })
            },
            BitmapFormat::Format18 => {
                if o > d.len() || d.len() - o < 12 {
                    return None;
                }
                let height = d[o];
                let width = d[o + 1];
                let bearing_x = d[o + 2];
                let bearing_y = d[o + 3];
                // horizontal advance, vertical bearings and vertical advance
                let data_len = match read_u32_at(d, o + 8) {
                    Some(v) => v,
                    None => return None,
                };
                let image = match bytes_at(d, o + 12, data_len as usize) {
                    Some(b) => b,
                    None => return None,
                };
                let bx = signed_byte(bearing_x);
                let by = signed_byte(bearing_y);
                Some(RasterGlyphImage {
                    x: bx as i16,
                    // `y` in CBDT is a bottom bound, not top one.
                    y: by as i16 - height as i16,
                    width: width as u16,
                    height: height as u16,
                    pixels_per_em: location.ppem,
                    format: RasterImageFormat::PNG,
                    data: image,
                })
            },
            BitmapFormat::Format19 => {
                let data_len = match read_u32_at(d, o) {
                    Some(v) => v,
                    None => return None,
                };
                let image = match bytes_at(d, o + 4, data_len as usize) {
                    Some(b) => b,
                    None => return None,
                };
                let m = location.metrics;
                Some(RasterGlyphImage {
                    x: m.x as i16,
                    // `y` in CBDT is a bottom bound, not top one.
                    y: m.y as i16 - m.height as i16,
                    width: m.width as u16,
                    height: m.height as u16,
                    pixels_per_em: location.ppem,
                    format: RasterImageFormat::PNG,
                    data: image,
                })
            },
        }
    }
}

/// Reinterprets a byte as a signed value.
fn signed_byte(b: u8) -> (r: i8)
    ensures
        r == (if b >= 0x80 { b as int - 0x100 } else { b as int }),
{
    if b >= 0x80 {
        (b as i16 - 0x100) as i8
    } else {
        b as i8
    }
}

} // verus!
