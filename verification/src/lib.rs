//! A safe, zero-copy parser for TrueType and OpenType font tables.
//!
//! Every table parser works on raw big-endian byte slices and states, over the
//! byte sequence of the table, exactly which values it returns.

pub mod font;
pub mod opentype_layout;
pub mod parser;
pub mod tables;

use vstd::prelude::*;

verus! {

/// A glyph index in a font.
#[derive(Clone, Copy, PartialEq, Eq, Structural, Debug, Hash, Default)]
pub struct GlyphId(pub u16);

/// A 4-byte OpenType tag, stored as a big-endian number.
#[derive(Clone, Copy, PartialEq, Eq, Structural, Debug, Hash, Default)]
pub struct Tag(pub u32);

impl Tag {
    /// Builds a tag from four bytes, first byte most significant.
    pub fn from_bytes(b0: u8, b1: u8, b2: u8, b3: u8) -> (t: Tag)
        ensures
            t.0 == b0 as int * 0x1000000 + b1 as int * 0x10000 + b2 as int * 0x100 + b3 as int,
    {
        Tag(b0 as u32 * 0x1000000 + b1 as u32 * 0x10000 + b2 as u32 * 0x100 + b3 as u32)
    }
}

/// A 16.16 fixed-point number, kept as its raw 32-bit value.
#[derive(Clone, Copy, PartialEq, Eq, Structural, Debug, Hash, Default)]
pub struct Fixed(pub i32);

/// An RGBA color.
#[derive(Clone, Copy, PartialEq, Eq, Structural, Debug)]
pub struct RgbaColor {
    pub red: u8,
    pub green: u8,
    pub blue: u8,
    pub alpha: u8,
}

impl RgbaColor {
    /// Creates a new `RgbaColor`.
    pub fn new(red: u8, green: u8, blue: u8, alpha: u8) -> (r: RgbaColor)
        ensures
            r == (RgbaColor { red, green, blue, alpha }),
    {
        RgbaColor { red, green, blue, alpha }
    }
}

/// A 2D affine transform, each coefficient a 16.16 fixed-point number.
#[derive(Clone, Copy, PartialEq, Eq, Structural, Debug)]
pub struct Transform {
    pub a: Fixed,
    pub b: Fixed,
    pub c: Fixed,
    pub d: Fixed,
    pub e: Fixed,
    pub f: Fixed,
}

/// Line metrics: used by underline and strikeout.
#[derive(Clone, Copy, PartialEq, Eq, Structural, Debug, Hash)]
pub struct LineMetrics {
    /// Line position.
    pub position: i16,
    /// Line thickness.
    pub thickness: i16,
}

/// A rectangle in font units.
#[derive(Clone, Copy, PartialEq, Eq, Structural, Debug, Hash)]
pub struct Rect {
    pub x_min: i16,
    pub y_min: i16,
    pub x_max: i16,
    pub y_max: i16,
}

/// An image format used by [`RasterGlyphImage`].
#[derive(Clone, Copy, PartialEq, Eq, Structural, Debug)]
pub enum RasterImageFormat {
    PNG,
}

/// A glyph's raster image.
///
/// Note, that glyph metrics are in pixels and not in font units.
#[derive(Clone, Copy, Debug)]
pub struct RasterGlyphImage<'a> {
    /// Horizontal offset.
    pub x: i16,
    /// Vertical offset.
    pub y: i16,
    /// Image width.
    pub width: u16,
    /// Image height.
    pub height: u16,
    /// A pixels per em of the selected strike.
    pub pixels_per_em: u16,
    /// An image format.
    pub format: RasterImageFormat,
    /// A raw image data. It's up to the caller to decode it.
    pub data: &'a [u8],
}

impl<'a> View for RasterGlyphImage<'a> {
    type V = (i16, i16, u16, u16, u16, RasterImageFormat, Seq<u8>);

    open spec fn view(&self) -> Self::V {
        (self.x, self.y, self.width, self.height, self.pixels_per_em, self.format, self.data@)
    }
}

} // verus!
