//! A [Color Table](
//! https://docs.microsoft.com/en-us/typography/opentype/spec/colr) implementation.
//!
//! The table is decoded here; drawing a color glyph with the decoded paints,
//! which involves floating-point values, is left to the caller.

use vstd::prelude::*;
use core::ops::RangeInclusive;
use crate::{Fixed, GlyphId, RgbaColor, Transform};
use crate::parser::{in_bounds, u16_at, i16_at, u24_at, u32_at, i32_at, bsearch, binary_search,
    read_u8_at, read_u16_at, read_i16_at, read_u24_at, read_u32_at, read_i32_at, bytes_at, tail_from};
use super::cpal;
use super::cpal::spec_color;

verus! {

/// A [gradient extend](
/// https://learn.microsoft.com/en-us/typography/opentype/spec/colr#baseglyphlist-layerlist-and-cliplist).
#[derive(Clone, Copy, PartialEq, Eq, Structural, Debug)]
pub enum GradientExtend {
    Pad,
    Repeat,
    Reflect,
}

/// The gradient extend a byte stands for.
pub open spec fn gradient_extend(b: u8) -> Option<GradientExtend> {
    if b == 0 {
        Some(GradientExtend::Pad)
    } else if b == 1 {
        Some(GradientExtend::Repeat)
    } else if b == 2 {
        Some(GradientExtend::Reflect)
    } else {
        None
    }
}

impl GradientExtend {
    /// Decodes a gradient extend byte.
    pub fn parse(b: u8) -> (r: Option<GradientExtend>)
        ensures
            r == gradient_extend(b),
    {
        if b == 0 {
            Some(GradientExtend::Pad)
        } else if b == 1 {
            Some(GradientExtend::Repeat)
        } else if b == 2 {
            Some(GradientExtend::Reflect)
        } else {
            None
        }
    }
}

/// A [composite mode](https://learn.microsoft.com/en-us/typography/opentype/spec/colr#format-32-paintcomposite).
#[derive(Clone, Copy, PartialEq, Eq, Structural, Debug)]
pub enum CompositeMode {
    Clear,
    Source,
    Destination,
    SourceOver,
    DestinationOver,
    SourceIn,
    DestinationIn,
    SourceOut,
    DestinationOut,
    SourceAtop,
    DestinationAtop,
    Xor,
    Plus,
    Screen,
    Overlay,
    Darken,
    Lighten,
    ColorDodge,
    ColorBurn,
    HardLight,
    SoftLight,
    Difference,
    Exclusion,
    Multiply,
    Hue,
    Saturation,
    Color,
    Luminosity,
}

/// The composite mode a byte stands for.
pub open spec fn composite_mode(b: u8) -> Option<CompositeMode> {
    match b {
        0 => Some(CompositeMode::Clear),
        1 => Some(CompositeMode::Source),
        2 => Some(CompositeMode::Destination),
        3 => Some(CompositeMode::SourceOver),
        4 => Some(CompositeMode::DestinationOver),
        5 => Some(CompositeMode::SourceIn),
        6 => Some(CompositeMode::DestinationIn),
        7 => Some(CompositeMode::SourceOut),
        8 => Some(CompositeMode::DestinationOut),
        9 => Some(CompositeMode::SourceAtop),
        10 => Some(CompositeMode::DestinationAtop),
        11 => Some(CompositeMode::Xor),
        12 => Some(CompositeMode::Plus),
        13 => Some(CompositeMode::Screen),
        14 => Some(CompositeMode::Overlay),
        15 => Some(CompositeMode::Darken),
        16 => Some(CompositeMode::Lighten),
        17 => Some(CompositeMode::ColorDodge),
        18 => Some(CompositeMode::ColorBurn),
        19 => Some(CompositeMode::HardLight),
        20 => Some(CompositeMode::SoftLight),
        21 => Some(CompositeMode::Difference),
        22 => Some(CompositeMode::Exclusion),
        23 => Some(CompositeMode::Multiply),
        24 => Some(CompositeMode::Hue),
        25 => Some(CompositeMode::Saturation),
        26 => Some(CompositeMode::Color),
        27 => Some(CompositeMode::Luminosity),
        _ => None,
    }
}

impl CompositeMode {
    /// Decodes a composite mode byte.
    pub fn parse(b: u8) -> (r: Option<CompositeMode>)
        ensures
            r == composite_mode(b),
    {
        match b {
            0 => Some(CompositeMode::Clear),
            1 => Some(CompositeMode::Source),
            2 => Some(CompositeMode::Destination),
            3 => Some(CompositeMode::SourceOver),
            4 => Some(CompositeMode::DestinationOver),
            5 => Some(CompositeMode::SourceIn),
            6 => Some(CompositeMode::DestinationIn),
            7 => Some(CompositeMode::SourceOut),
            8 => Some(CompositeMode::DestinationOut),
            9 => Some(CompositeMode::SourceAtop),
            10 => Some(CompositeMode::DestinationAtop),
            11 => Some(CompositeMode::Xor),
            12 => Some(CompositeMode::Plus),
            13 => Some(CompositeMode::Screen),
            14 => Some(CompositeMode::Overlay),
            15 => Some(CompositeMode::Darken),
            16 => Some(CompositeMode::Lighten),
            17 => Some(CompositeMode::ColorDodge),
            18 => Some(CompositeMode::ColorBurn),
            19 => Some(CompositeMode::HardLight),
            20 => Some(CompositeMode::SoftLight),
            21 => Some(CompositeMode::Difference),
            22 => Some(CompositeMode::Exclusion),
            23 => Some(CompositeMode::Multiply),
            24 => Some(CompositeMode::Hue),
            25 => Some(CompositeMode::Saturation),
            26 => Some(CompositeMode::Color),
            27 => Some(CompositeMode::Luminosity),
            _ => None,
        }
    }
}

/// A clip box.
#[derive(Clone, Copy, PartialEq, Eq, Structural, Debug)]
pub struct ClipBox {
    pub x_min: i16,
    pub y_min: i16,
    pub x_max: i16,
    pub y_max: i16,
}

/// A [clip record](
/// https://learn.microsoft.com/en-us/typography/opentype/spec/colr#baseglyphlist-layerlist-and-cliplist).
#[derive(Clone, Copy, PartialEq, Eq, Structural, Debug)]
pub struct ClipRecord {
    /// The first glyph ID for the range covered by this record.
    pub start_glyph_id: GlyphId,
    /// The last glyph ID, *inclusive*, for the range covered by this record.
    pub end_glyph_id: GlyphId,
    /// The offset of the clip box, relative to the clip list.
    pub clip_box_offset: u32,
}

impl ClipRecord {
    /// Returns the glyphs range.
    pub fn glyphs_range(&self) -> (r: RangeInclusive<GlyphId>)
        ensures
            r@.start == self.start_glyph_id,
            r@.end == self.end_glyph_id,
            !r@.exhausted,
    {
        RangeInclusive::new(self.start_glyph_id, self.end_glyph_id)
    }
}

/// The clip box a clip record's offset designates in the clip list `d`:
/// a format byte and four coordinates.
pub open spec fn clip_box_at(d: Seq<u8>, offset: int) -> Option<ClipBox> {
    if in_bounds(d, offset, 9) {
        Some(ClipBox {
            x_min: i16_at(d, offset + 1),
            y_min: i16_at(d, offset + 3),
            x_max: i16_at(d, offset + 5),
            y_max: i16_at(d, offset + 7),
        })
    } else {
        None
    }
}

/// The first clip record from `i` on whose glyph range holds `g`.
pub open spec fn clip_scan(records: Seq<u8>, count: int, g: u16, i: int) -> Option<int>
    decreases count - i,
{
    if i < 0 || i >= count || !in_bounds(records, 7 * i, 7) {
        None
    } else if u16_at(records, 7 * i) <= g && g <= u16_at(records, 7 * i + 2) {
        Some(i)
    } else {
        clip_scan(records, count, g, i + 1)
    }
}

/// A [clip list](
/// https://learn.microsoft.com/en-us/typography/opentype/spec/colr#baseglyphlist-layerlist-and-cliplist).
#[derive(Clone, Copy, Debug)]
pub struct ClipList<'a> {
    /// The clip list, which clip box offsets are relative to.
    pub data: &'a [u8],
    /// The clip records, seven bytes each.
    pub records: &'a [u8],
    /// Number of clip records.
    pub count: u32,
}

impl<'a> ClipList<'a> {
    /// An empty clip list.
    pub fn empty() -> (r: ClipList<'a>)
        ensures
            r.data@.len() == 0 && r.records@.len() == 0 && r.count == 0,
    {
        ClipList { data: &[], records: &[], count: 0 }
    }

    /// Returns the clip box of record `index`.
    pub fn get(&self, index: u32) -> (r: Option<ClipBox>)
        ensures
            r == (if index < self.count && in_bounds(self.records@, 7 * index, 7) {
                clip_box_at(self.data@, u24_at(self.records@, 7 * index + 4) as int)
            } else {
                None
            }),
    {
        if index >= self.count {
            return None;
        }
        let rec = self.records;
        assert(rec@.len() == rec.len());
        if 7 * index as u64 + 7 > rec.len() as u64 {
            return None;
        }
        let offset = match read_u24_at(rec, 7 * index as usize + 4) {
            Some(v) => v as usize,
            None => return None,
        };
        let d = self.data;
        assert(d@.len() == d.len());
        if offset > d.len() || d.len() - offset < 9 {
            return None;
        }
        // Only format 1 is known; its format byte is not checked.
        let x_min = match read_i16_at(d, offset + 1) {
            Some(v) => v,
            None => return None,
        };
        let y_min = match read_i16_at(d, offset + 3) {
            Some(v) => v,
            None => return None,
        };
        let x_max = match read_i16_at(d, offset + 5) {
            Some(v) => v,
            None => return None,
        };
        let y_max = match read_i16_at(d, offset + 7) {
            Some(v) => v,
            None => return None,
        };
        Some(ClipBox { x_min, y_min, x_max, y_max })
    }

    /// Returns a ClipBox by glyph ID: that of the first record whose range holds it.
    pub fn find(&self, glyph_id: GlyphId) -> (r: Option<ClipBox>)
        ensures
            r == (match clip_scan(self.records@, self.count as int, glyph_id.0, 0) {
                Some(i) => clip_box_at(self.data@, u24_at(self.records@, 7 * i + 4) as int),
                None => None,
            }),
    {
        let rec = self.records;
        let g = glyph_id.0;
        let mut i: u32 = 0;
        while i < self.count
            invariant
                rec@ == self.records@,
                g == glyph_id.0,
                i <= self.count,
                clip_scan(rec@, self.count as int, g, 0) == clip_scan(rec@, self.count as int, g, i as int),
            decreases self.count - i,
        {
            assert(rec@.len() == rec.len());
            if 7 * i as u64 + 7 > rec.len() as u64 {
                return None;
            }
            let p = 7 * i as usize;
            let start = match read_u16_at(rec, p) {
                Some(v) => v,
                None => return None,
            };
            let end = match read_u16_at(rec, p + 2) {
                Some(v) => v,
                None => return None,
            };
            if start <= g && g <= end {
                return self.get(i);
            }
            i = i + 1;
        }
        None
    }
}

/// A color stop of a color line, with its color looked up but its alpha
/// not yet applied.
#[derive(Clone, Copy, PartialEq, Eq, Structural, Debug)]
pub struct ColorStopData {
    /// The stop offset, a 2.14 fixed-point number.
    pub stop_offset: i16,
    /// The color of the stop.
    pub color: RgbaColor,
    /// The alpha to apply to the color, a 2.14 fixed-point number.
    pub alpha: i16,
}

/// A color line: the stops of a gradient.
#[derive(Clone, Copy, Debug)]
pub struct ColorLine<'a> {
    pub extend: GradientExtend,
    /// The color stop records, six bytes each.
    pub colors: &'a [u8],
    /// Number of color stops.
    pub count: u16,
    /// The palettes that stop colors come from.
    pub palettes: cpal::Table<'a>,
}

/// The color a palette entry gives, as an RGBA color.
pub open spec fn palette_color(palettes: cpal::Table, palette: u16, entry: u16) -> Option<RgbaColor> {
    match spec_color(palettes, palette, entry) {
        Some(c) => Some(RgbaColor { red: c.red, green: c.green, blue: c.blue, alpha: c.alpha }),
        None => None,
    }
}

fn get_palette_color(palettes: &cpal::Table, palette: u16, entry: u16) -> (r: Option<RgbaColor>)
    ensures
        r == palette_color(*palettes, palette, entry),
{
    match palettes.get(palette, entry) {
        Some(c) => Some(RgbaColor { red: c.red, green: c.green, blue: c.blue, alpha: c.alpha }),
        None => None,
    }
}

/// The stop at `index` of a color line: entry 0xFFFF stands for the
/// foreground color.
pub open spec fn color_stop<'a>(line: ColorLine<'a>, palette: u16, foreground: RgbaColor, index: u16)
    -> Option<ColorStopData>
{
    if index >= line.count || !in_bounds(line.colors@, 6 * index, 6) {
        None
    } else {
        let p = 6 * index;
        let entry = u16_at(line.colors@, p + 2);
        let color = if entry == 0xFFFF {
            Some(foreground)
        } else {
            palette_color(line.palettes, palette, entry)
        };
        match color {
            Some(c) => Some(ColorStopData {
                stop_offset: i16_at(line.colors@, p),
                color: c,
                alpha: i16_at(line.colors@, p + 4),
            }),
            None => None,
        }
    }
}

impl<'a> ColorLine<'a> {
    /// Returns the stop at `index`.
    pub fn get(&self, palette: u16, foreground_color: RgbaColor, index: u16) -> (r: Option<ColorStopData>)
        ensures
            r == color_stop(*self, palette, foreground_color, index),
    {
        if index >= self.count {
            return None;
        }
        let c = self.colors;
        let p = 6 * index as usize;
        assert(c@.len() == c.len());
        if p > c.len() || c.len() - p < 6 {
            return None;
        }
        let stop_offset = match read_i16_at(c, p) {
            Some(v) => v,
            None => return None,
        };
        let entry = match read_u16_at(c, p + 2) {
            Some(v) => v,
            None => return None,
        };
        let alpha = match read_i16_at(c, p + 4) {
            Some(v) => v,
            None => return None,
        };
        let color = if entry == 0xFFFF {
            foreground_color
        } else {
            match get_palette_color(&self.palettes, palette, entry) {
                Some(c) => c,
                None => return None,
            }
        };
        Some(ColorStopData { stop_offset, color, alpha })
    }
}

/// An iterator over the stops of a gradient.
#[derive(Clone, Copy, Debug)]
pub struct GradientStopsIter<'a> {
    pub color_line: ColorLine<'a>,
    pub palette: u16,
    pub foreground_color: RgbaColor,
    pub index: u16,
}

impl<'a> GradientStopsIter<'a> {
    /// Returns the next stop. The iteration ends at the last stop; a stop
    /// whose color cannot be looked up gives `None` after the position moved on.
    pub fn next(&mut self) -> (r: Option<ColorStopData>)
        ensures
            final(self).color_line == old(self).color_line,
            final(self).palette == old(self).palette,
            final(self).foreground_color == old(self).foreground_color,
            if old(self).index == old(self).color_line.count || old(self).index == 0xFFFF {
                r is None && final(self).index == old(self).index
            } else {
                final(self).index == old(self).index + 1 && r == color_stop(
                    old(self).color_line,
                    old(self).palette,
                    old(self).foreground_color,
                    old(self).index,
                )
            },
    {
        if self.index == self.color_line.count {
            return None;
        }
        let index = self.index;
        if index == 0xFFFF {
            return None;
        }
        self.index = index + 1;
        self.color_line.get(self.palette, self.foreground_color, index)
    }
}

#[derive(Clone, Copy, Debug)]
pub struct LinearGradient<'a> {
    pub x0: i16,
    pub y0: i16,
    pub x1: i16,
    pub y1: i16,
    pub x2: i16,
    pub y2: i16,
    pub extend: GradientExtend,
    pub color_line: ColorLine<'a>,
}

impl<'a> LinearGradient<'a> {
    /// Iterates over the gradient's stops.
    pub fn stops(&self, palette: u16, foreground_color: RgbaColor) -> (r: GradientStopsIter<'a>)
        ensures
            r == (GradientStopsIter { color_line: self.color_line, palette, foreground_color, index: 0 }),
    {
        GradientStopsIter { color_line: self.color_line, palette, foreground_color, index: 0 }
    }
}

#[derive(Clone, Copy, Debug)]
pub struct RadialGradient<'a> {
    pub x0: i16,
    pub y0: i16,
    pub r0: u16,
    pub r1: u16,
    pub x1: i16,
    pub y1: i16,
    pub extend: GradientExtend,
    pub color_line: ColorLine<'a>,
}

impl<'a> RadialGradient<'a> {
    /// Iterates over the gradient's stops.
    pub fn stops(&self, palette: u16, foreground_color: RgbaColor) -> (r: GradientStopsIter<'a>)
        ensures
            r == (GradientStopsIter { color_line: self.color_line, palette, foreground_color, index: 0 }),
    {
        GradientStopsIter { color_line: self.color_line, palette, foreground_color, index: 0 }
    }
}

/// A sweep gradient; its angles are 2.14 fixed-point numbers.
#[derive(Clone, Copy, Debug)]
pub struct SweepGradient<'a> {
    pub center_x: i16,
    pub center_y: i16,
    pub start_angle: i16,
    pub end_angle: i16,
    pub extend: GradientExtend,
    pub color_line: ColorLine<'a>,
}

impl<'a> SweepGradient<'a> {
    /// Iterates over the gradient's stops.
    pub fn stops(&self, palette: u16, foreground_color: RgbaColor) -> (r: GradientStopsIter<'a>)
        ensures
            r == (GradientStopsIter { color_line: self.color_line, palette, foreground_color, index: 0 }),
    {
        GradientStopsIter { color_line: self.color_line, palette, foreground_color, index: 0 }
    }
}

/// A [base glyph](
/// https://learn.microsoft.com/en-us/typography/opentype/spec/colr#baseglyph-and-layer-records).
#[derive(Clone, Copy, PartialEq, Eq, Structural, Debug)]
pub struct BaseGlyphRecord {
    pub glyph_id: GlyphId,
    pub first_layer_index: u16,
    pub num_layers: u16,
}

/// A [layer](
/// https://learn.microsoft.com/en-us/typography/opentype/spec/colr#baseglyph-and-layer-records).
#[derive(Clone, Copy, PartialEq, Eq, Structural, Debug)]
pub struct LayerRecord {
    pub glyph_id: GlyphId,
    pub palette_index: u16,
}

/// A [BaseGlyphPaintRecord](
/// https://learn.microsoft.com/en-us/typography/opentype/spec/colr#baseglyphlist-layerlist-and-cliplist).
#[derive(Clone, Copy, PartialEq, Eq, Structural, Debug)]
pub struct BaseGlyphPaintRecord {
    pub glyph_id: GlyphId,
    pub paint_table_offset: u32,
}

/// A [Color Table](
/// https://docs.microsoft.com/en-us/typography/opentype/spec/colr).
#[derive(Clone, Copy, Debug)]
pub struct Table<'a> {
    pub palettes: cpal::Table<'a>,
    pub data: &'a [u8],
    pub version: u8,
    /// Version 0 base glyph records, six bytes each, sorted by glyph ID.
    pub base_glyphs: &'a [u8],
    pub num_base_glyphs: u16,
    /// Version 0 layer records, four bytes each.
    pub layers: &'a [u8],
    pub num_layers: u16,
    /// Where the version 1 base glyph list starts.
    pub base_glyph_paints_offset: u32,
    /// Version 1 base glyph paint records, six bytes each, sorted by glyph ID.
    pub base_glyph_paints: &'a [u8],
    pub num_base_glyph_paints: u32,
    /// Where the layer list starts.
    pub layer_paint_offsets_offset: u32,
    /// The layer list's paint offsets, four bytes each.
    pub layer_paint_offsets: &'a [u8],
    pub num_layer_paint_offsets: u32,
    /// Where the clip list starts.
    pub clip_list_offsets_offset: u32,
    pub clip_list: ClipList<'a>,
}

/// A list of `count` records of `size` bytes at `off` of `d` fits.
pub open spec fn array_fits(d: Seq<u8>, off: int, count: int, size: int) -> bool {
    off <= d.len() && in_bounds(d, off, size * count)
}

/// The version 1 part of the table: the base glyph paint list, and the layer
/// list and the clip list where their offsets are not null, fit.
pub open spec fn v1_ok(d: Seq<u8>) -> bool {
    let bgp = u32_at(d, 14) as int;
    let ll = u32_at(d, 18) as int;
    let cl = u32_at(d, 22) as int;
    &&& in_bounds(d, 14, 12)
    &&& in_bounds(d, bgp, 4) && array_fits(d, bgp + 4, u32_at(d, bgp) as int, 6)
    &&& ll != 0 ==> in_bounds(d, ll, 4) && array_fits(d, ll + 4, u32_at(d, ll) as int, 4)
    &&& cl != 0 ==> in_bounds(d, cl, 5) && array_fits(d, cl + 5, u32_at(d, cl + 1) as int, 7)
}

/// The table is of version 0 or 1 and its lists fit.
pub open spec fn table_ok(d: Seq<u8>) -> bool {
    &&& in_bounds(d, 0, 14)
    &&& u16_at(d, 0) <= 1
    &&& array_fits(d, u32_at(d, 4) as int, u16_at(d, 2) as int, 6)
    &&& array_fits(d, u32_at(d, 8) as int, u16_at(d, 12) as int, 4)
    &&& u16_at(d, 0) == 1 ==> v1_ok(d)
}

/// `t` is what parsing the table `d` with the palettes `p` gives.
pub open spec fn table_is<'a>(t: Table<'a>, p: cpal::Table<'a>, d: Seq<u8>) -> bool {
    let bgo = u32_at(d, 4) as int;
    let lo = u32_at(d, 8) as int;
    &&& t.palettes == p
    &&& t.data@ == d
    &&& t.version == u16_at(d, 0)
    &&& t.num_base_glyphs == u16_at(d, 2)
    &&& t.base_glyphs@ == d.subrange(bgo, bgo + 6 * u16_at(d, 2))
    &&& t.num_layers == u16_at(d, 12)
    &&& t.layers@ == d.subrange(lo, lo + 4 * u16_at(d, 12))
    &&& if u16_at(d, 0) == 0 {
        &&& t.num_base_glyph_paints == 0 && t.base_glyph_paints@.len() == 0
        &&& t.num_layer_paint_offsets == 0 && t.layer_paint_offsets@.len() == 0
        &&& t.clip_list.count == 0 && t.clip_list.records@.len() == 0
    } else {
        let bgp = u32_at(d, 14) as int;
        let ll = u32_at(d, 18) as int;
        let cl = u32_at(d, 22) as int;
        &&& t.base_glyph_paints_offset == bgp
        &&& t.num_base_glyph_paints == u32_at(d, bgp)
        &&& t.base_glyph_paints@ == d.subrange(bgp + 4, bgp + 4 + 6 * u32_at(d, bgp))
        &&& if ll != 0 {
            &&& t.layer_paint_offsets_offset == ll
            &&& t.num_layer_paint_offsets == u32_at(d, ll)
            &&& t.layer_paint_offsets@ == d.subrange(ll + 4, ll + 4 + 4 * u32_at(d, ll))
        } else {
            t.num_layer_paint_offsets == 0 && t.layer_paint_offsets@.len() == 0
        }
        &&& if cl != 0 {
            &&& t.clip_list_offsets_offset == cl
            &&& t.clip_list.data@ == d.subrange(cl, d.len() as int)
            &&& t.clip_list.count == u32_at(d, cl + 1)
            &&& t.clip_list.records@ == d.subrange(cl + 5, cl + 5 + 7 * u32_at(d, cl + 1))
        } else {
            t.clip_list.count == 0 && t.clip_list.records@.len() == 0
        }
    }
}

/// Reads a list of `count` records of `size` bytes at `off`.
fn read_array_at<'a>(data: &'a [u8], off: u64, count: u32, size: usize) -> (r: Option<&'a [u8]>)
    requires
        1 <= size <= 8,
    ensures
        r is Some <==> array_fits(data@, off as int, count as int, size as int),
        r matches Some(b) ==> b@ == data@.subrange(off as int, off + size * count),
{
    assert(data@.len() == data.len());
    if off > data.len() as u64 {
        return None;
    }
    assert(size as u64 * count as u64 <= 8 * 0xFFFF_FFFFu64) by (nonlinear_arith)
        requires
            size <= 8,
            count <= 0xFFFF_FFFF,
    ;
    let len: u64 = size as u64 * count as u64;
    if len > (data.len() - off as usize) as u64 {
        return None;
    }
    bytes_at(data, off as usize, len as usize)
}

impl<'a> Table<'a> {
    /// Parses a table from raw data.
    pub fn parse(palettes: cpal::Table<'a>, data: &'a [u8]) -> (r: Option<Table<'a>>)
        ensures
            r is Some <==> table_ok(data@),
            r matches Some(t) ==> table_is(t, palettes, data@),
    {
        let version = match read_u16_at(data, 0) {
            Some(v) => v,
            None => return None,
        };
        if version > 1 {
            return None;
        }
        let num_base_glyphs = match read_u16_at(data, 2) {
            Some(v) => v,
            None => return None,
        };
        let base_glyphs_offset = match read_u32_at(data, 4) {
            Some(v) => v,
            None => return None,
        };
        let layers_offset = match read_u32_at(data, 8) {
            Some(v) => v,
            None => return None,
        };
        let num_layers = match read_u16_at(data, 12) {
            Some(v) => v,
            None => return None,
        };
        let base_glyphs = match read_array_at(data, base_glyphs_offset as u64, num_base_glyphs as u32, 6) {
            Some(b) => b,
            None => return None,
        };
        let layers = match read_array_at(data, layers_offset as u64, num_layers as u32, 4) {
            Some(b) => b,
            None => return None,
        };
        let mut table = Table {
            palettes,
            data,
            version: version as u8,
            base_glyphs,
            num_base_glyphs,
            layers,
            num_layers,
            base_glyph_paints_offset: 0,
            base_glyph_paints: &[],
            num_base_glyph_paints: 0,
            layer_paint_offsets_offset: 0,
            layer_paint_offsets: &[],
            num_layer_paint_offsets: 0,
            clip_list_offsets_offset: 0,
            clip_list: ClipList::empty(),
        };
        if version == 0 {
            return Some(table);
        }
        let base_glyph_paints_offset = match read_u32_at(data, 14) {
            Some(v) => v,
            None => return None,
        };
        let layer_list_offset = match read_u32_at(data, 18) {
            Some(v) => v,
            None => return None,
        };
        let clip_list_offset = match read_u32_at(data, 22) {
            Some(v) => v,
            None => return None,
        };
        assert(data@.len() == data.len());
        table.base_glyph_paints_offset = base_glyph_paints_offset;
        let count = match read_u32_at(data, base_glyph_paints_offset as usize) {
            Some(v) => v,
            None => return None,
        };
        table.num_base_glyph_paints = count;
        table.base_glyph_paints = match read_array_at(data, base_glyph_paints_offset as u64 + 4, count, 6) {
            Some(b) => b,
            None => return None,
        };
        if layer_list_offset != 0 {
            table.layer_paint_offsets_offset = layer_list_offset;
            let count = match read_u32_at(data, layer_list_offset as usize) {
                Some(v) => v,
                None => return None,
            };
            table.num_layer_paint_offsets = count;
            table.layer_paint_offsets = match read_array_at(data, layer_list_offset as u64 + 4, count, 4) {
                Some(b) => b,
                None => return None,
            };
        }
        if clip_list_offset != 0 {
            table.clip_list_offsets_offset = clip_list_offset;
            let clip_data = match tail_from(data, clip_list_offset as usize) {
                Some(t) => t,
                None => return None,
            };
            // The format byte is not checked.
            let count = match read_u32_at(clip_data, 1) {
                Some(v) => v,
                None => return None,
            };
            let records = match read_array_at(clip_data, 5, count, 7) {
                Some(b) => b,
                None => return None,
            };
            let ghost cl = clip_list_offset as int;
            assert(u32_at(clip_data@, 1) == u32_at(data@, cl + 1));
            assert(records@ =~= data@.subrange(cl + 5, cl + 5 + 7 * count));
            table.clip_list = ClipList { data: clip_data, records, count };
        }
        Some(table)
    }

    /// Returns `true` if the current table has version 0.
    ///
    /// A simple table can only emit `outline`, `paint_foreground` and `paint_color`
    /// paints.
    pub fn is_simple(&self) -> (r: bool)
        ensures
            r == (self.version == 0),
    {
        self.version == 0
    }

    /// The version 0 record of the glyph, found by binary search.
    pub fn get_v0(&self, glyph_id: GlyphId) -> (r: Option<BaseGlyphRecord>)
        ensures
            !in_bounds(self.base_glyphs@, 0, 6 * self.num_base_glyphs) ==> r is None,
            in_bounds(self.base_glyphs@, 0, 6 * self.num_base_glyphs) ==> r == (match bsearch(self.base_glyphs@, 0, self.num_base_glyphs as int, 6, 2, glyph_id.0 as int) {
                Some(i) => Some(BaseGlyphRecord {
                    glyph_id: GlyphId(u16_at(self.base_glyphs@, 6 * i)),
                    first_layer_index: u16_at(self.base_glyphs@, 6 * i + 2),
                    num_layers: u16_at(self.base_glyphs@, 6 * i + 4),
                }),
                None => None,
            }),
    {
        let b = self.base_glyphs;
        // The records must all be there.
        if b.len() / 6 < self.num_base_glyphs as usize {
            return None;
        }
        match binary_search(b, 0, self.num_base_glyphs as u32, 6, 2, glyph_id.0 as u32) {
            Some(i) => {
                assert(b@.len() == b.len());
                let p = 6 * i as usize;
                let g = match read_u16_at(b, p) {
                    Some(v) => v,
                    None => return None,
                };
                let first = match read_u16_at(b, p + 2) {
                    Some(v) => v,
                    None => return None,
                };
                let num = match read_u16_at(b, p + 4) {
                    Some(v) => v,
                    None => return None,
                };
                Some(BaseGlyphRecord { glyph_id: GlyphId(g), first_layer_index: first, num_layers: num })
            },
            None => None,
        }
    }

    /// The version 1 record of the glyph, found by binary search.
    pub fn get_v1(&self, glyph_id: GlyphId) -> (r: Option<BaseGlyphPaintRecord>)
        ensures
            !in_bounds(self.base_glyph_paints@, 0, 6 * self.num_base_glyph_paints) ==> r is None,
            in_bounds(self.base_glyph_paints@, 0, 6 * self.num_base_glyph_paints) ==> r == (match bsearch(self.base_glyph_paints@, 0, self.num_base_glyph_paints as int, 6, 2, glyph_id.0 as int) {
                Some(i) => Some(BaseGlyphPaintRecord {
                    glyph_id: GlyphId(u16_at(self.base_glyph_paints@, 6 * i)),
                    paint_table_offset: u32_at(self.base_glyph_paints@, 6 * i + 2),
                }),
                None => None,
            }),
    {
        let b = self.base_glyph_paints;
        // The records must all be there.
        if b.len() / 6 < self.num_base_glyph_paints as usize {
            return None;
        }
        match binary_search(b, 0, self.num_base_glyph_paints, 6, 2, glyph_id.0 as u32) {
            Some(i) => {
                assert(b@.len() == b.len());
                assert(6 * i + 6 <= b@.len()) by (nonlinear_arith)
                    requires
                        i < self.num_base_glyph_paints,
                        6 * self.num_base_glyph_paints <= b@.len(),
                ;
                let p = 6 * i as usize;
                let g = match read_u16_at(b, p) {
                    Some(v) => v,
                    None => return None,
                };
                let off = match read_u32_at(b, p + 2) {
                    Some(v) => v,
                    None => return None,
                };
                Some(BaseGlyphPaintRecord { glyph_id: GlyphId(g), paint_table_offset: off })
            },
            None => None,
        }
    }

    /// Whether the table contains a definition for the given glyph.
    pub fn contains(&self, glyph_id: GlyphId) -> (r: bool)
        ensures
            r == ((in_bounds(self.base_glyph_paints@, 0, 6 * self.num_base_glyph_paints) && bsearch(
                self.base_glyph_paints@,
                0,
                self.num_base_glyph_paints as int,
                6,
                2,
                glyph_id.0 as int,
            ) is Some) || (in_bounds(self.base_glyphs@, 0, 6 * self.num_base_glyphs) && bsearch(
                self.base_glyphs@,
                0,
                self.num_base_glyphs as int,
                6,
                2,
                glyph_id.0 as int,
            ) is Some)),
    {
        self.get_v1(glyph_id).is_some() || self.get_v0(glyph_id).is_some()
    }

    /// The layers of a version 0 base glyph: layer indices `first..first + count`,
    /// when they do not overflow and lie inside the layer list.
    pub fn layer_range(&self, base: BaseGlyphRecord) -> (r: Option<(u16, u16)>)
        ensures
            r == (if base.first_layer_index + base.num_layers <= 0xFFFF
                && base.first_layer_index + base.num_layers <= self.num_layers {
                Some((base.first_layer_index, (base.first_layer_index + base.num_layers) as u16))
            } else {
                None
            }),
    {
        let start = base.first_layer_index;
        let end = match start.checked_add(base.num_layers) {
            Some(e) => e,
            None => return None,
        };
        if end > self.num_layers {
            return None;
        }
        Some((start, end))
    }

    /// The version 0 layer at `index`.
    pub fn layer(&self, index: u16) -> (r: Option<LayerRecord>)
        ensures
            r == (if index < self.num_layers && in_bounds(self.layers@, 4 * index, 4) {
                Some(LayerRecord {
                    glyph_id: GlyphId(u16_at(self.layers@, 4 * index)),
                    palette_index: u16_at(self.layers@, 4 * index + 2),
                })
            } else {
                None
            }),
    {
        if index >= self.num_layers {
            return None;
        }
        let l = self.layers;
        let p = 4 * index as usize;
        assert(l@.len() == l.len());
        if p > l.len() || l.len() - p < 4 {
            return None;
        }
        let g = match read_u16_at(l, p) {
            Some(v) => v,
            None => return None,
        };
        let pi = match read_u16_at(l, p + 2) {
            Some(v) => v,
            None => return None,
        };
        Some(LayerRecord { glyph_id: GlyphId(g), palette_index: pi })
    }

    /// The color of a palette entry.
    pub fn palette_color(&self, palette: u16, entry: u16) -> (r: Option<RgbaColor>)
        ensures
            r == palette_color(self.palettes, palette, entry),
    {
        get_palette_color(&self.palettes, palette, entry)
    }

    /// Where the paint of a version 1 base glyph starts in the table.
    pub fn base_paint_offset(&self, base: BaseGlyphPaintRecord) -> (r: Option<usize>)
        ensures
            r == (if self.base_glyph_paints_offset + base.paint_table_offset <= usize::MAX {
                Some((self.base_glyph_paints_offset + base.paint_table_offset) as usize)
            } else {
                None
            }),
    {
        let sum: u64 = self.base_glyph_paints_offset as u64 + base.paint_table_offset as u64;
        if sum > usize::MAX as u64 {
            None
        } else {
            Some(sum as usize)
        }
    }

    /// Where the paint of layer `index` of the layer list starts in the table.
    pub fn layer_paint_offset(&self, index: u32) -> (r: Option<usize>)
        ensures
            r == (if index < self.num_layer_paint_offsets && in_bounds(self.layer_paint_offsets@, 4 * index, 4)
                && self.layer_paint_offsets_offset + u32_at(self.layer_paint_offsets@, 4 * index) <= usize::MAX {
                Some((self.layer_paint_offsets_offset + u32_at(self.layer_paint_offsets@, 4 * index)) as usize)
            } else {
                None
            }),
    {
        if index >= self.num_layer_paint_offsets {
            return None;
        }
        let l = self.layer_paint_offsets;
        assert(l@.len() == l.len());
        if 4 * index as u64 + 4 > l.len() as u64 {
            return None;
        }
        let off = match read_u32_at(l, 4 * index as usize) {
            Some(v) => v,
            None => return None,
        };
        let sum: u64 = self.layer_paint_offsets_offset as u64 + off as u64;
        if sum > usize::MAX as u64 {
            None
        } else {
            Some(sum as usize)
        }
    }
}

/// A decoded paint table. Child paints are given by their offset in the
/// `COLR` table; scales, angles and skews are 2.14 fixed-point numbers.
#[derive(Clone, Copy, Debug)]
pub enum Paint<'a> {
    /// Paints `layers_count` layers of the layer list from `first_layer_index` on.
    ColrLayers { layers_count: u8, first_layer_index: u32 },
    /// A solid color; `alpha` is to be applied to it.
    Solid { color: RgbaColor, alpha: i16 },
    LinearGradient(LinearGradient<'a>),
    RadialGradient(RadialGradient<'a>),
    SweepGradient(SweepGradient<'a>),
    /// Clips to the glyph's outline and paints the child.
    Glyph { glyph_id: GlyphId, paint: usize },
    /// Paints another color glyph.
    ColrGlyph { glyph_id: GlyphId },
    Transform { paint: usize, transform: Transform },
    Translate { paint: usize, dx: i16, dy: i16 },
    Scale { paint: usize, scale_x: i16, scale_y: i16 },
    ScaleAroundCenter { paint: usize, scale_x: i16, scale_y: i16, center_x: i16, center_y: i16 },
    ScaleUniform { paint: usize, scale: i16 },
    ScaleUniformAroundCenter { paint: usize, scale: i16, center_x: i16, center_y: i16 },
    Rotate { paint: usize, angle: i16 },
    RotateAroundCenter { paint: usize, angle: i16, center_x: i16, center_y: i16 },
    Skew { paint: usize, skew_x: i16, skew_y: i16 },
    SkewAroundCenter { paint: usize, skew_x: i16, skew_y: i16, center_x: i16, center_y: i16 },
    /// Paints the backdrop, then the source composited onto it.
    Composite { source: usize, mode: CompositeMode, backdrop: usize },
    /// A paint format this library does not know; it paints nothing.
    Unknown,
}

/// The color line at `c` of the table `d`: an extend byte, a count and six-byte stops.
pub open spec fn color_line_ok(d: Seq<u8>, c: int) -> bool {
    &&& in_bounds(d, c, 3)
    &&& gradient_extend(d[c]) is Some
    &&& in_bounds(d, c + 3, 6 * u16_at(d, c + 1))
}

/// `l` is the color line at `c` of the table `t`.
pub open spec fn color_line_is<'a>(l: ColorLine<'a>, t: Table<'a>, c: int) -> bool {
    let d = t.data@;
    &&& gradient_extend(d[c]) == Some(l.extend)
    &&& l.count == u16_at(d, c + 1)
    &&& l.colors@ == d.subrange(c + 3, c + 3 + 6 * u16_at(d, c + 1))
    &&& l.palettes == t.palettes
}

/// The child offset `o + u24` that the 24-bit offset at `p` gives, when it
/// fits in a `usize`.
pub open spec fn child_at(d: Seq<u8>, o: int, p: int) -> Option<int> {
    if in_bounds(d, p, 3) && o + u24_at(d, p) <= usize::MAX {
        Some(o + u24_at(d, p))
    } else {
        None
    }
}

/// The color line that the 24-bit offset at `o + 1` designates, when it parses.
pub open spec fn line_at(d: Seq<u8>, o: int) -> Option<int> {
    match child_at(d, o, o + 1) {
        Some(c) => if color_line_ok(d, c) { Some(c) } else { None },
        None => None,
    }
}

/// The paint table at `o` of `t`, decoded for palette `palette`, is `r`.
pub open spec fn paint_matches<'a>(t: Table<'a>, o: int, palette: u16, r: Option<Paint<'a>>) -> bool {
    let d = t.data@;
    if !in_bounds(d, o, 1) {
        r is None
    } else {
        let f = d[o];
        if f == 1 {
            if in_bounds(d, o + 1, 5) {
                r == Some(Paint::ColrLayers { layers_count: d[o + 1], first_layer_index: u32_at(d, o + 2) })
            } else {
                r is None
            }
        } else if f == 2 {
            if in_bounds(d, o + 1, 4) && palette_color(t.palettes, palette, u16_at(d, o + 1)) is Some {
                r == Some(Paint::Solid {
                    color: palette_color(t.palettes, palette, u16_at(d, o + 1)).unwrap(),
                    alpha: i16_at(d, o + 3),
                })
            } else {
                r is None
            }
        } else if f == 4 {
            match line_at(d, o) {
                Some(c) => if in_bounds(d, o + 4, 12) {
                    r matches Some(Paint::LinearGradient(g)) && color_line_is(g.color_line, t, c)
                        && g.extend == g.color_line.extend
                        && g.x0 == i16_at(d, o + 4) && g.y0 == i16_at(d, o + 6)
                        && g.x1 == i16_at(d, o + 8) && g.y1 == i16_at(d, o + 10)
                        && g.x2 == i16_at(d, o + 12) && g.y2 == i16_at(d, o + 14)
                } else {
                    r is None
                },
                None => r is None,
            }
        } else if f == 6 {
            match line_at(d, o) {
                Some(c) => if in_bounds(d, o + 4, 12) {
                    r matches Some(Paint::RadialGradient(g)) && color_line_is(g.color_line, t, c)
                        && g.extend == g.color_line.extend
                        && g.x0 == i16_at(d, o + 4) && g.y0 == i16_at(d, o + 6)
                        && g.r0 == u16_at(d, o + 8) && g.x1 == i16_at(d, o + 10)
                        && g.y1 == i16_at(d, o + 12) && g.r1 == u16_at(d, o + 14)
                } else {
                    r is None
                },
                None => r is None,
            }
        } else if f == 8 {
            match line_at(d, o) {
                Some(c) => if in_bounds(d, o + 4, 8) {
                    r matches Some(Paint::SweepGradient(g)) && color_line_is(g.color_line, t, c)
                        && g.extend == g.color_line.extend
                        && g.center_x == i16_at(d, o + 4) && g.center_y == i16_at(d, o + 6)
                        && g.start_angle == i16_at(d, o + 8) && g.end_angle == i16_at(d, o + 10)
                } else {
                    r is None
                },
                None => r is None,
            }
        } else if f == 10 {
            match child_at(d, o, o + 1) {
                Some(c) => if in_bounds(d, o + 4, 2) {
                    r == Some(Paint::Glyph { glyph_id: GlyphId(u16_at(d, o + 4)), paint: c as usize })
                } else {
                    r is None
                },
                None => r is None,
            }
        } else if f == 11 {
            if in_bounds(d, o + 1, 2) {
                r == Some(Paint::ColrGlyph { glyph_id: GlyphId(u16_at(d, o + 1)) })
            } else {
                r is None
            }
        } else if f == 12 {
            match (child_at(d, o, o + 1), child_at(d, o, o + 4)) {
                (Some(c), Some(ts)) => if in_bounds(d, ts, 24) {
                    r == Some(Paint::Transform {
                        paint: c as usize,
                        transform: Transform {
                            a: Fixed(i32_at(d, ts)),
                            b: Fixed(i32_at(d, ts + 4)),
                            c: Fixed(i32_at(d, ts + 8)),
                            d: Fixed(i32_at(d, ts + 12)),
                            e: Fixed(i32_at(d, ts + 16)),
                            f: Fixed(i32_at(d, ts + 20)),
                        },
                    })
                } else {
                    r is None
                },
                _ => r is None,
            }
        } else if f == 14 || f == 16 || f == 18 || f == 20 || f == 22 || f == 24 || f == 26 || f == 28 || f == 30 {
            let n = if f == 20 || f == 24 { 2 } else if f == 14 || f == 16 || f == 28 || f == 22 || f == 26 {
                if f == 22 || f == 26 { 6 } else { 4 }
            } else {
                8
            };
            match child_at(d, o, o + 1) {
                Some(c) => if in_bounds(d, o + 4, n) {
                    r == Some(transform_paint(d, o, f, c as usize))
                } else {
                    r is None
                },
                None => r is None,
            }
        } else if f == 32 {
            match (child_at(d, o, o + 1), child_at(d, o, o + 5)) {
                (Some(src), Some(back)) => if in_bounds(d, o + 4, 1) && composite_mode(d[o + 4]) is Some {
                    r == Some(Paint::Composite {
                        source: src as usize,
                        mode: composite_mode(d[o + 4]).unwrap(),
                        backdrop: back as usize,
                    })
                } else {
                    r is None
                },
                _ => r is None,
            }
        } else {
            r == Some(Paint::Unknown)
        }
    }
}

/// The transformation paint of format `f` at `o`, with child `c`.
pub open spec fn transform_paint<'a>(d: Seq<u8>, o: int, f: u8, c: usize) -> Paint<'a> {
    let v1 = i16_at(d, o + 4);
    let v2 = i16_at(d, o + 6);
    let v3 = i16_at(d, o + 8);
    let v4 = i16_at(d, o + 10);
    if f == 14 {
        Paint::Translate { paint: c, dx: v1, dy: v2 }
    } else if f == 16 {
        Paint::Scale { paint: c, scale_x: v1, scale_y: v2 }
    } else if f == 18 {
        Paint::ScaleAroundCenter { paint: c, scale_x: v1, scale_y: v2, center_x: v3, center_y: v4 }
    } else if f == 20 {
        Paint::ScaleUniform { paint: c, scale: v1 }
    } else if f == 22 {
        Paint::ScaleUniformAroundCenter { paint: c, scale: v1, center_x: v2, center_y: v3 }
    } else if f == 24 {
        Paint::Rotate { paint: c, angle: v1 }
    } else if f == 26 {
        Paint::RotateAroundCenter { paint: c, angle: v1, center_x: v2, center_y: v3 }
    } else if f == 28 {
        Paint::Skew { paint: c, skew_x: v1, skew_y: v2 }
    } else {
        Paint::SkewAroundCenter { paint: c, skew_x: v1, skew_y: v2, center_x: v3, center_y: v4 }
    }
}

impl<'a> Table<'a> {
    /// The child offset that the 24-bit offset at `p` gives, relative to `o`.
    fn child(&self, o: usize, p: usize) -> (r: Option<usize>)
        ensures
            match r {
                Some(c) => child_at(self.data@, o as int, p as int) == Some(c as int),
                None => child_at(self.data@, o as int, p as int) is None,
            },
    {
        let off = match read_u24_at(self.data, p) {
            Some(v) => v,
            None => return None,
        };
        if o as u64 > u64::MAX - off as u64 {
            return None;
        }
        let sum: u64 = o as u64 + off as u64;
        if sum > usize::MAX as u64 {
            None
        } else {
            Some(sum as usize)
        }
    }

    /// Parses the color line at `c`.
    fn parse_color_line(&self, c: usize) -> (r: Option<ColorLine<'a>>)
        ensures
            match r {
                Some(l) => color_line_ok(self.data@, c as int) && color_line_is(l, *self, c as int),
                None => !color_line_ok(self.data@, c as int),
            },
    {
        let d = self.data;
        let b = match read_u8_at(d, c) {
            Some(v) => v,
            None => return None,
        };
        let extend = match GradientExtend::parse(b) {
            Some(e) => e,
            None => return None,
        };
        assert(d@.len() == d.len());
        let count = match read_u16_at(d, c + 1) {
            Some(v) => v,
            None => return None,
        };
        let colors = match bytes_at(d, c + 3, 6 * count as usize) {
            Some(b) => b,
            None => return None,
        };
        Some(ColorLine { extend, colors, count, palettes: self.palettes })
    }

    /// The color line of a gradient paint at `o`.
    fn gradient_line(&self, o: usize) -> (r: Option<ColorLine<'a>>)
        ensures
            match r {
                Some(l) => line_at(self.data@, o as int) matches Some(c) && color_line_is(l, *self, c),
                None => line_at(self.data@, o as int) is None,
            },
    {
        if o > self.data.len() || self.data.len() - o < 1 {
            return None;
        }
        let c = match self.child(o, o + 1) {
            Some(c) => c,
            None => return None,
        };
        self.parse_color_line(c)
    }

    /// Decodes the paint table at `offset`; a solid paint takes its color
    /// from `palette`.
    pub fn paint_node(&self, offset: usize, palette: u16) -> (r: Option<Paint<'a>>)
        ensures
            paint_matches(*self, offset as int, palette, r),
    {
        let d = self.data;
        let o = offset;
        assert(d@.len() == d.len());
        let f = match read_u8_at(d, o) {
            Some(v) => v,
            None => return None,
        };
        let rest = d.len() - o;
        if f == 1 {
            // PaintColrLayers
            if rest < 6 {
                return None;
            }
            let layers_count = d[o + 1];
            let first_layer_index = match read_u32_at(d, o + 2) {
                Some(v) => v,
                None => return None,
            };
            Some(Paint::ColrLayers { layers_count, first_layer_index })
        } else if f == 2 {
            // PaintSolid
            if rest < 5 {
                return None;
            }
            let palette_index = match read_u16_at(d, o + 1) {
                Some(v) => v,
                None => return None,
            };
            let alpha = match read_i16_at(d, o + 3) {
                Some(v) => v,
                None => return None,
            };
            let color = match get_palette_color(&self.palettes, palette, palette_index) {
                Some(c) => c,
                None => return None,
            };
            Some(Paint::Solid { color, alpha })
        } else if f == 4 || f == 6 || f == 8 {
            let color_line = match self.gradient_line(o) {
                Some(l) => l,
                None => return None,
            };
            let need: usize = if f == 8 { 12 } else { 16 };
            if rest < need {
                return None;
            }
            let v1 = read_i16_or_zero(d, o + 4);
            let v2 = read_i16_or_zero(d, o + 6);
            let v3 = read_i16_or_zero(d, o + 8);
            let v4 = read_i16_or_zero(d, o + 10);
            if f == 8 {
                // PaintSweepGradient
                return Some(Paint::SweepGradient(SweepGradient {
                    center_x: v1,
                    center_y: v2,
                    start_angle: v3,
                    end_angle: v4,
                    extend: color_line.extend,
                    color_line,
                }));
            }
            let v5 = read_i16_or_zero(d, o + 12);
            let v6 = read_i16_or_zero(d, o + 14);
            if f == 4 {
                // PaintLinearGradient
                Some(Paint::LinearGradient(LinearGradient {
                    x0: v1,
                    y0: v2,
                    x1: v3,
                    y1: v4,
                    x2: v5,
                    y2: v6,
                    extend: color_line.extend,
                    color_line,
                }))
            } else {
                // PaintRadialGradient
                let r0 = match read_u16_at(d, o + 8) {
                    Some(v) => v,
                    None => return None,
                };
                let r1 = match read_u16_at(d, o + 14) {
                    Some(v) => v,
                    None => return None,
                };
                Some(Paint::RadialGradient(RadialGradient {
                    x0: v1,
                    y0: v2,
                    r0,
                    x1: v4,
                    y1: v5,
                    r1,
                    extend: color_line.extend,
                    color_line,
                }))
            }
        } else if f == 10 {
            // PaintGlyph
            let paint = match self.child(o, o + 1) {
                Some(c) => c,
                None => return None,
            };
            if rest < 6 {
                return None;
            }
            let glyph_id = match read_u16_at(d, o + 4) {
                Some(v) => v,
                None => return None,
            };
            Some(Paint::Glyph { glyph_id: GlyphId(glyph_id), paint })
        } else if f == 11 {
            // PaintColrGlyph
            if rest < 3 {
                return None;
            }
            let glyph_id = match read_u16_at(d, o + 1) {
                Some(v) => v,
                None => return None,
            };
            Some(Paint::ColrGlyph { glyph_id: GlyphId(glyph_id) })
        } else if f == 12 {
            // PaintTransform
            let paint = match self.child(o, o + 1) {
                Some(c) => c,
                None => return None,
            };
            if rest < 7 {
                return None;
            }
            let ts = match self.child(o, o + 4) {
                Some(c) => c,
                None => return None,
            };
            if ts > d.len() || d.len() - ts < 24 {
                return None;
            }
            let transform = Transform {
                a: Fixed(read_i32_or_zero(d, ts)),
                b: Fixed(read_i32_or_zero(d, ts + 4)),
                c: Fixed(read_i32_or_zero(d, ts + 8)),
                d: Fixed(read_i32_or_zero(d, ts + 12)),
                e: Fixed(read_i32_or_zero(d, ts + 16)),
                f: Fixed(read_i32_or_zero(d, ts + 20)),
            };
            Some(Paint::Transform { paint, transform })
        } else if f == 14 || f == 16 || f == 18 || f == 20 || f == 22 || f == 24 || f == 26 || f == 28 || f == 30 {
            let paint = match self.child(o, o + 1) {
                Some(c) => c,
                None => return None,
            };
            let n: usize = if f == 20 || f == 24 {
                2
            } else if f == 22 || f == 26 {
                6
            } else if f == 14 || f == 16 || f == 28 {
                4
            } else {
                8
            };
            if rest < 4 + n {
                return None;
            }
            let v1 = read_i16_or_zero(d, o + 4);
            let v2 = if n >= 4 { read_i16_or_zero(d, o + 6) } else { 0 };
            let v3 = if n >= 6 { read_i16_or_zero(d, o + 8) } else { 0 };
            let v4 = if n >= 8 { read_i16_or_zero(d, o + 10) } else { 0 };
            let p = if f == 14 {
                // PaintTranslate
                Paint::Translate { paint, dx: v1, dy: v2 }
            } else if f == 16 {
                // PaintScale
                Paint::Scale { paint, scale_x: v1, scale_y: v2 }
            } else if f == 18 {
                // PaintScaleAroundCenter
                Paint::ScaleAroundCenter { paint, scale_x: v1, scale_y: v2, center_x: v3, center_y: v4 }
            } else if f == 20 {
                // PaintScaleUniform
                Paint::ScaleUniform { paint, scale: v1 }
            } else if f == 22 {
                // PaintScaleUniformAroundCenter
                Paint::ScaleUniformAroundCenter { paint, scale: v1, center_x: v2, center_y: v3 }
            } else if f == 24 {
                // PaintRotate
                Paint::Rotate { paint, angle: v1 }
            } else if f == 26 {
                // PaintRotateAroundCenter
                Paint::RotateAroundCenter { paint, angle: v1, center_x: v2, center_y: v3 }
            } else if f == 28 {
                // PaintSkew
                Paint::Skew { paint, skew_x: v1, skew_y: v2 }
            } else {
                // PaintSkewAroundCenter
                Paint::SkewAroundCenter { paint, skew_x: v1, skew_y: v2, center_x: v3, center_y: v4 }
            };
            Some(p)
        } else if f == 32 {
            // PaintComposite
            let source = match self.child(o, o + 1) {
                Some(c) => c,
                None => return None,
            };
            if rest < 5 {
                return None;
            }
            let mode = match CompositeMode::parse(d[o + 4]) {
                Some(m) => m,
                None => return None,
            };
            if rest < 8 {
                return None;
            }
            let backdrop = match self.child(o, o + 5) {
                Some(c) => c,
                None => return None,
            };
            Some(Paint::Composite { source, mode, backdrop })
        } else {
            Some(Paint::Unknown)
        }
    }
}

/// Reads an `i16` that is known to be there.
fn read_i16_or_zero(d: &[u8], p: usize) -> (r: i16)
    ensures
        in_bounds(d@, p as int, 2) ==> r == i16_at(d@, p as int),
{
    match read_i16_at(d, p) {
        Some(v) => v,
        None => 0,
    }
}

/// Reads an `i32` that is known to be there.
fn read_i32_or_zero(d: &[u8], p: usize) -> (r: i32)
    ensures
        in_bounds(d@, p as int, 4) ==> r == i32_at(d@, p as int),
{
    match read_i32_at(d, p) {
        Some(v) => v,
        None => 0,
    }
}

} // verus!
