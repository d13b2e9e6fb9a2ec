//! Vertical metrics of a font, from its `vhea` and `vmtx` tables.

use vstd::prelude::*;
use crate::GlyphId;
use crate::parser::i16_or_zero;
use crate::tables::hhea;
use crate::tables::hmtx;

verus! {

/// The tables of a font that vertical metrics come from.
#[derive(Clone, Copy, Debug)]
pub struct Font<'a> {
    /// The `vhea` table, laid out as a `hhea` table is.
    pub vhea: Option<&'a [u8]>,
    /// The `vmtx` table.
    pub vmtx: Option<hmtx::Table<'a>>,
}

/// The ascender minus the descender of a `vhea` table fits in 16 bits.
pub open spec fn vertical_height_fits(vhea: Seq<u8>) -> bool {
    i16::MIN <= i16_or_zero(vhea, 4) - i16_or_zero(vhea, 6) <= i16::MAX
}

impl<'a> Font<'a> {
    /// Returns font's vertical ascender value.
    ///
    /// Returns `None` when `vhea` table is not present.
    pub fn vertical_ascender(&self) -> (r: Option<i16>)
        ensures
            r == (match self.vhea {
                Some(t) => Some(i16_or_zero(t@, 4)),
                None => None,
            }),
    {
        match self.vhea {
            Some(t) => Some(hhea::ascender(t)),
            None => None,
        }
    }

    /// Returns font's vertical descender value.
    ///
    /// Returns `None` when `vhea` table is not present.
    pub fn vertical_descender(&self) -> (r: Option<i16>)
        ensures
            r == (match self.vhea {
                Some(t) => Some(i16_or_zero(t@, 6)),
                None => None,
            }),
    {
        match self.vhea {
            Some(t) => Some(hhea::descender(t)),
            None => None,
        }
    }

    /// Returns font's vertical height: the ascender minus the descender.
    ///
    /// Returns `None` when `vhea` table is not present.
    pub fn vertical_height(&self) -> (r: Option<i16>)
        requires
            self.vhea matches Some(t) ==> vertical_height_fits(t@),
        ensures
            r == (match self.vhea {
                Some(t) => Some((i16_or_zero(t@, 4) - i16_or_zero(t@, 6)) as i16),
                None => None,
            }),
    {
        let ascender = match self.vertical_ascender() {
            Some(v) => v,
            None => return None,
        };
        let descender = match self.vertical_descender() {
            Some(v) => v,
            None => return None,
        };
        Some(ascender - descender)
    }

    /// Returns font's vertical line gap.
    ///
    /// Returns `None` when `vhea` table is not present.
    pub fn vertical_line_gap(&self) -> (r: Option<i16>)
        ensures
            r == (match self.vhea {
                Some(t) => Some(i16_or_zero(t@, 8)),
                None => None,
            }),
    {
        match self.vhea {
            Some(t) => Some(hhea::line_gap(t)),
            None => None,
        }
    }

    /// Parses glyph's vertical advance using
    /// [Vertical Metrics Table](https://docs.microsoft.com/en-us/typography/opentype/spec/vmtx).
    pub fn glyph_ver_advance(&self, glyph_id: GlyphId) -> (r: Option<u16>)
        ensures
            match self.vmtx {
                Some(t) => r == hmtx::spec_advance(t, glyph_id.0),
                None => r is None,
            },
    {
        match self.vmtx {
            Some(t) => t.advance(glyph_id),
            None => None,
        }
    }

    /// Parses glyph's vertical side bearing using
    /// [Vertical Metrics Table](https://docs.microsoft.com/en-us/typography/opentype/spec/vmtx).
    pub fn glyph_ver_side_bearing(&self, glyph_id: GlyphId) -> (r: Option<i16>)
        ensures
            match self.vmtx {
                Some(t) => r == hmtx::spec_side_bearing(t, glyph_id.0),
                None => r is None,
            },
    {
        match self.vmtx {
            Some(t) => t.side_bearing(glyph_id),
            None => None,
        }
    }
}

} // verus!
