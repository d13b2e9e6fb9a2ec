//! An [Embedded Bitmap Data Table](
//! https://docs.microsoft.com/en-us/typography/opentype/spec/ebdt) implementation.
//!
//! CBDT is defined as a backward compatible extension to EBDT, so any valid
//! EBDT is also a valid CBDT: its images are read as CBDT ones are.

use vstd::prelude::*;
use crate::{GlyphId, RasterGlyphImage};
use super::{cbdt, eblc};
use super::cbdt::spec_image;
use super::cblc::spec_find_location;

verus! {

/// An [Embedded Bitmap Data Table](
/// https://docs.microsoft.com/en-us/typography/opentype/spec/ebdt).
#[derive(Clone, Copy, Debug)]
pub struct Table<'a>(pub cbdt::Table<'a>);

impl<'a> Table<'a> {
    /// Parses a table from raw data.
    pub fn parse(locations: eblc::Table<'a>, data: &'a [u8]) -> (r: Option<Table<'a>>)
        ensures
            r matches Some(t) && t.0.locations@ == locations.0@ && t.0.data@ == data@,
    {
        match cbdt::Table::parse(locations.0, data) {
            Some(t) => Some(Table(t)),
            None => None,
        }
    }

    /// Returns a raster image for the glyph.
    pub fn get(&self, glyph_id: GlyphId, pixels_per_em: u16) -> (r: Option<RasterGlyphImage<'a>>)
        ensures
            match spec_find_location(self.0.locations@, glyph_id.0, pixels_per_em) {
                Some(l) => match r {
                    Some(img) => spec_image(self.0.data@, l.0, l.1, l.2) == Some(img@),
                    None => spec_image(self.0.data@, l.0, l.1, l.2) is None,
                },
                None => r is None,
            },
    {
        self.0.get(glyph_id, pixels_per_em)
    }
}

} // verus!
