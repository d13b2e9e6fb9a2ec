//! A [Font Header Table](
//! https://docs.microsoft.com/en-us/typography/opentype/spec/head) implementation.

use vstd::prelude::*;
use crate::Rect;
use crate::parser::{u16_at, i16_at, read_u16_at, read_i16_at};

verus! {

/// An index format used by the [Index to Location Table](
/// https://docs.microsoft.com/en-us/typography/opentype/spec/loca).
#[derive(Clone, Copy, PartialEq, Eq, Structural, Debug)]
pub enum IndexToLocationFormat {
    Short,
    Long,
}

/// A [Font Header Table](https://docs.microsoft.com/en-us/typography/opentype/spec/head).
#[derive(Clone, Copy, PartialEq, Eq, Structural, Debug)]
pub struct Table {
    /// Units per EM.
    ///
    /// Guarantee to be in a 16..=16384 range.
    pub units_per_em: u16,
    /// A bounding box that large enough to enclose any glyph from the face.
    pub global_bbox: Rect,
    /// An index format used by the [Index to Location Table](
    /// https://docs.microsoft.com/en-us/typography/opentype/spec/loca).
    pub index_to_location_format: IndexToLocationFormat,
}

/// The header a 54-byte `head` table describes: units per em in 16..=16384
/// and an index format of 0 (short) or 1 (long).
pub open spec fn spec_head(d: Seq<u8>) -> Option<Table> {
    if d.len() != 54 || u16_at(d, 18) < 16 || u16_at(d, 18) > 16384 || u16_at(d, 50) > 1 {
        None
    } else {
        Some(Table {
            units_per_em: u16_at(d, 18),
            global_bbox: Rect {
                x_min: i16_at(d, 36),
                y_min: i16_at(d, 38),
                x_max: i16_at(d, 40),
                y_max: i16_at(d, 42),
            },
            index_to_location_format: if u16_at(d, 50) == 0 {
                IndexToLocationFormat::Short
            } else {
                IndexToLocationFormat::Long
            },
        })
    }
}

impl Table {
    /// Parses a table from raw data.
    pub fn parse(data: &[u8]) -> (r: Option<Table>)
        ensures
            r == spec_head(data@),
            r matches Some(t) ==> 16 <= t.units_per_em <= 16384,
    {
        if data.len() != 54 {
            return None;
        }
        // version, font revision, checksum adjustment, magic number and flags
        let units_per_em = match read_u16_at(data, 18) {
            Some(v) => v,
            None => return None,
        };
        // created and modified times
        let x_min = match read_i16_at(data, 36) {
            Some(v) => v,
            None => return None,
        };
        let y_min = match read_i16_at(data, 38) {
            Some(v) => v,
            None => return None,
        };
        let x_max = match read_i16_at(data, 40) {
            Some(v) => v,
            None => return None,
        };
        let y_max = match read_i16_at(data, 42) {
            Some(v) => v,
            None => return None,
        };
        // mac style, lowest PPEM and font direction hint
        let index_to_location_format = match read_u16_at(data, 50) {
            Some(v) => v,
            None => return None,
        };
        if !(units_per_em >= 16 && units_per_em <= 16384) {
            return None;
        }
        let index_to_location_format = if index_to_location_format == 0 {
            IndexToLocationFormat::Short
        } else if index_to_location_format == 1 {
            IndexToLocationFormat::Long
        } else {
            return None;
        };
        Some(Table {
            units_per_em,
            global_bbox: Rect { x_min, y_min, x_max, y_max },
            index_to_location_format,
        })
    }
}

} // verus!
