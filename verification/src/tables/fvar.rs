//! Variation axes from a [Font Variations Table](
//! https://docs.microsoft.com/en-us/typography/opentype/spec/fvar).

use vstd::prelude::*;
use crate::{Fixed, Tag};
use crate::parser::{in_bounds, u16_at, u32_at, i32_at, read_u16_at, read_u32_at, bytes_at, Stream};

verus! {

/// A [variation axis](https://docs.microsoft.com/en-us/typography/opentype/spec/fvar#variationaxisrecord).
///
/// The values are 16.16 fixed-point numbers; the minimum and maximum are
/// widened, where needed, to hold the default value.
#[derive(Clone, Copy, PartialEq, Eq, Structural, Debug)]
pub struct VariationAxis {
    pub tag: Tag,
    pub min_value: Fixed,
    pub def_value: Fixed,
    pub max_value: Fixed,
    /// An axis name in the `name` table.
    pub name_id: u16,
    pub hidden: bool,
}

/// The axis that the 20-byte record at `p` of `d` describes.
pub open spec fn axis_at(d: Seq<u8>, p: int) -> VariationAxis {
    let min = i32_at(d, p + 4);
    let def = i32_at(d, p + 8);
    let max = i32_at(d, p + 12);
    VariationAxis {
        tag: Tag(u32_at(d, p)),
        min_value: Fixed(if def <= min { def } else { min }),
        def_value: Fixed(def),
        max_value: Fixed(if def >= max { def } else { max }),
        name_id: u16_at(d, p + 18),
        hidden: (u16_at(d, p + 16) / 8) % 2 == 1,
    }
}

/// A [Font Variations Table](https://docs.microsoft.com/en-us/typography/opentype/spec/fvar).
#[derive(Clone, Copy, Debug)]
pub struct Table<'a> {
    /// The axis records, twenty bytes each.
    pub axes: &'a [u8],
    /// Number of axes; never zero.
    pub axis_count: u16,
}

/// The table is of version 1.0, has at least one axis and its axis records fit.
pub open spec fn table_ok(d: Seq<u8>) -> bool {
    &&& in_bounds(d, 0, 10)
    &&& u32_at(d, 0) == 0x00010000
    &&& u16_at(d, 8) != 0
    &&& in_bounds(d, u16_at(d, 4) as int, 20 * u16_at(d, 8))
}

impl<'a> Table<'a> {
    /// Parses a table from raw data.
    pub fn parse(data: &'a [u8]) -> (r: Option<Table<'a>>)
        ensures
            r is Some <==> table_ok(data@),
            r matches Some(t) ==> t.axis_count == u16_at(data@, 8) && t.axes@ == data@.subrange(
                u16_at(data@, 4) as int,
                u16_at(data@, 4) + 20 * u16_at(data@, 8),
            ),
    {
        let mut s = Stream::new(data);
        let version = match s.read_u32() {
            Some(v) => v,
            None => return None,
        };
        if version != 0x00010000 {
            return None;
        }
        let axes_array_offset = match s.read_u16() {
            Some(v) => v,
            None => return None,
        };
        s.advance(2); // reserved
        let axis_count = match s.read_u16() {
            Some(v) => v,
            None => return None,
        };
        // 'If axisCount is zero, then the font is not functional as a variable font,
        // and must be treated as a non-variable font;
        // any variation-specific tables or data is ignored.'
        if axis_count == 0 {
            return None;
        }
        assert(data@.len() == data.len());
        if axes_array_offset as usize > data.len() {
            return None;
        }
        let axes = match bytes_at(data, axes_array_offset as usize, 20 * axis_count as usize) {
            Some(b) => b,
            None => return None,
        };
        Some(Table { axes, axis_count })
    }

    /// Iterates over the variation axes.
    pub fn axes(&self) -> (r: VariationAxes<'a>)
        ensures
            r.data == self.axes,
            r.count == self.axis_count,
            r.index == 0,
    {
        VariationAxes { data: self.axes, count: self.axis_count, index: 0 }
    }
}

/// An iterator over variation axes.
#[derive(Clone, Copy, Debug)]
pub struct VariationAxes<'a> {
    /// The axis records.
    pub data: &'a [u8],
    /// Number of records.
    pub count: u16,
    /// The next record.
    pub index: u16,
}

impl<'a> VariationAxes<'a> {
    /// Returns the next axis.
    pub fn next(&mut self) -> (r: Option<VariationAxis>)
        ensures
            final(self).data == old(self).data,
            final(self).count == old(self).count,
            if old(self).index < old(self).count && in_bounds(old(self).data@, 20 * old(self).index, 20) {
                r == Some(axis_at(old(self).data@, 20 * old(self).index))
                    && final(self).index == old(self).index + 1
            } else {
                r is None && final(self).index == old(self).index
            },
    {
        if self.index >= self.count {
            return None;
        }
        let d = self.data;
        let p = 20 * self.index as usize;
        assert(d@.len() == d.len());
        if p > d.len() || d.len() - p < 20 {
            return None;
        }
        let tag = match read_u32_at(d, p) {
            Some(v) => v,
            None => return None,
        };
        let min = match read_fixed(d, p + 4) {
            Some(v) => v,
            None => return None,
        };
        let def = match read_fixed(d, p + 8) {
            Some(v) => v,
            None => return None,
        };
        let max = match read_fixed(d, p + 12) {
            Some(v) => v,
            None => return None,
        };
        let flags = match read_u16_at(d, p + 16) {
            Some(v) => v,
            None => return None,
        };
        let name_id = match read_u16_at(d, p + 18) {
            Some(v) => v,
            None => return None,
        };
        self.index = self.index + 1;
        let min_value = if def <= min { def } else { min };
        let max_value = if def >= max { def } else { max };
        assert((flags >> 3) & 1 == 1 <==> (flags / 8) % 2 == 1) by (bit_vector);
        Some(VariationAxis {
            tag: Tag(tag),
            min_value: Fixed(min_value),
            def_value: Fixed(def),
            max_value: Fixed(max_value),
            name_id,
            hidden: (flags >> 3) & 1 == 1,
        })
    }

    /// The number of axes left.
    pub fn count(self) -> (r: u16)
        ensures
            r == (if self.index <= self.count { self.count - self.index } else { 0 }),
    {
        if self.index <= self.count {
            self.count - self.index
        } else {
            0
        }
    }
}

/// Reads a 16.16 fixed-point value as its raw number.
fn read_fixed(d: &[u8], p: usize) -> (r: Option<i32>)
    ensures
        r == (if in_bounds(d@, p as int, 4) { Some(i32_at(d@, p as int)) } else { None }),
{
    match read_u32_at(d, p) {
        Some(u) => if u >= 0x8000_0000 {
            Some((u as i64 - 0x1_0000_0000) as i32)
        } else {
            Some(u as i32)
        },
        None => None,
    }
}

} // verus!
