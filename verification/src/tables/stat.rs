//! A [Style Attributes Table](https://docs.microsoft.com/en-us/typography/opentype/spec/stat) implementation.

use vstd::prelude::*;
use crate::{Fixed, Tag};
use crate::parser::{in_bounds, u16_at, u32_at, i32_at, read_u16_at, read_u32_at, bytes_at, tail_from, Stream};

verus! {

/// Axis-value pairing.
#[derive(Clone, Copy, PartialEq, Eq, Structural, Debug)]
pub struct AxisValue {
    /// Zero-based index into [`Table::axes`].
    pub axis_index: u16,
    /// Numeric value for this axis.
    pub value: Fixed,
}

/// A list of six-byte axis-value pairings.
#[derive(Clone, Copy, Debug)]
pub struct AxisValues<'a> {
    /// The records.
    pub data: &'a [u8],
    /// Number of records.
    pub count: u16,
}

impl<'a> AxisValues<'a> {
    /// Number of pairings.
    pub fn len(&self) -> (r: u16)
        ensures
            r == self.count,
    {
        self.count
    }

    /// The pairing at `index`.
    pub fn get(&self, index: u16) -> (r: Option<AxisValue>)
        ensures
            r == (if index < self.count && in_bounds(self.data@, 6 * index, 6) {
                Some(AxisValue {
                    axis_index: u16_at(self.data@, 6 * index),
                    value: Fixed(i32_at(self.data@, 6 * index + 2)),
                })
            } else {
                None
            }),
    {
        if index >= self.count {
            return None;
        }
        let d = self.data;
        let p = 6 * index as usize;
        assert(d@.len() == d.len());
        if p > d.len() || d.len() - p < 6 {
            return None;
        }
        let axis_index = match read_u16_at(d, p) {
            Some(v) => v,
            None => return None,
        };
        let value = match read_fixed(d, p + 2) {
            Some(v) => v,
            None => return None,
        };
        Some(AxisValue { axis_index, value })
    }
}

/// Reads a 16.16 fixed-point number.
fn read_fixed(d: &[u8], p: usize) -> (r: Option<Fixed>)
    ensures
        r == (if in_bounds(d@, p as int, 4) { Some(Fixed(i32_at(d@, p as int))) } else { None }),
{
    match read_u32_at(d, p) {
        Some(u) => {
            let v: i32 = if u >= 0x8000_0000 {
                (u as i64 - 0x1_0000_0000) as i32
            } else {
                u as i32
            };
            Some(Fixed(v))
        },
        None => None,
    }
}

/// The [axis record](https://learn.microsoft.com/en-us/typography/opentype/spec/stat#axis-records) struct provides information about a single design axis.
#[derive(Clone, Copy, PartialEq, Eq, Structural, Debug)]
pub struct AxisRecord {
    /// Axis tag.
    pub tag: Tag,
    /// The name ID for entries in the 'name' table that provide a display string for this axis.
    pub name_id: u16,
    /// Sort order for e.g. composing font family or face names.
    pub ordering: u16,
}

/// A list of eight-byte axis records.
#[derive(Clone, Copy, Debug)]
pub struct AxisRecords<'a> {
    /// The records.
    pub data: &'a [u8],
    /// Number of records.
    pub count: u16,
}

impl<'a> AxisRecords<'a> {
    /// Number of axes.
    pub fn len(&self) -> (r: u16)
        ensures
            r == self.count,
    {
        self.count
    }

    /// The axis at `index`.
    pub fn get(&self, index: u16) -> (r: Option<AxisRecord>)
        ensures
            r == (if index < self.count && in_bounds(self.data@, 8 * index, 8) {
                Some(AxisRecord {
                    tag: Tag(u32_at(self.data@, 8 * index)),
                    name_id: u16_at(self.data@, 8 * index + 4),
                    ordering: u16_at(self.data@, 8 * index + 6),
                })
            } else {
                None
            }),
    {
        if index >= self.count {
            return None;
        }
        let d = self.data;
        let p = 8 * index as usize;
        assert(d@.len() == d.len());
        if p > d.len() || d.len() - p < 8 {
            return None;
        }
        let tag = match read_u32_at(d, p) {
            Some(v) => v,
            None => return None,
        };
        let name_id = match read_u16_at(d, p + 4) {
            Some(v) => v,
            None => return None,
        };
        let ordering = match read_u16_at(d, p + 6) {
            Some(v) => v,
            None => return None,
        };
        Some(AxisRecord { tag: Tag(tag), name_id, ordering })
    }
}

/// [Flags](https://learn.microsoft.com/en-us/typography/opentype/spec/stat#flags) for [`AxisValue`].
#[derive(Clone, Copy, PartialEq, Eq, Structural, Debug)]
pub struct AxisValueFlags(pub u16);

impl AxisValueFlags {
    /// If set, this value also applies to older versions of this font.
    pub fn older_sibling_attribute(self) -> (r: bool)
        ensures
            r == (self.0 % 2 == 1),
    {
        let v = self.0;
        assert(v & 0x0001 != 0 <==> v % 2 == 1) by (bit_vector);
        v & 0x0001 != 0
    }

    /// If set, this value is the normal (a.k.a. "regular") value for the font family.
    pub fn elidable(self) -> (r: bool)
        ensures
            r == ((self.0 / 2) % 2 == 1),
    {
        let v = self.0;
        assert(v & 0x0002 != 0 <==> (v / 2) % 2 == 1) by (bit_vector);
        v & 0x0002 != 0
    }
}

/// Axis value table format 1
#[derive(Clone, Copy, PartialEq, Eq, Structural, Debug)]
pub struct AxisValueTableFormat1 {
    /// Zero-based index into [`Table::axes`].
    pub axis_index: u16,
    /// Flags for AxisValue.
    pub flags: AxisValueFlags,
    /// The name ID of the display string.
    pub value_name_id: u16,
    /// Numeric value for this record.
    pub value: Fixed,
}

/// Axis value table format 2
#[derive(Clone, Copy, PartialEq, Eq, Structural, Debug)]
pub struct AxisValueTableFormat2 {
    /// Zero-based index into [`Table::axes`].
    pub axis_index: u16,
    /// Flags for AxisValue.
    pub flags: AxisValueFlags,
    /// The name ID of the display string.
    pub value_name_id: u16,
    /// Nominal numeric value for this record.
    pub nominal_value: Fixed,
    /// The minimum value for this record.
    pub range_min_value: Fixed,
    /// The maximum value for this record.
    pub range_max_value: Fixed,
}

/// Axis value table format 3
#[derive(Clone, Copy, PartialEq, Eq, Structural, Debug)]
pub struct AxisValueTableFormat3 {
    /// Zero-based index into [`Table::axes`].
    pub axis_index: u16,
    /// Flags for AxisValue.
    pub flags: AxisValueFlags,
    /// The name ID of the display string.
    pub value_name_id: u16,
    /// Numeric value for this record.
    pub value: Fixed,
    /// Numeric value for a style-linked mapping.
    pub linked_value: Fixed,
}

/// Axis value table format 4
#[derive(Clone, Copy, Debug)]
pub struct AxisValueTableFormat4<'a> {
    /// Flags for AxisValue.
    pub flags: u16,
    /// The name ID of the display string.
    pub value_name_id: u16,
    /// List of axis-value pairings.
    pub values: AxisValues<'a>,
}

/// An [axis value table](https://learn.microsoft.com/en-us/typography/opentype/spec/stat#axis-value-tables).
#[derive(Clone, Copy, Debug)]
pub enum AxisValueTable<'a> {
    Format1(AxisValueTableFormat1),
    Format2(AxisValueTableFormat2),
    Format3(AxisValueTableFormat3),
    Format4(AxisValueTableFormat4<'a>),
}

/// The bytes hold an axis value table of a known format, complete.
pub open spec fn value_table_ok(d: Seq<u8>) -> bool {
    &&& in_bounds(d, 0, 2)
    &&& {
        let f = u16_at(d, 0);
        ||| f == 1 && in_bounds(d, 2, 10)
        ||| f == 2 && in_bounds(d, 2, 18)
        ||| f == 3 && in_bounds(d, 2, 14)
        ||| f == 4 && in_bounds(d, 2, 6) && in_bounds(d, 8, 6 * u16_at(d, 2))
    }
}

/// `t` is the axis value table the bytes `d` hold.
pub open spec fn value_table_is<'a>(t: AxisValueTable<'a>, d: Seq<u8>) -> bool {
    match t {
        AxisValueTable::Format1(f) => u16_at(d, 0) == 1 && f == AxisValueTableFormat1 {
            axis_index: u16_at(d, 2),
            flags: AxisValueFlags(u16_at(d, 4)),
            value_name_id: u16_at(d, 6),
            value: Fixed(i32_at(d, 8)),
        },
        AxisValueTable::Format2(f) => u16_at(d, 0) == 2 && f == AxisValueTableFormat2 {
            axis_index: u16_at(d, 2),
            flags: AxisValueFlags(u16_at(d, 4)),
            value_name_id: u16_at(d, 6),
            nominal_value: Fixed(i32_at(d, 8)),
            range_min_value: Fixed(i32_at(d, 12)),
            range_max_value: Fixed(i32_at(d, 16)),
        },
        AxisValueTable::Format3(f) => u16_at(d, 0) == 3 && f == AxisValueTableFormat3 {
            axis_index: u16_at(d, 2),
            flags: AxisValueFlags(u16_at(d, 4)),
            value_name_id: u16_at(d, 6),
            value: Fixed(i32_at(d, 8)),
            linked_value: Fixed(i32_at(d, 12)),
        },
        AxisValueTable::Format4(f) => {
            &&& u16_at(d, 0) == 4
            &&& f.flags == u16_at(d, 4)
            &&& f.value_name_id == u16_at(d, 6)
            &&& f.values.count == u16_at(d, 2)
            &&& f.values.data@ == d.subrange(8, 8 + 6 * u16_at(d, 2))
        },
    }
}

/// Parses the axis value table at the start of `d`.
fn parse_value_table<'a>(d: &'a [u8]) -> (r: Option<AxisValueTable<'a>>)
    ensures
        r is Some <==> value_table_ok(d@),
        r matches Some(t) ==> value_table_is(t, d@),
{
    let format = match read_u16_at(d, 0) {
        Some(v) => v,
        None => return None,
    };
    assert(d@.len() == d.len());
    if format == 1 {
        if d.len() < 12 {
            return None;
        }
        let axis_index = match read_u16_at(d, 2) {
            Some(v) => v,
            None => return None,
        };
        let flags = match read_u16_at(d, 4) {
            Some(v) => v,
            None => return None,
        };
        let value_name_id = match read_u16_at(d, 6) {
            Some(v) => v,
            None => return None,
        };
        let value = match read_fixed(d, 8) {
            Some(v) => v,
            None => return None,
        };
        Some(AxisValueTable::Format1(AxisValueTableFormat1 {
            axis_index,
            flags: AxisValueFlags(flags),
            value_name_id,
            value,
        }))
    } else if format == 2 {
        if d.len() < 20 {
            return None;
        }
        let axis_index = match read_u16_at(d, 2) {
            Some(v) => v,
            None => return None,
        };
        let flags = match read_u16_at(d, 4) {
            Some(v) => v,
            None => return None,
        };
        let value_name_id = match read_u16_at(d, 6) {
            Some(v) => v,
            None => return None,
        };
        let nominal_value = match read_fixed(d, 8) {
            Some(v) => v,
            None => return None,
        };
        let range_min_value = match read_fixed(d, 12) {
            Some(v) => v,
            None => return None,
        };
        let range_max_value = match read_fixed(d, 16) {
            Some(v) => v,
            None => return None,
        };
        Some(AxisValueTable::Format2(AxisValueTableFormat2 {
            axis_index,
            flags: AxisValueFlags(flags),
            value_name_id,
            nominal_value,
            range_min_value,
            range_max_value,
        }))
    } else if format == 3 {
        if d.len() < 16 {
            return None;
        }
        let axis_index = match read_u16_at(d, 2) {
            Some(v) => v,
            None => return None,
        };
        let flags = match read_u16_at(d, 4) {
            Some(v) => v,
            None => return None,
        };
        let value_name_id = match read_u16_at(d, 6) {
            Some(v) => v,
            None => return None,
        };
        let value = match read_fixed(d, 8) {
            Some(v) => v,
            None => return None,
        };
        let linked_value = match read_fixed(d, 12) {
            Some(v) => v,
            None => return None,
        };
        Some(AxisValueTable::Format3(AxisValueTableFormat3 {
            axis_index,
            flags: AxisValueFlags(flags),
            value_name_id,
            value,
            linked_value,
        }))
    } else if format == 4 {
        let axis_count = match read_u16_at(d, 2) {
            Some(v) => v,
            None => return None,
        };
        let flags = match read_u16_at(d, 4) {
            Some(v) => v,
            None => return None,
        };
        let value_name_id = match read_u16_at(d, 6) {
            Some(v) => v,
            None => return None,
        };
        let values = match bytes_at(d, 8, 6 * axis_count as usize) {
            Some(b) => b,
            None => return None,
        };
        Some(AxisValueTable::Format4(AxisValueTableFormat4 {
            flags,
            value_name_id,
            values: AxisValues { data: values, count: axis_count },
        }))
    } else {
        None
    }
}

/// List of axis value tables.
#[derive(Clone, Copy, Debug)]
pub struct AxisValueTables<'a> {
    /// The whole `STAT` table.
    pub data: &'a [u8],
    /// Where the offsets to the axis value tables start, relative to the table.
    pub start: u32,
    /// The offsets, two bytes each, relative to `start`.
    pub offsets: &'a [u8],
    /// Number of offsets.
    pub count: u16,
    /// The next table to read.
    pub index: u16,
}

/// Where axis value table `i` starts in the `STAT` table, when the start lies in it.
pub open spec fn value_table_start<'a>(t: AxisValueTables<'a>, i: u16) -> Option<int> {
    if in_bounds(t.offsets@, 2 * i, 2) && u16_at(t.offsets@, 2 * i) + t.start <= t.data@.len() {
        Some(u16_at(t.offsets@, 2 * i) + t.start)
    } else {
        None
    }
}

impl<'a> AxisValueTables<'a> {
    /// Reads the next axis value table. The position only moves on when the
    /// table's start lies inside the data; a table of an unknown format or a
    /// truncated one gives `None` after the position moved.
    pub fn next(&mut self) -> (r: Option<AxisValueTable<'a>>)
        ensures
            final(self).data == old(self).data,
            final(self).start == old(self).start,
            final(self).offsets == old(self).offsets,
            final(self).count == old(self).count,
            if old(self).index >= old(self).count {
                r is None && final(self).index == old(self).index
            } else {
                match value_table_start(*old(self), old(self).index) {
                    None => r is None && final(self).index == old(self).index,
                    Some(p) => {
                        let b = old(self).data@.subrange(p, old(self).data@.len() as int);
                        &&& final(self).index == old(self).index + 1
                        &&& if value_table_ok(b) {
                            r matches Some(t) && value_table_is(t, b)
                        } else {
                            r is None
                        }
                    },
                }
            },
    {
        if self.index >= self.count {
            return None;
        }
        let offset = match read_u16_at(self.offsets, 2 * self.index as usize) {
            Some(v) => v,
            None => return None,
        };
        assert(self.data@.len() == self.data.len());
        if offset as u64 + self.start as u64 > self.data.len() as u64 {
            return None;
        }
        let tail = match tail_from(self.data, offset as usize + self.start as usize) {
            Some(t) => t,
            None => return None,
        };
        self.index = self.index + 1;
        parse_value_table(tail)
    }
}

/// A [Style Attributes Table](https://docs.microsoft.com/en-us/typography/opentype/spec/stat).
#[derive(Clone, Copy, Debug)]
pub struct Table<'a> {
    /// List of axes
    pub axes: AxisRecords<'a>,
    /// The whole table.
    pub data: &'a [u8],
    /// Where the axis value offsets start.
    pub value_lookup_start: u32,
    /// The axis value offsets, two bytes each.
    pub value_offsets: &'a [u8],
    /// Number of axis value offsets.
    pub value_count: u16,
}

/// The table is of version 1.0, 1.1 or 1.2 and its axis records and axis
/// value offsets fit.
pub open spec fn table_ok(d: Seq<u8>) -> bool {
    &&& in_bounds(d, 0, 18)
    &&& u16_at(d, 0) == 1
    &&& u16_at(d, 2) <= 2
    &&& in_bounds(d, u32_at(d, 8) as int, 8 * u16_at(d, 6))
    &&& in_bounds(d, u32_at(d, 14) as int, 2 * u16_at(d, 12))
}

impl<'a> Table<'a> {
    /// Parses a table from raw data.
    pub fn parse(data: &'a [u8]) -> (r: Option<Table<'a>>)
        ensures
            r is Some <==> table_ok(data@),
            r matches Some(t) ==> {
                let axis_offset = u32_at(data@, 8) as int;
                let lookup = u32_at(data@, 14) as int;
                &&& t.axes.count == u16_at(data@, 6)
                &&& t.axes.data@ == data@.subrange(axis_offset, axis_offset + 8 * u16_at(data@, 6))
                &&& t.data@ == data@
                &&& t.value_lookup_start == u32_at(data@, 14)
                &&& t.value_count == u16_at(data@, 12)
                &&& t.value_offsets@ == data@.subrange(lookup, lookup + 2 * u16_at(data@, 12))
            },
    {
        let mut s = Stream::new(data);
        let major = match s.read_u16() {
            Some(v) => v,
            None => return None,
        };
        let minor = match s.read_u16() {
            Some(v) => v,
            None => return None,
        };
        if !(major == 1 && minor <= 2) {
            return None;
        }
        let _axis_size = match s.read_u16() {
            Some(v) => v,
            None => return None,
        };
        let axis_count = match s.read_u16() {
            Some(v) => v,
            None => return None,
        };
        let axis_offset = match s.read_u32() {
            Some(v) => v,
            None => return None,
        };
        let value_count = match s.read_u16() {
            Some(v) => v,
            None => return None,
        };
        let value_lookup_start = match s.read_u32() {
            Some(v) => v,
            None => return None,
        };
        assert(data@.len() == data.len());
        if axis_offset as u64 > data.len() as u64 || value_lookup_start as u64 > data.len() as u64 {
            return None;
        }
        let axes = match bytes_at(data, axis_offset as usize, 8 * axis_count as usize) {
            Some(b) => b,
            None => return None,
        };
        let value_offsets = match bytes_at(data, value_lookup_start as usize, 2 * value_count as usize) {
            Some(b) => b,
            None => return None,
        };
        Some(Table {
            axes: AxisRecords { data: axes, count: axis_count },
            data,
            value_lookup_start,
            value_offsets,
            value_count,
        })
    }

    /// Iterator over the collection of axis value tables.
    pub fn tables(&self) -> (r: AxisValueTables<'a>)
        ensures
            r.data == self.data,
            r.start == self.value_lookup_start,
            r.offsets == self.value_offsets,
            r.count == self.value_count,
            r.index == 0,
    {
        AxisValueTables {
            data: self.data,
            start: self.value_lookup_start,
            offsets: self.value_offsets,
            count: self.value_count,
            index: 0,
        }
    }
}

} // verus!
