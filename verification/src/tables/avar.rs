//! Coordinate mapping with an [Axis Variations Table](
//! https://docs.microsoft.com/en-us/typography/opentype/spec/avar).

use vstd::prelude::*;
use crate::parser::{in_bounds, u16_at, i16_at, u32_at, read_u16_at, read_i16_at, bytes_at, tail_from, Stream};

verus! {

/// Division rounding toward zero, as integer division in Rust does.
pub open spec fn tdiv(a: int, b: int) -> int {
    if a >= 0 && b > 0 {
        a / b
    } else if a < 0 && b < 0 {
        (-a) / (-b)
    } else if a >= 0 {
        -(a / (-b))
    } else {
        -((-a) / b)
    }
}

pub open spec fn from_at(m: Seq<u8>, k: int) -> int {
    i16_at(m, 4 * k) as int
}

pub open spec fn to_at(m: Seq<u8>, k: int) -> int {
    i16_at(m, 4 * k + 2) as int
}

pub open spec fn in_i16(x: int) -> bool {
    i16::MIN <= x <= i16::MAX
}

pub open spec fn in_i32(x: int) -> bool {
    i32::MIN <= x <= i32::MAX
}

/// The first record from `i` on whose source coordinate is not below `v`;
/// `n` when there is none.
pub open spec fn first_not_below(m: Seq<u8>, n: int, v: int, i: int) -> int
    decreases n - i,
{
    if i >= n {
        n
    } else if v > from_at(m, i) {
        first_not_below(m, n, v, i + 1)
    } else {
        i
    }
}

/// The record whose segment holds `v`, for a map of at least two records
/// whose first source coordinate is below `v`.
pub open spec fn segment_end(m: Seq<u8>, n: int, v: int) -> int {
    let i = first_not_below(m, n, v, 1);
    if i == n {
        n - 1
    } else {
        i
    }
}

/// Interpolates `v` between the records `i - 1` and `i`, rounding the slope
/// term to nearest: `to(i-1) + ((to(i) - to(i-1)) * (v - from(i-1)) + denom / 2) / denom`.
pub open spec fn interpolate(m: Seq<u8>, i: int, v: int) -> int {
    let denom = from_at(m, i) - from_at(m, i - 1);
    let k = (to_at(m, i) - to_at(m, i - 1)) * (v - from_at(m, i - 1)) + tdiv(denom, 2);
    to_at(m, i - 1) + tdiv(k, denom)
}

/// Mapping `v` shifts it by a record's `to - from`; the shift, taken as a
/// subtraction and then an addition of 16-bit numbers, stays in range.
pub open spec fn shift_fits(v: int, from: int, to: int) -> bool {
    in_i16(v - from) && in_i16(v - from + to)
}

/// The arithmetic of mapping `v` through the `n` records `m` stays in the
/// range of its 16-bit and 32-bit intermediate values.
pub open spec fn map_value_fits(m: Seq<u8>, n: int, v: int) -> bool {
    if n == 0 {
        true
    } else if n == 1 || v <= from_at(m, 0) {
        shift_fits(v, from_at(m, 0), to_at(m, 0))
    } else {
        let i = segment_end(m, n, v);
        if v >= from_at(m, i) {
            shift_fits(v, from_at(m, i), to_at(m, i))
        } else if from_at(m, i - 1) == from_at(m, i) {
            true
        } else {
            let denom = from_at(m, i) - from_at(m, i - 1);
            let prod = (to_at(m, i) - to_at(m, i - 1)) * (v - from_at(m, i - 1));
            &&& in_i32(prod)
            &&& in_i32(prod + tdiv(denom, 2))
            &&& in_i32(interpolate(m, i, v))
        }
    }
}

/// Maps `v` through the `n` segment map records `m`: outside the first and
/// last source coordinates it is shifted by the nearest record; between two
/// records it is interpolated. The result must fit in 16 bits, and so must
/// (or in 32 bits, for the interpolation) every intermediate value of the
/// computation: a value that would overflow has no mapping.
pub open spec fn spec_map_value(m: Seq<u8>, n: int, v: int) -> Option<i16> {
    if !map_value_fits(m, n, v) {
        None
    } else if n == 0 {
        Some(v as i16)
    } else if n == 1 || v <= from_at(m, 0) {
        Some((v - from_at(m, 0) + to_at(m, 0)) as i16)
    } else {
        let i = segment_end(m, n, v);
        if v >= from_at(m, i) {
            Some((v - from_at(m, i) + to_at(m, i)) as i16)
        } else if from_at(m, i - 1) == from_at(m, i) {
            Some(to_at(m, i - 1) as i16)
        } else if in_i16(interpolate(m, i, v)) {
            Some(interpolate(m, i, v) as i16)
        } else {
            None
        }
    }
}

proof fn lemma_first_not_below(m: Seq<u8>, n: int, v: int, i: int)
    requires
        1 <= i,
    ensures
        i <= first_not_below(m, n, v, i) || n < i,
        first_not_below(m, n, v, i) <= n || n < i,
        first_not_below(m, n, v, i) < n ==> v <= from_at(m, first_not_below(m, n, v, i)),
    decreases n - i,
{
    if i < n && v > from_at(m, i) {
        lemma_first_not_below(m, n, v, i + 1);
    }
}

/// Division of `a` by `b`, rounding toward zero.
fn trunc_div(a: i64, b: i64) -> (r: i64)
    requires
        b != 0,
        -0x1_0000_0000_0000 <= a <= 0x1_0000_0000_0000,
        -0x1_0000_0000_0000 <= b <= 0x1_0000_0000_0000,
    ensures
        r == tdiv(a as int, b as int),
{
    let ua: u64 = if a >= 0 { a as u64 } else { (-a) as u64 };
    let ub: u64 = if b >= 0 { b as u64 } else { (-b) as u64 };
    let q: u64 = ua / ub;
    assert(q <= ua) by (nonlinear_arith)
        requires
            ub >= 1,
            q == ua / ub,
    ;
    if (a >= 0) == (b > 0) {
        q as i64
    } else {
        -(q as i64)
    }
}

/// Maps a coordinate through a segment map of `count` records.
pub fn map_value(map: &[u8], count: u16, value: i16) -> (r: Option<i16>)
    ensures
        r == (if in_bounds(map@, 0, 4 * count) {
            spec_map_value(map@, count as int, value as int)
        } else {
            None
        }),
{
    // The records must all be there.
    if map.len() / 4 < count as usize {
        return None;
    }
    // This code is based on harfbuzz implementation.
    if count == 0 {
        return Some(value);
    }
    let from0 = read_from(map, 0);
    let to0 = read_to(map, 0);
    if count == 1 || value <= from0 {
        return shift(value, from0, to0);
    }
    let mut i: u16 = 1;
    while i < count && value > read_from(map, i)
        invariant
            1 <= i <= count,
            in_bounds(map@, 0, 4 * count),
            first_not_below(map@, count as int, value as int, 1)
                == first_not_below(map@, count as int, value as int, i as int),
        decreases count - i,
    {
        i = i + 1;
    }
    if i == count {
        i = i - 1;
    }
    proof {
        lemma_first_not_below(map@, count as int, value as int, 1);
    }
    let curr_from = read_from(map, i);
    let curr_to = read_to(map, i);
    if value >= curr_from {
        return shift(value, curr_from, curr_to);
    }
    let prev_from = read_from(map, i - 1);
    let prev_to = read_to(map, i - 1);
    if prev_from == curr_from {
        return Some(prev_to);
    }
    let curr_from = curr_from as i32;
    let curr_to = curr_to as i32;
    let prev_from = prev_from as i32;
    let prev_to = prev_to as i32;
    let denom = curr_from - prev_from;
    let a: i64 = (curr_to - prev_to) as i64;
    let b: i64 = (value as i32 - prev_from) as i64;
    assert(-0x1_0000_0000 <= a * b <= 0x1_0000_0000) by (nonlinear_arith)
        requires
            -0x10000 <= a <= 0x10000,
            -0x10000 <= b <= 0x10000,
    ;
    let prod = a * b;
    if prod < i32::MIN as i64 || prod > i32::MAX as i64 {
        return None;
    }
    let k = prod + trunc_div(denom as i64, 2);
    if k < i32::MIN as i64 || k > i32::MAX as i64 {
        return None;
    }
    let result = prev_to as i64 + trunc_div(k, denom as i64);
    if result < i32::MIN as i64 || result > i32::MAX as i64 {
        return None;
    }
    if result < i16::MIN as i64 || result > i16::MAX as i64 {
        None
    } else {
        Some(result as i16)
    }
}

/// Shifts `v` by `to - from`, as `v - from + to` in 16 bits; `None` when
/// either step overflows.
fn shift(v: i16, from: i16, to: i16) -> (r: Option<i16>)
    ensures
        r == (if shift_fits(v as int, from as int, to as int) {
            Some((v - from + to) as i16)
        } else {
            None
        }),
{
    match v.checked_sub(from) {
        Some(a) => a.checked_add(to),
        None => None,
    }
}

/// The source coordinate of record `k`.
fn read_from(map: &[u8], k: u16) -> (r: i16)
    requires
        in_bounds(map@, 4 * k, 4),
    ensures
        r == from_at(map@, k as int),
{
    assert(map@.len() == map.len());
    match read_i16_at(map, 4 * k as usize) {
        Some(v) => v,
        None => 0,
    }
}

/// The target coordinate of record `k`.
fn read_to(map: &[u8], k: u16) -> (r: i16)
    requires
        in_bounds(map@, 4 * k, 4),
    ensures
        r == to_at(map@, k as int),
{
    assert(map@.len() == map.len());
    match read_i16_at(map, 4 * k as usize + 2) {
        Some(v) => v,
        None => 0,
    }
}

/// Where the segment map of axis `i` starts in the maps `d`, each map being a
/// record count and that many four-byte records, when the maps before it fit.
pub open spec fn map_pos(d: Seq<u8>, i: int) -> Option<int>
    decreases i,
{
    if i <= 0 {
        Some(0)
    } else {
        match map_pos(d, i - 1) {
            Some(p) => if in_bounds(d, p, 2) && in_bounds(d, p + 2, 4 * u16_at(d, p)) {
                Some(p + 2 + 4 * u16_at(d, p))
            } else {
                None
            },
            None => None,
        }
    }
}

/// The segment map of axis `i`: its record count and records.
pub open spec fn axis_map(d: Seq<u8>, i: int) -> Option<(int, Seq<u8>)> {
    match map_pos(d, i) {
        Some(p) => if in_bounds(d, p, 2) && in_bounds(d, p + 2, 4 * u16_at(d, p)) {
            Some((u16_at(d, p) as int, d.subrange(p + 2, p + 2 + 4 * u16_at(d, p))))
        } else {
            None
        },
        None => None,
    }
}

/// An [Axis Variations Table](https://docs.microsoft.com/en-us/typography/opentype/spec/avar).
#[derive(Clone, Copy, Debug)]
pub struct Table<'a> {
    /// Number of axes; never zero.
    pub axis_count: u16,
    /// The segment maps, one per axis.
    pub data: &'a [u8],
}

/// The table is of version 1.0, has at least one axis and all its segment maps fit.
pub open spec fn table_ok(d: Seq<u8>) -> bool {
    &&& in_bounds(d, 0, 8)
    &&& u32_at(d, 0) == 0x00010000
    &&& u16_at(d, 6) != 0
    &&& map_pos(d.subrange(8, d.len() as int), u16_at(d, 6) as int) is Some
}

proof fn lemma_map_pos_stays_none(d: Seq<u8>, i: int, j: int)
    requires
        i <= j,
        map_pos(d, i) is None,
    ensures
        map_pos(d, j) is None,
    decreases j - i,
{
    if i < j {
        lemma_map_pos_stays_none(d, i, j - 1);
    }
}

proof fn lemma_map_pos_bounds(d: Seq<u8>, i: int)
    requires
        0 <= i,
    ensures
        map_pos(d, i) matches Some(p) ==> 0 <= p <= d.len(),
    decreases i,
{
    if i > 0 {
        lemma_map_pos_bounds(d, i - 1);
    }
}

/// Axis `i` maps the coordinate `v` to `x`.
pub open spec fn mapped_to(d: Seq<u8>, i: int, v: i16, x: i16) -> bool {
    match axis_map(d, i) {
        Some(m) => spec_map_value(m.1, m.0, v as int) == Some(x),
        None => false,
    }
}

/// The first `k` coordinates of `new` are those of `old` mapped, and the rest
/// are those of `old`.
pub open spec fn prefix_mapped(d: Seq<u8>, old: Seq<i16>, new: Seq<i16>, k: int) -> bool {
    &&& 0 <= k <= old.len()
    &&& new.len() == old.len()
    &&& forall|i: int| 0 <= i < k ==> #[trigger] mapped_to(d, i, old[i], new[i])
    &&& forall|i: int| k <= i < old.len() ==> #[trigger] new[i] == old[i]
}

/// Axis `i` has a readable map that maps `v` to a 16-bit value.
pub open spec fn maps_value(d: Seq<u8>, i: int, v: i16) -> bool {
    match axis_map(d, i) {
        Some(m) => spec_map_value(m.1, m.0, v as int) is Some,
        None => false,
    }
}

impl<'a> Table<'a> {
    /// Parses a table from raw data.
    pub fn parse(data: &'a [u8]) -> (r: Option<Table<'a>>)
        ensures
            r is Some <==> table_ok(data@),
            r matches Some(t) ==> t.axis_count == u16_at(data@, 6)
                && t.data@ == data@.subrange(8, data@.len() as int),
    {
        let mut s = Stream::new(data);
        let version = match s.read_u32() {
            Some(v) => v,
            None => return None,
        };
        if version != 0x00010000 {
            return None;
        }
        s.advance(2); // reserved
        let axis_count = match s.read_u16() {
            Some(v) => v,
            None => return None,
        };
        if axis_count == 0 {
            return None;
        }
        let maps = match tail_from(data, 8) {
            Some(t) => t,
            None => return None,
        };
        // Check that every segment map fits.
        let mut pos: usize = 0;
        let mut i: u16 = 0;
        while i < axis_count
            invariant
                i <= axis_count,
                map_pos(maps@, i as int) == Some(pos as int),
                in_bounds(data@, 0, 8),
                u32_at(data@, 0) == 0x00010000,
                axis_count == u16_at(data@, 6),
                axis_count != 0,
                maps@ == data@.subrange(8, data@.len() as int),
            decreases axis_count - i,
        {
            assert(maps@.len() == maps.len());
            let count = match read_u16_at(maps, pos) {
                Some(v) => v,
                None => {
                    proof {
                        lemma_map_pos_stays_none(maps@, i + 1, axis_count as int);
                    }
                    return None;
                },
            };
            if maps.len() - pos - 2 < 4 * count as usize {
                proof {
                    lemma_map_pos_stays_none(maps@, i + 1, axis_count as int);
                }
                return None;
            }
            pos = pos + 2 + 4 * count as usize;
            i = i + 1;
        }
        Some(Table { axis_count, data: maps })
    }

    /// Maps normalized coordinates, one per axis, through the segment maps.
    ///
    /// Fails when the number of coordinates is not the number of axes, or at
    /// the first coordinate whose map is unreadable or whose mapping
    /// overflows; the coordinates before it are mapped by then.
    pub fn map_coordinates(&self, coordinates: &mut Vec<i16>) -> (r: Option<()>)
        ensures
            final(coordinates)@.len() == old(coordinates)@.len(),
            self.axis_count != old(coordinates)@.len() ==> r is None && final(coordinates)@ == old(coordinates)@,
            self.axis_count == old(coordinates)@.len() && (forall|i: int| 0 <= i < old(coordinates)@.len()
                ==> #[trigger] maps_value(self.data@, i, old(coordinates)@[i])) ==> r is Some,
            r is Some ==> forall|i: int| 0 <= i < old(coordinates)@.len()
                ==> #[trigger] mapped_to(self.data@, i, old(coordinates)@[i], final(coordinates)@[i]),
            exists|k: int| #[trigger] prefix_mapped(self.data@, old(coordinates)@, final(coordinates)@, k),
    {
        if self.axis_count as usize != coordinates.len() {
            assert(prefix_mapped(self.data@, coordinates@, coordinates@, 0));
            return None;
        }
        let d = self.data;
        let ghost orig = coordinates@;
        let mut pos: usize = 0;
        let mut i: usize = 0;
        while i < coordinates.len()
            invariant
                coordinates@.len() == orig.len(),
                orig == old(coordinates)@,
                self.axis_count == orig.len(),
                d@ == self.data@,
                i <= orig.len(),
                map_pos(d@, i as int) == Some(pos as int),
                prefix_mapped(d@, orig, coordinates@, i as int),
            decreases orig.len() - i,
        {
            assert(d@.len() == d.len());
            proof {
                lemma_map_pos_bounds(d@, i as int);
            }
            let count = match read_u16_at(d, pos) {
                Some(v) => v,
                None => {
                    assert(!maps_value(d@, i as int, orig[i as int]));
                    return None;
                },
            };
            let map = match bytes_at(d, pos + 2, 4 * count as usize) {
                Some(m) => m,
                None => {
                    assert(!maps_value(d@, i as int, orig[i as int]));
                    return None;
                },
            };
            let value = coordinates[i];
            assert(orig[i as int] == value);
            let mapped = match map_value(map, count, value) {
                Some(v) => v,
                None => {
                    assert(!maps_value(d@, i as int, orig[i as int]));
                    return None;
                },
            };
            coordinates.set(i, mapped);
            pos = pos + 2 + 4 * count as usize;
            i = i + 1;
        }
        Some(())
    }
}

} // verus!
