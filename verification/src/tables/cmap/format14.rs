//! [Unicode variation sequences](https://docs.microsoft.com/en-us/typography/opentype/spec/cmap#format-14-unicode-variation-sequences).

use vstd::prelude::*;
use crate::GlyphId;
use crate::parser::{in_bounds, u16_at, u24_at, u32_at, binary_search, bsearch, lemma_record_in_bounds,
    read_u16_at, read_u32_at, tail_from, Stream};

verus! {

/// A result of a variation glyph lookup.
#[derive(Clone, Copy, PartialEq, Eq, Structural, Debug)]
pub enum GlyphVariationResult {
    /// The glyph was found in the variation's own mapping.
    Found(GlyphId),
    /// The variation uses the default glyph of the base character: look it up
    /// through the regular mapping.
    UseDefault,
}

/// Number of variation selector records.
pub open spec fn record_count(d: Seq<u8>) -> int {
    u32_at(d, 6) as int
}

pub open spec fn records_ok(d: Seq<u8>) -> bool {
    in_bounds(d, 6, 4) && in_bounds(d, 10, 11 * record_count(d))
}

/// The bytes from `off` to the end.
pub open spec fn tail_of(d: Seq<u8>, off: int) -> Seq<u8> {
    d.subrange(off, d.len() as int)
}

/// Range `j` of a default UVS table contains `cp`: a range covers its start
/// value and the `additionalCount` values that follow it.
pub open spec fn range_contains(dd: Seq<u8>, j: int, cp: int) -> bool {
    let start = u24_at(dd, 4 + 4 * j) as int;
    let end = start + dd[7 + 4 * j] as int;
    start <= cp && cp <= end
}

/// The outcome of the default UVS table at `dd`: `Some(true)` when a range
/// contains `cp`, `Some(false)` when none does, `None` when it is truncated.
pub open spec fn default_uvs(dd: Seq<u8>, cp: int) -> Option<bool> {
    if !in_bounds(dd, 0, 4) || !in_bounds(dd, 4, 4 * u32_at(dd, 0)) {
        None
    } else {
        Some(exists|j: int| 0 <= j < u32_at(dd, 0) && #[trigger] range_contains(dd, j, cp))
    }
}

/// The outcome of the non-default UVS table at `nd`: `Some(Some(g))` when the
/// code point is found, `Some(None)` when it is not, `None` when truncated.
pub open spec fn non_default_uvs(nd: Seq<u8>, cp: int) -> Option<Option<u16>> {
    if !in_bounds(nd, 0, 4) || !in_bounds(nd, 4, 5 * u32_at(nd, 0)) {
        None
    } else {
        match bsearch(nd, 4, u32_at(nd, 0) as int, 5, 3, cp) {
            Some(k) => Some(Some(u16_at(nd, 4 + 5 * k + 3))),
            None => Some(None),
        }
    }
}

/// The result for `cp` from variation selector record `i`: the default table
/// is consulted first, then the non-default one.
pub open spec fn record_result(d: Seq<u8>, i: int, cp: int) -> Option<GlyphVariationResult> {
    let doff = u32_at(d, 10 + 11 * i + 3) as int;
    let noff = u32_at(d, 10 + 11 * i + 7) as int;
    if doff != 0 && doff > d.len() {
        None
    } else if doff != 0 && default_uvs(tail_of(d, doff), cp) is None {
        None
    } else if doff != 0 && default_uvs(tail_of(d, doff), cp) == Some(true) {
        Some(GlyphVariationResult::UseDefault)
    } else if noff == 0 {
        None
    } else if noff > d.len() {
        None
    } else {
        match non_default_uvs(tail_of(d, noff), cp) {
            Some(Some(g)) => Some(GlyphVariationResult::Found(GlyphId(g))),
            _ => None,
        }
    }
}

/// The result of looking up `cp` under the variation selector `variation`.
pub open spec fn spec_glyph(d: Seq<u8>, cp: u32, variation: u32) -> Option<GlyphVariationResult> {
    if !records_ok(d) {
        None
    } else {
        match bsearch(d, 10, record_count(d), 11, 3, variation as int) {
            None => None,
            Some(i) => record_result(d, i, cp as int),
        }
    }
}

fn check_default_uvs(dd: &[u8], cp: u32) -> (r: Option<bool>)
    ensures
        r == default_uvs(dd@, cp as int),
{
    let mut s = Stream::new(dd);
    let count = match s.read_u32() {
        Some(v) => v,
        None => return None,
    };
    match s.read_array(count, 4) {
        Some(_) => {},
        None => return None,
    }
    let mut j: u32 = 0;
    while j < count
        invariant
            count == u32_at(dd@, 0),
            in_bounds(dd@, 4, 4 * count),
            0 <= j <= count,
            forall|k: int| 0 <= k < j ==> !#[trigger] range_contains(dd@, k, cp as int),
        decreases count - j,
    {
        proof {
            lemma_record_in_bounds(4, count as int, 4, j as int, dd@.len() as int);
        }
        assert(dd@.len() == dd.len());
        let p: usize = 4 + 4 * j as usize;
        let start: u32 = dd[p] as u32 * 0x10000 + dd[p + 1] as u32 * 0x100 + dd[p + 2] as u32;
        let additional = dd[p + 3];
        let end: u32 = start + additional as u32;
        if start <= cp && cp <= end {
            assert(range_contains(dd@, j as int, cp as int));
            return Some(true);
        }
        j = j + 1;
    }
    Some(false)
}

fn lookup_non_default_uvs(nd: &[u8], cp: u32) -> (r: Option<Option<u16>>)
    ensures
        r == non_default_uvs(nd@, cp as int),
{
    let mut s = Stream::new(nd);
    let count = match s.read_u32() {
        Some(v) => v,
        None => return None,
    };
    match s.read_array(count, 5) {
        Some(_) => {},
        None => return None,
    }
    assert(in_bounds(nd@, 4, 5 * u32_at(nd@, 0)));
    let found = binary_search(nd, 4, count, 5, 3, cp);
    assert(found == (match bsearch(nd@, 4, u32_at(nd@, 0) as int, 5, 3, cp as int) {
        Some(i) => Some(i as u32),
        None => None,
    }));
    match found {
        Some(k) => {
            proof {
                lemma_record_in_bounds(4, count as int, 5, k as int, nd@.len() as int);
            }
            assert(nd@.len() == nd.len());
            match read_u16_at(nd, 4 + 5 * k as usize + 3) {
                Some(g) => Some(Some(g)),
                None => None,
            }
        },
        None => Some(None),
    }
}

/// Looks up the glyph of `code_point` under the variation selector `variation`.
pub fn parse(data: &[u8], code_point: u32, variation: u32) -> (r: Option<GlyphVariationResult>)
    ensures
        r == spec_glyph(data@, code_point, variation),
{
    let mut s = Stream::new(data);
    s.advance(6); // format + length
    let count = match s.read_u32() {
        Some(v) => v,
        None => return None,
    };
    match s.read_array(count, 11) {
        Some(_) => {},
        None => return None,
    }
    let i = match binary_search(data, 10, count, 11, 3, variation) {
        Some(i) => i,
        None => return None,
    };
    lookup_record(data, i, code_point)
}

fn lookup_record(data: &[u8], i: u32, code_point: u32) -> (r: Option<GlyphVariationResult>)
    requires
        records_ok(data@),
        i < record_count(data@),
    ensures
        r == record_result(data@, i as int, code_point as int),
{
    proof {
        lemma_record_in_bounds(10, record_count(data@), 11, i as int, data@.len() as int);
    }
    assert(data@.len() == data.len());
    let doff = match read_u32_at(data, 10 + 11 * i as usize + 3) {
        Some(v) => v,
        None => return None,
    };
    let noff = match read_u32_at(data, 10 + 11 * i as usize + 7) {
        Some(v) => v,
        None => return None,
    };
    if doff != 0 {
        let dd = match tail_from(data, doff as usize) {
            Some(t) => t,
            None => return None,
        };
        match check_default_uvs(dd, code_point) {
            None => return None,
            Some(true) => return Some(GlyphVariationResult::UseDefault),
            Some(false) => {},
        }
    }
    if noff == 0 {
        return None;
    }
    let nd = match tail_from(data, noff as usize) {
        Some(t) => t,
        None => return None,
    };
    match lookup_non_default_uvs(nd, code_point) {
        Some(Some(g)) => Some(GlyphVariationResult::Found(GlyphId(g))),
        _ => None,
    }
}

} // verus!
