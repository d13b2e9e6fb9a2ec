//! SVG documents from an [SVG Table](https://docs.microsoft.com/en-us/typography/opentype/spec/svg).

use vstd::prelude::*;
use crate::GlyphId;
use crate::parser::{in_bounds, u16_at, u32_at, read_u16_at, read_u32_at, bytes_at};

verus! {

/// The position of the first of the `n` document records at `p`, from
/// record `i` on, whose glyph range holds `g`.
pub open spec fn record_scan(d: Seq<u8>, p: int, n: int, g: u16, i: int) -> Option<int>
    decreases n - i,
{
    if i < 0 || i >= n {
        None
    } else {
        let q = p + 12 * i;
        if u16_at(d, q) <= g && g <= u16_at(d, q + 2) {
            Some(q)
        } else {
            record_scan(d, p, n, g, i + 1)
        }
    }
}

/// The SVG document of the first record whose glyph range holds `g`.
pub open spec fn spec_svg(d: Seq<u8>, g: u16) -> Option<Seq<u8>> {
    if !in_bounds(d, 2, 4) || u32_at(d, 2) == 0 {
        None
    } else {
        let list = u32_at(d, 2) as int;
        if !in_bounds(d, list, 2) || !in_bounds(d, list + 2, 12 * u16_at(d, list)) {
            None
        } else {
            match record_scan(d, list + 2, u16_at(d, list) as int, g, 0) {
                None => None,
                Some(q) => {
                    let doc = u32_at(d, q + 4) as int;
                    let len = u32_at(d, q + 8) as int;
                    if doc == 0 || !in_bounds(d, list + doc, len) {
                        None
                    } else {
                        Some(d.subrange(list + doc, list + doc + len))
                    }
                }
            }
        }
    }
}

proof fn lemma_record_scan_range(d: Seq<u8>, p: int, n: int, g: u16, i: int)
    ensures
        record_scan(d, p, n, g, i) matches Some(q) ==> p <= q && q + 12 <= p + 12 * n,
    decreases n - i,
{
    if 0 <= i < n {
        lemma_record_scan_range(d, p, n, g, i + 1);
    }
}

/// Finds the record among `n` records at `p` whose range holds the glyph.
fn find_record(data: &[u8], p: usize, n: u16, g: u16) -> (r: Option<usize>)
    requires
        in_bounds(data@, p as int, 12 * n),
    ensures
        r matches Some(q) ==> record_scan(data@, p as int, n as int, g, 0) == Some(q as int),
        r is None ==> record_scan(data@, p as int, n as int, g, 0) is None,
{
    let mut i: u16 = 0;
    while i < n
        invariant
            in_bounds(data@, p as int, 12 * n),
            i <= n,
            record_scan(data@, p as int, n as int, g, 0) == record_scan(data@, p as int, n as int, g, i as int),
        decreases n - i,
    {
        assert(data@.len() == data.len());
        let q = p + 12 * i as usize;
        let start = match read_u16_at(data, q) {
            Some(v) => v,
            None => return None,
        };
        let end = match read_u16_at(data, q + 2) {
            Some(v) => v,
            None => return None,
        };
        if start <= g && g <= end {
            return Some(q);
        }
        i = i + 1;
    }
    None
}

/// Returns the SVG document that holds the glyph.
pub fn parse(data: &[u8], glyph_id: GlyphId) -> (r: Option<&[u8]>)
    ensures
        r matches Some(doc) ==> spec_svg(data@, glyph_id.0) == Some(doc@),
        r is None ==> spec_svg(data@, glyph_id.0) is None,
{
    let list = match read_u32_at(data, 2) {
        Some(v) => v,
        None => return None,
    };
    if list == 0 {
        return None;
    }
    assert(data@.len() == data.len());
    if list as u64 + 2 > data.len() as u64 {
        return None;
    }
    let list = list as usize;
    let count = match read_u16_at(data, list) {
        Some(v) => v,
        None => return None,
    };
    if (data.len() - list - 2) < 12 * count as usize {
        return None;
    }
    proof {
        lemma_record_scan_range(data@, list + 2, count as int, glyph_id.0, 0);
    }
    let q = match find_record(data, list + 2, count, glyph_id.0) {
        Some(q) => q,
        None => return None,
    };
    let doc = match read_u32_at(data, q + 4) {
        Some(v) => v,
        None => return None,
    };
    let len = match read_u32_at(data, q + 8) {
        Some(v) => v,
        None => return None,
    };
    if doc == 0 {
        return None;
    }
    if list as u64 + doc as u64 > data.len() as u64 {
        return None;
    }
    bytes_at(data, list + doc as usize, len as usize)
}

} // verus!
