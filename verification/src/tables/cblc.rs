//! Glyph locations from a [Color Bitmap Location Table](
//! https://docs.microsoft.com/en-us/typography/opentype/spec/cblc).

use vstd::prelude::*;
use crate::GlyphId;
use crate::parser::{be_u16, be_u32, in_bounds, u16_at, u32_at, bsearch, binary_search, read_u8_at, read_u16_at, read_u32_at};

verus! {

/// The image format of a bitmap glyph.
#[derive(Clone, Copy, PartialEq, Eq, Structural, Debug)]
pub enum BitmapFormat {
    Format17,
    Format18,
    Format19,
}

/// Glyph metrics of a bitmap glyph.
#[derive(Clone, Copy, PartialEq, Eq, Structural, Debug)]
pub struct Metrics {
    pub x: i8,
    pub y: i8,
    pub width: u8,
    pub height: u8,
}

/// Where the bitmap of a glyph lies in the `CBDT` table.
#[derive(Clone, Copy, PartialEq, Eq, Structural, Debug)]
pub struct Location {
    pub format: BitmapFormat,
    pub offset: usize,
    pub metrics: Metrics,
    pub ppem: u16,
}

/// A glyph and its image offset, as index subtables of format 4 list them.
#[derive(Clone, Copy, PartialEq, Eq, Structural, Debug)]
pub struct GlyphIdOffsetPair {
    pub glyph_id: GlyphId,
    pub offset: u16,
}

/// The scan of the bitmap size records after `i` of them, as the state
/// (selected record, its ppem, read position). Each step reads the glyph
/// range and the horizontal ppem 40 bytes past the position; the position
/// then moves on to the next 48-byte record.
pub open spec fn size_scan(d: Seq<u8>, glyph: u16, ppem: u16, i: int) -> Option<(Option<int>, u16, int)>
    decreases i,
{
    if i <= 0 {
        Some((None, 0u16, 8))
    } else {
        match size_scan(d, glyph, ppem, i - 1) {
            None => None,
            Some(st) => {
                let p = st.2 + 40;
                if !in_bounds(d, p, 5) {
                    None
                } else {
                    let start = u16_at(d, p);
                    let end = u16_at(d, p + 2);
                    let pp = d[p + 4] as u16;
                    if !(start <= glyph && glyph <= end) {
                        Some((st.0, st.1, p + 8))
                    } else if (ppem <= pp && pp < st.1) || (ppem > st.1 && pp > st.1) {
                        Some((Some(i - 1), pp, p + 8))
                    } else {
                        Some((st.0, st.1, p + 8))
                    }
                }
            }
        }
    }
}

/// The selected bitmap size record: (index subtable array offset, number of
/// index subtables, ppem).
pub open spec fn size_table(d: Seq<u8>, glyph: u16, ppem: u16) -> Option<(u32, u32, u16)> {
    if !in_bounds(d, 4, 4) {
        None
    } else {
        match size_scan(d, glyph, ppem, u32_at(d, 4) as int) {
            Some(st) => match st.0 {
                Some(idx) => {
                    let p = 8 + idx * 48;
                    if in_bounds(d, p, 12) {
                        Some((u32_at(d, p), u32_at(d, p + 8), st.1))
                    } else {
                        None
                    }
                },
                None => None,
            },
            None => None,
        }
    }
}

/// The first index subtable record from `i` on whose glyph range holds
/// `glyph`: its first glyph and the absolute offset of its subtable.
pub open spec fn index_scan(d: Seq<u8>, arr: int, n: int, glyph: u16, i: int) -> Option<(u16, int)>
    decreases n - i,
{
    if i < 0 || i >= n {
        None
    } else {
        let p = arr + 8 * i;
        if !in_bounds(d, p, 8) {
            None
        } else if u16_at(d, p) <= glyph && glyph <= u16_at(d, p + 2) {
            Some((u16_at(d, p), arr + u32_at(d, p + 4)))
        } else {
            index_scan(d, arr, n, glyph, i + 1)
        }
    }
}

/// The offset of the first glyph/offset pair from `i` on that names `glyph`.
pub open spec fn pair_scan(d: Seq<u8>, p: int, n: int, glyph: u16, i: int) -> Option<u16>
    decreases n - i,
{
    if i < 0 || i >= n {
        None
    } else if u16_at(d, p + 4 * i) == glyph {
        Some(u16_at(d, p + 4 * i + 2))
    } else {
        pair_scan(d, p, n, glyph, i + 1)
    }
}

/// The image offset that the index subtable at `off` gives the glyph that
/// lies `diff` glyphs past its first one.
pub open spec fn image_offset(d: Seq<u8>, off: int, diff: int, glyph: u16) -> Option<int> {
    let index_format = u16_at(d, off);
    let base = u32_at(d, off + 4) as int;
    if index_format == 1 {
        if in_bounds(d, off + 8 + 4 * diff, 4) {
            Some(base + u32_at(d, off + 8 + 4 * diff))
        } else {
            None
        }
    } else if index_format == 2 {
        if in_bounds(d, off + 8, 4) {
            Some(base + diff * u32_at(d, off + 8))
        } else {
            None
        }
    } else if index_format == 3 {
        if in_bounds(d, off + 8 + 2 * diff, 2) {
            Some(base + u16_at(d, off + 8 + 2 * diff))
        } else {
            None
        }
    } else if index_format == 4 {
        if in_bounds(d, off + 8, 4) && (u32_at(d, off + 8) as int) < 0xFFFF_FFFF
            && in_bounds(d, off + 12, 4 * (u32_at(d, off + 8) + 1)) {
            match pair_scan(d, off + 12, u32_at(d, off + 8) + 1, glyph, 0) {
                Some(o) => Some(base + o),
                None => None,
            }
        } else {
            None
        }
    } else if index_format == 5 {
        if in_bounds(d, off + 8, 4) && in_bounds(d, off + 20, 4)
            && in_bounds(d, off + 24, 2 * u32_at(d, off + 20)) {
            match bsearch(d, off + 24, u32_at(d, off + 20) as int, 2, 2, glyph as int) {
                Some(i) => Some(base + i * u32_at(d, off + 8)),
                None => None,
            }
        } else {
            None
        }
    } else {
        None
    }
}

/// The image format a number stands for.
pub open spec fn bitmap_format(f: u16) -> Option<BitmapFormat> {
    if f == 17 {
        Some(BitmapFormat::Format17)
    } else if f == 18 {
        Some(BitmapFormat::Format18)
    } else if f == 19 {
        Some(BitmapFormat::Format19)
    } else {
        None
    }
}

/// The location of the glyph's bitmap: image format, offset and ppem of the
/// selected bitmap size.
pub open spec fn spec_find_location(d: Seq<u8>, glyph: u16, ppem: u16) -> Option<(BitmapFormat, int, u16)> {
    match size_table(d, glyph, ppem) {
        None => None,
        Some(st) => {
            if st.0 > d.len() {
                None
            } else {
                match index_scan(d, st.0 as int, st.1 as int, glyph, 0) {
                    None => None,
                    Some(sub) => {
                        let off = sub.1;
                        if !in_bounds(d, off, 8) {
                            None
                        } else {
                            match bitmap_format(u16_at(d, off + 2)) {
                                None => None,
                                Some(f) => match image_offset(d, off, glyph - sub.0, glyph) {
                                    Some(o) => if 0 <= o <= usize::MAX {
                                        Some((f, o, st.2))
                                    } else {
                                        None
                                    },
                                    None => None,
                                },
                            }
                        }
                    }
                }
            }
        }
    }
}

/// Where the glyph's image lies, once the bitmap size and the index subtable
/// (at `off`, whose first glyph is `first`) are chosen: the subtable's image
/// data offset plus, for `diff` = the glyph's distance from `first`,
/// - in index format 1, the 32-bit offset at `off + 8 + 4 * diff`;
/// - in index format 2, `diff` images of the 32-bit size at `off + 8`;
/// - in index format 3, the 16-bit offset at `off + 8 + 2 * diff`.
/// An unknown image format gives no location.
pub proof fn lemma_image_offsets(d: Seq<u8>, glyph: u16, ppem: u16, st: (u32, u32, u16), first: u16, off: int)
    requires
        size_table(d, glyph, ppem) == Some(st),
        st.0 <= d.len(),
        index_scan(d, st.0 as int, st.1 as int, glyph, 0) == Some((first, off)),
        0 <= off,
        off + 8 <= d.len(),
    ensures
        ({
            let diff = glyph - first;
            let base = be_u32(d, off + 4);
            let f = bitmap_format(be_u16(d, off + 2) as u16);
            &&& f is None ==> spec_find_location(d, glyph, ppem) is None
            &&& f is Some && be_u16(d, off) == 1 && off + 12 + 4 * diff <= d.len() && base + be_u32(
                d,
                off + 8 + 4 * diff,
            ) <= usize::MAX ==> spec_find_location(d, glyph, ppem) == Some(
                (f.unwrap(), base + be_u32(d, off + 8 + 4 * diff), st.2),
            )
            &&& f is Some && be_u16(d, off) == 2 && off + 12 <= d.len() && base + diff * be_u32(
                d,
                off + 8,
            ) <= usize::MAX ==> spec_find_location(d, glyph, ppem) == Some(
                (f.unwrap(), base + diff * be_u32(d, off + 8), st.2),
            )
            &&& f is Some && be_u16(d, off) == 3 && off + 10 + 2 * diff <= d.len() && base + be_u16(
                d,
                off + 8 + 2 * diff,
            ) <= usize::MAX ==> spec_find_location(d, glyph, ppem) == Some(
                (f.unwrap(), base + be_u16(d, off + 8 + 2 * diff), st.2),
            )
        }),
{
    lemma_index_scan_range(d, st.0 as int, st.1 as int, glyph, 0);
}

proof fn lemma_size_scan_stays_none(d: Seq<u8>, glyph: u16, ppem: u16, i: int, j: int)
    requires
        i <= j,
        size_scan(d, glyph, ppem, i) is None,
    ensures
        size_scan(d, glyph, ppem, j) is None,
    decreases j - i,
{
    if i < j {
        lemma_size_scan_stays_none(d, glyph, ppem, i, j - 1);
    }
}

proof fn lemma_index_scan_range(d: Seq<u8>, arr: int, n: int, glyph: u16, i: int)
    requires
        0 <= arr,
    ensures
        index_scan(d, arr, n, glyph, i) matches Some(x) ==> x.0 <= glyph && arr <= x.1 <= arr + 0xFFFF_FFFF,
    decreases n - i,
{
    if 0 <= i < n {
        lemma_index_scan_range(d, arr, n, glyph, i + 1);
    }
}

pub open spec fn opt_u32_as_int(o: Option<u32>) -> Option<int> {
    match o {
        Some(v) => Some(v as int),
        None => None,
    }
}

/// Picks the bitmap size record whose glyph range holds the glyph and whose
/// ppem suits `pixels_per_em` best.
fn select_bitmap_size_table(data: &[u8], glyph_id: GlyphId, pixels_per_em: u16) -> (r: Option<(u32, u32, u16)>)
    ensures
        r == size_table(data@, glyph_id.0, pixels_per_em),
{
    let count = match read_u32_at(data, 4) {
        Some(v) => v,
        None => return None,
    };
    let g = glyph_id.0;
    let mut idx: Option<u32> = None;
    let mut max_ppem: u16 = 0;
    let mut pos: usize = 8;
    let mut i: u32 = 0;
    while i < count
        invariant
            in_bounds(data@, 4, 4),
            count == u32_at(data@, 4),
            g == glyph_id.0,
            i <= count,
            idx matches Some(k) ==> k < i,
            size_scan(data@, g, pixels_per_em, i as int) matches Some(st) && st.0 == opt_u32_as_int(idx)
                && st.1 == max_ppem
                && pos as int == (if st.2 <= usize::MAX { st.2 } else { usize::MAX as int }),
        decreases count - i,
    {
        assert(data@.len() == data.len());
        if pos > data.len() || data.len() - pos < 45 {
            proof {
                lemma_size_scan_stays_none(data@, g, pixels_per_em, i + 1, count as int);
            }
            return None;
        }
        let p = pos + 40;
        let start = match read_u16_at(data, p) {
            Some(v) => v,
            None => return None,
        };
        let end = match read_u16_at(data, p + 2) {
            Some(v) => v,
            None => return None,
        };
        let ppem = match read_u8_at(data, p + 4) {
            Some(v) => v as u16,
            None => return None,
        };
        if start <= g && g <= end && ((pixels_per_em <= ppem && ppem < max_ppem) || (pixels_per_em
            > max_ppem && ppem > max_ppem)) {
            idx = Some(i);
            max_ppem = ppem;
        }
        // On to the next 48-byte record.
        pos = p.saturating_add(8);
        i = i + 1;
    }
    let k = match idx {
        Some(k) => k,
        None => return None,
    };
    assert(data@.len() == data.len());
    if (k as u64) * 48 + 20 > data.len() as u64 {
        return None;
    }
    let p = 8 + 48 * k as usize;
    let array_offset = match read_u32_at(data, p) {
        Some(v) => v,
        None => return None,
    };
    let number_of_subtables = match read_u32_at(data, p + 8) {
        Some(v) => v,
        None => return None,
    };
    Some((array_offset, number_of_subtables, max_ppem))
}

/// Finds the first index subtable record whose glyph range holds the glyph.
fn select_index_subtable(data: &[u8], arr: u32, n: u32, glyph_id: GlyphId) -> (r: Option<(u16, u64)>)
    requires
        arr <= data@.len(),
    ensures
        r == (match index_scan(data@, arr as int, n as int, glyph_id.0, 0) {
            Some(x) => Some((x.0, x.1 as u64)),
            None => None,
        }),
{
    let g = glyph_id.0;
    let mut i: u32 = 0;
    while i < n
        invariant
            arr <= data@.len(),
            g == glyph_id.0,
            i <= n,
            index_scan(data@, arr as int, n as int, g, 0) == index_scan(data@, arr as int, n as int, g, i as int),
        decreases n - i,
    {
        assert(data@.len() == data.len());
        let p64: u64 = arr as u64 + 8 * i as u64;
        if p64 + 8 > data.len() as u64 {
            return None;
        }
        let p = p64 as usize;
        let start = match read_u16_at(data, p) {
            Some(v) => v,
            None => return None,
        };
        let end = match read_u16_at(data, p + 2) {
            Some(v) => v,
            None => return None,
        };
        let offset = match read_u32_at(data, p + 4) {
            Some(v) => v,
            None => return None,
        };
        if start <= g && g <= end {
            return Some((start, arr as u64 + offset as u64));
        }
        i = i + 1;
    }
    None
}

/// Finds the glyph/offset pair for the glyph among `n` pairs at `p`.
fn find_pair(data: &[u8], p: usize, n: u64, glyph: u16) -> (r: Option<u16>)
    requires
        in_bounds(data@, p as int, 4 * n),
    ensures
        r == pair_scan(data@, p as int, n as int, glyph, 0),
{
    let mut i: u64 = 0;
    while i < n
        invariant
            in_bounds(data@, p as int, 4 * n),
            i <= n,
            pair_scan(data@, p as int, n as int, glyph, 0) == pair_scan(data@, p as int, n as int, glyph, i as int),
        decreases n - i,
    {
        assert(data@.len() == data.len());
        let q = p + 4 * i as usize;
        let g = match read_u16_at(data, q) {
            Some(v) => v,
            None => return None,
        };
        if g == glyph {
            return read_u16_at(data, q + 2);
        }
        i = i + 1;
    }
    None
}

/// Computes the image offset from the index subtable at `off`.
fn read_image_offset(data: &[u8], off: usize, diff: u16, glyph: u16) -> (r: Option<u64>)
    requires
        in_bounds(data@, off as int, 8),
    ensures
        r matches Some(v) ==> image_offset(data@, off as int, diff as int, glyph) == Some(v as int),
        r is None ==> (image_offset(data@, off as int, diff as int, glyph) matches Some(o) ==> o > u64::MAX),
{
    assert(data@.len() == data.len());
    let index_format = match read_u16_at(data, off) {
        Some(v) => v,
        None => return None,
    };
    let base = match read_u32_at(data, off + 4) {
        Some(v) => v as u64,
        None => return None,
    };
    let rest = data.len() - off;
    if index_format == 1 {
        if rest < 12 + 4 * diff as usize {
            return None;
        }
        match read_u32_at(data, off + 8 + 4 * diff as usize) {
            Some(v) => Some(base + v as u64),
            None => None,
        }
    } else if index_format == 2 {
        match read_u32_at(data, off + 8) {
            Some(v) => {
                assert((diff as u64) * (v as u64) <= 0xFFFF * 0xFFFF_FFFFu64) by (nonlinear_arith)
                    requires
                        diff <= 0xFFFF,
                        v <= 0xFFFF_FFFF,
                ;
                Some(base + diff as u64 * v as u64)
            },
            None => None,
        }
    } else if index_format == 3 {
        if rest < 10 + 2 * diff as usize {
            return None;
        }
        match read_u16_at(data, off + 8 + 2 * diff as usize) {
            Some(v) => Some(base + v as u64),
            None => None,
        }
    } else if index_format == 4 {
        let num = match read_u32_at(data, off + 8) {
            Some(v) => v,
            None => return None,
        };
        if num == 0xFFFF_FFFF {
            return None;
        }
        let n: u64 = num as u64 + 1;
        if (rest as u64) < 12 + 4 * n {
            return None;
        }
        match find_pair(data, off + 12, n, glyph) {
            Some(o) => Some(base + o as u64),
            None => None,
        }
    } else if index_format == 5 {
        if rest < 24 {
            return None;
        }
        let image_size = match read_u32_at(data, off + 8) {
            Some(v) => v,
            None => return None,
        };
        let num = match read_u32_at(data, off + 20) {
            Some(v) => v,
            None => return None,
        };
        if (rest as u64) < 24 + 2 * num as u64 {
            return None;
        }
        match binary_search(data, off + 24, num, 2, 2, glyph as u32) {
            Some(i) => {
                assert((i as u64) * (image_size as u64) <= 0xFFFF_FFFFu64 * 0xFFFF_FFFFu64) by (nonlinear_arith)
                    requires
                        i <= 0xFFFF_FFFF,
                        image_size <= 0xFFFF_FFFF,
                ;
                let prod: u64 = i as u64 * image_size as u64;
                if prod > u64::MAX - base {
                    None
                } else {
                    Some(base + prod)
                }
            },
            None => None,
        }
    } else {
        None
    }
}

/// Finds where the bitmap of a glyph lies, for the bitmap size that suits
/// `pixels_per_em` best among those that hold the glyph.
///
/// The table version is not checked: fonts in the wild carry versions other
/// than the one the specification allows.
pub fn find_location(data: &[u8], glyph_id: GlyphId, pixels_per_em: u16) -> (r: Option<Location>)
    ensures
        r == (match spec_find_location(data@, glyph_id.0, pixels_per_em) {
            Some(l) => Some(Location {
                format: l.0,
                offset: l.1 as usize,
                metrics: Metrics { x: 0, y: 0, width: 0, height: 0 },
                ppem: l.2,
            }),
            None => None,
        }),
{
    let (arr, n, ppem) = match select_bitmap_size_table(data, glyph_id, pixels_per_em) {
        Some(t) => t,
        None => return None,
    };
    if arr as usize > data.len() {
        return None;
    }
    proof {
        lemma_index_scan_range(data@, arr as int, n as int, glyph_id.0, 0);
    }
    let (start, off64) = match select_index_subtable(data, arr, n, glyph_id) {
        Some(x) => x,
        None => return None,
    };
    assert(data@.len() == data.len());
    if off64 > data.len() as u64 || data.len() as u64 - off64 < 8 {
        return None;
    }
    let off = off64 as usize;
    let image_format = match read_u16_at(data, off + 2) {
        Some(v) => v,
        None => return None,
    };
    let format = if image_format == 17 {
        BitmapFormat::Format17
    } else if image_format == 18 {
        BitmapFormat::Format18
    } else if image_format == 19 {
        BitmapFormat::Format19
    } else {
        return None;
    };
    let glyph_diff = glyph_id.0 - start;
    let offset = match read_image_offset(data, off, glyph_diff, glyph_id.0) {
        Some(o) => o,
        None => return None,
    };
    if offset > usize::MAX as u64 {
        return None;
    }
    Some(Location {
        format,
        offset: offset as usize,
        metrics: Metrics { x: 0, y: 0, width: 0, height: 0 },
        ppem,
    })
}

} // verus!
