//! Bitmap glyphs from a [Standard Bitmap Graphics Table](
//! https://docs.microsoft.com/en-us/typography/opentype/spec/sbix).

use vstd::prelude::*;
use crate::{GlyphId, RasterGlyphImage, RasterImageFormat};
use crate::parser::{in_bounds, u16_at, i16_at, u32_at, read_u16_at, read_i16_at, read_u32_at, bytes_at};

verus! {

/// The graphic type tag `png `.
pub const PNG_TAG: u32 = 0x706E6720;
/// The graphic type tag `dupe`: the data holds the ID of another glyph.
pub const DUPE_TAG: u32 = 0x64757065;

/// How many `dupe` references are followed before giving up.
pub const MAX_DEPTH: u8 = 10;

/// The strike scan after `i` strikes, as (selected strike, its ppem).
pub open spec fn strike_scan(d: Seq<u8>, ppem: u16, i: int) -> Option<(int, u16)>
    decreases i,
{
    if i <= 0 {
        Some((0, 0u16))
    } else {
        match strike_scan(d, ppem, i - 1) {
            None => None,
            Some(st) => {
                let off = u32_at(d, 8 + 4 * (i - 1)) as int;
                if !in_bounds(d, off, 2) {
                    None
                } else {
                    let pp = u16_at(d, off);
                    if (ppem <= pp && pp < st.1) || (ppem > st.1 && pp > st.1) {
                        Some((i - 1, pp))
                    } else {
                        Some(st)
                    }
                }
            }
        }
    }
}

/// Width and height of a PNG image, from its header; both must fit in 16 bits.
pub open spec fn spec_png_size(img: Seq<u8>) -> Option<(u16, u16)> {
    if in_bounds(img, 16, 8) && u32_at(img, 16) <= 0xFFFF && u32_at(img, 20) <= 0xFFFF {
        Some((u32_at(img, 16) as u16, u32_at(img, 20) as u16))
    } else {
        None
    }
}

/// How many more `dupe` references the search from `depth` may follow: up to
/// the limit from below it, up to the largest 8-bit depth from above it.
pub open spec fn depth_budget(depth: int) -> int {
    if depth <= MAX_DEPTH {
        MAX_DEPTH - depth
    } else {
        255 - depth
    }
}

/// The image of glyph `g` from the strike that suits `ppem` best, following
/// `dupe` references until `depth` reaches the limit. A search that starts
/// past the limit never meets it; it follows references while the depth fits
/// in 8 bits.
pub open spec fn spec_sbix(d: Seq<u8>, n: u16, g: u16, ppem: u16, depth: int)
    -> Option<(i16, i16, u16, u16, u16, RasterImageFormat, Seq<u8>)>
    decreases depth_budget(depth),
{
    if depth == MAX_DEPTH || n == 0xFFFF || !in_bounds(d, 0, 8) || u16_at(d, 0) != 1
        || u32_at(d, 4) == 0 || !in_bounds(d, 8, 4 * u32_at(d, 4)) {
        None
    } else {
        match strike_scan(d, ppem, u32_at(d, 4) as int) {
            None => None,
            Some(st) => {
                let off = u32_at(d, 8 + 4 * st.0) as int;
                let total = n + 1;
                if !in_bounds(d, off + 4, 4 * total) || g + 1 >= total {
                    None
                } else {
                    let start = u32_at(d, off + 4 + 4 * g) as int;
                    let end = u32_at(d, off + 4 + 4 * (g + 1)) as int;
                    if start == end || end < start + 8 {
                        None
                    } else {
                        let len = end - start - 8;
                        let p = off + start;
                        if !in_bounds(d, p, 8 + len) {
                            None
                        } else {
                            let img = d.subrange(p + 8, p + 8 + len);
                            let tag = u32_at(d, p + 4);
                            if tag == PNG_TAG {
                                match spec_png_size(img) {
                                    Some(wh) => Some((i16_at(d, p), i16_at(d, p + 2), wh.0, wh.1, st.1,
                                        RasterImageFormat::PNG, img)),
                                    None => None,
                                }
                            } else if tag == DUPE_TAG && img.len() >= 2 && depth < 255 {
                                spec_sbix(d, n, u16_at(img, 0), ppem, depth + 1)
                            } else {
                                None
                            }
                        }
                    }
                }
            }
        }
    }
}

proof fn lemma_strike_scan_stays_none(d: Seq<u8>, ppem: u16, i: int, j: int)
    requires
        i <= j,
        strike_scan(d, ppem, i) is None,
    ensures
        strike_scan(d, ppem, j) is None,
    decreases j - i,
{
    if i < j {
        lemma_strike_scan_stays_none(d, ppem, i, j - 1);
    }
}

proof fn lemma_strike_scan_index(d: Seq<u8>, ppem: u16, i: int)
    requires
        i >= 1,
    ensures
        strike_scan(d, ppem, i) matches Some(st) ==> 0 <= st.0 < i,
    decreases i,
{
    if i > 1 {
        lemma_strike_scan_index(d, ppem, i - 1);
    } else {
        assert(strike_scan(d, ppem, 0) == Some((0int, 0u16)));
    }
}

/// Reads the size of a PNG image from its header.
fn png_size(data: &[u8]) -> (r: Option<(u16, u16)>)
    ensures
        r == spec_png_size(data@),
{
    let width = match read_u32_at(data, 16) {
        Some(v) => v,
        None => return None,
    };
    let height = match read_u32_at(data, 20) {
        Some(v) => v,
        None => return None,
    };
    // A PNG size larger than u16::MAX is an error.
    if width > 0xFFFF || height > 0xFFFF {
        return None;
    }
    Some((width as u16, height as u16))
}

/// Selects the strike that suits `pixels_per_em` best: (its index, its ppem).
fn select_strike(data: &[u8], count: u32, pixels_per_em: u16) -> (r: Option<(u32, u16)>)
    requires
        in_bounds(data@, 8, 4 * count),
    ensures
        r matches Some(x) ==> strike_scan(data@, pixels_per_em, count as int) == Some((x.0 as int, x.1)),
        r is None ==> strike_scan(data@, pixels_per_em, count as int) is None,
{
    let mut idx: u32 = 0;
    let mut max_ppem: u16 = 0;
    let mut i: u32 = 0;
    while i < count
        invariant
            in_bounds(data@, 8, 4 * count),
            i <= count,
            strike_scan(data@, pixels_per_em, i as int) == Some((idx as int, max_ppem)),
        decreases count - i,
    {
        assert(data@.len() == data.len());
        let offset = match read_u32_at(data, 8 + 4 * i as usize) {
            Some(v) => v,
            None => return None,
        };
        let ppem = match read_u16_at(data, offset as usize) {
            Some(v) => v,
            None => {
                proof {
                    lemma_strike_scan_stays_none(data@, pixels_per_em, i + 1, count as int);
                }
                return None;
            },
        };
        if (pixels_per_em <= ppem && ppem < max_ppem) || (pixels_per_em > max_ppem && ppem > max_ppem) {
            idx = i;
            max_ppem = ppem;
        }
        i = i + 1;
    }
    Some((idx, max_ppem))
}

/// Returns the raster image of a glyph from the strike that suits
/// `pixels_per_em` best. A `dupe` image is replaced by the image of the glyph
/// it names; at `depth` 10 the search gives up. A `dupe` met at depth 255
/// gives nothing, since the next depth does not fit in 8 bits.
pub fn parse<'a>(data: &'a [u8], number_of_glyphs: u16, glyph_id: GlyphId, pixels_per_em: u16, depth: u8)
    -> (r: Option<RasterGlyphImage<'a>>)
    ensures
        match r {
            Some(img) => spec_sbix(data@, number_of_glyphs, glyph_id.0, pixels_per_em, depth as int) == Some(img@),
            None => spec_sbix(data@, number_of_glyphs, glyph_id.0, pixels_per_em, depth as int) is None,
        },
    decreases depth_budget(depth as int),
{
    if depth == MAX_DEPTH {
        return None;
    }
    if number_of_glyphs == 0xFFFF {
        return None;
    }
    let total: u32 = number_of_glyphs as u32 + 1;
    let version = match read_u16_at(data, 0) {
        Some(v) => v,
        None => return None,
    };
    if version != 1 {
        return None;
    }
    let count = match read_u32_at(data, 4) {
        Some(v) => v,
        None => return None,
    };
    if count == 0 {
        return None;
    }
    assert(data@.len() == data.len());
    if (data.len() as u64) < 8 + 4 * count as u64 {
        return None;
    }
    let (idx, max_ppem) = match select_strike(data, count, pixels_per_em) {
        Some(x) => x,
        None => return None,
    };
    proof {
        lemma_strike_scan_index(data@, pixels_per_em, count as int);
    }
    let offset = match read_u32_at(data, 8 + 4 * idx as usize) {
        Some(v) => v,
        None => return None,
    };
    let g = glyph_id.0;
    if (data.len() as u64) < offset as u64 + 4 + 4 * total as u64 || g as u32 + 1 >= total {
        return None;
    }
    let base = offset as usize + 4;
    let start = match read_u32_at(data, base + 4 * g as usize) {
        Some(v) => v,
        None => return None,
    };
    let end = match read_u32_at(data, base + 4 * (g as usize + 1)) {
        Some(v) => v,
        None => return None,
    };
    if start == end || (end as u64) < start as u64 + 8 {
        // No bitmap data for that glyph.
        return None;
    }
    let len = (end - start - 8) as usize;
    let p64: u64 = offset as u64 + start as u64;
    if (data.len() as u64) < p64 + 8 + len as u64 {
        return None;
    }
    let p = p64 as usize;
    let x = match read_i16_at(data, p) {
        Some(v) => v,
        None => return None,
    };
    let y = match read_i16_at(data, p + 2) {
        Some(v) => v,
        None => return None,
    };
    let tag = match read_u32_at(data, p + 4) {
        Some(v) => v,
        None => return None,
    };
    let image_data = match bytes_at(data, p + 8, len) {
        Some(b) => b,
        None => return None,
    };
    // The `pdf ` and `mask` graphic types are ignored on purpose.
    if tag == PNG_TAG {
        match png_size(image_data) {
            Some((width, height)) => Some(RasterGlyphImage {
                x,
                y,
                width,
                height,
                pixels_per_em: max_ppem,
                format: RasterImageFormat::PNG,
                data: image_data,
            }),
            None => None,
        }
    } else if tag == DUPE_TAG {
        // The data holds the ID of the glyph whose bitmap is to be used.
        let other = match read_u16_at(image_data, 0) {
            Some(v) => v,
            None => return None,
        };
        if depth == 255 {
            return None;
        }
        parse(data, number_of_glyphs, GlyphId(other), pixels_per_em, depth + 1)
    } else {
        None
    }
}

/// Following `dupe` references stops at the depth limit: there no image is
/// found, whatever the data.
pub proof fn lemma_depth_limit(d: Seq<u8>, n: u16, g: u16, ppem: u16, depth: int)
    requires
        depth == MAX_DEPTH,
    ensures
        spec_sbix(d, n, g, ppem, depth) is None,
{
}

} // verus!
