//! [Segment mapping to delta values](https://docs.microsoft.com/en-us/typography/opentype/spec/cmap#format-4-segment-mapping-to-delta-values).

use vstd::prelude::*;
use crate::parser::{be_u16, in_bounds, u16_at, i16_at, to_i16, opt_u16_at, read_u16_at, read_i16_at, Stream};

verus! {

/// Number of segments: half of `segCountX2`.
pub open spec fn seg_count(d: Seq<u8>) -> int {
    u16_at(d, 6) as int / 2
}

pub open spec fn end_code(d: Seq<u8>, i: int) -> u16 {
    u16_at(d, 14 + 2 * i)
}

pub open spec fn start_code(d: Seq<u8>, i: int) -> u16 {
    u16_at(d, 16 + 2 * seg_count(d) + 2 * i)
}

pub open spec fn id_delta(d: Seq<u8>, i: int) -> i16 {
    i16_at(d, 16 + 4 * seg_count(d) + 2 * i)
}

/// Position of the `idRangeOffset` array.
pub open spec fn id_range_offsets_pos(d: Seq<u8>) -> int {
    16 + 6 * seg_count(d)
}

pub open spec fn id_range_offset(d: Seq<u8>, i: int) -> u16 {
    u16_at(d, id_range_offsets_pos(d) + 2 * i)
}

/// The header is readable, there is at least one segment and all four
/// segment arrays are present.
pub open spec fn arrays_ok(d: Seq<u8>) -> bool {
    in_bounds(d, 6, 2) && u16_at(d, 6) >= 2 && in_bounds(d, 0, 16 + 8 * seg_count(d))
}

/// The segment the subtable's own binary search settles on for `cp`, between
/// segments `start` (inclusive) and `end` (exclusive).
#[verifier::opaque]
pub open spec fn search(d: Seq<u8>, cp: int, start: int, end: int) -> Option<int>
    decreases end - start,
{
    if end <= start {
        None
    } else {
        let index = (start + end) / 2;
        if end_code(d, index) >= cp {
            if start_code(d, index) > cp {
                search(d, cp, start, index)
            } else {
                Some(index)
            }
        } else {
            search(d, cp, index + 1, end)
        }
    }
}

proof fn lemma_search_step(d: Seq<u8>, cp: int, start: int, end: int)
    requires
        start < end,
    ensures
        search(d, cp, start, end) == ({
            let index = (start + end) / 2;
            if end_code(d, index) >= cp {
                if start_code(d, index) > cp {
                    search(d, cp, start, index)
                } else {
                    Some(index)
                }
            } else {
                search(d, cp, index + 1, end)
            }
        }),
{
    reveal(search);
}

/// Two's complement 16-bit wrap-around of a value in `-65536..65536`.
pub open spec fn wrap_i16(x: int) -> int {
    if x > 32767 {
        x - 65536
    } else if x < -32768 {
        x + 65536
    } else {
        x
    }
}

/// The glyph of `cp` in segment `i`, as the format defines it: either the code
/// point plus the delta (modulo 65536), or an entry of the glyph index array
/// plus the delta.
#[verifier::opaque]
pub open spec fn glyph_in_segment(d: Seq<u8>, cp: int, i: int) -> Option<u16> {
    let iro = id_range_offset(d, i) as int;
    let delta_id = id_delta(d, i) as int;
    if iro == 0 {
        Some(((cp + delta_id + 65536) % 65536) as u16)
    } else {
        let delta = (cp - start_code(d, i) as int) * 2;
        if delta > 65535 {
            None
        } else {
            let p = (id_range_offsets_pos(d) + 2 * i) % 65536;
            let pos = ((p + delta) % 65536 + iro) % 65536;
            match opt_u16_at(d, pos) {
                None => None,
                Some(v) => if v == 0 {
                    None
                } else {
                    let w = wrap_i16(to_i16(v) as int + delta_id);
                    if w >= 0 {
                        Some(w as u16)
                    } else {
                        None
                    }
                },
            }
        }
    }
}

/// The glyph a format 4 subtable maps `cp` to.
pub open spec fn spec_glyph(d: Seq<u8>, cp: u32) -> Option<u16> {
    if cp > 0xFFFF || !arrays_ok(d) {
        None
    } else {
        match search(d, cp as int, 0, seg_count(d)) {
            None => None,
            Some(i) => glyph_in_segment(d, cp as int, i),
        }
    }
}

/// The segments of a subtable with `n` segments are well ordered: each starts
/// no later than it ends, and each ends before the next one starts. End codes
/// stand at `14 + 2i`, start codes at `16 + 2n + 2i`.
pub open spec fn segments_ordered(d: Seq<u8>, n: int) -> bool {
    &&& forall|i: int| 0 <= i < n ==> #[trigger] be_u16(d, 16 + 2 * n + 2 * i) <= be_u16(d, 14 + 2 * i)
    &&& forall|i: int, j: int| 0 <= i < j < n ==> #[trigger] be_u16(d, 14 + 2 * i) < #[trigger] be_u16(
        d,
        16 + 2 * n + 2 * j,
    )
}

proof fn lemma_search_ordered(d: Seq<u8>, cp: int, lo: int, hi: int, k: int)
    requires
        arrays_ok(d),
        segments_ordered(d, seg_count(d)),
        0 <= lo <= k < hi <= seg_count(d),
        be_u16(d, 16 + 2 * seg_count(d) + 2 * k) <= cp <= be_u16(d, 14 + 2 * k),
    ensures
        search(d, cp, lo, hi) == Some(k),
    decreases hi - lo,
{
    let n = seg_count(d);
    lemma_search_step(d, cp, lo, hi);
    let m = (lo + hi) / 2;
    if m < k {
        assert(be_u16(d, 14 + 2 * m) < be_u16(d, 16 + 2 * n + 2 * k));
        lemma_search_ordered(d, cp, m + 1, hi, k);
    } else if m > k {
        assert(be_u16(d, 14 + 2 * k) < be_u16(d, 16 + 2 * n + 2 * m));
        assert(be_u16(d, 16 + 2 * n + 2 * m) <= be_u16(d, 14 + 2 * m));
        lemma_search_ordered(d, cp, lo, m, k);
    } else {
        assert(be_u16(d, 16 + 2 * n + 2 * m) <= be_u16(d, 14 + 2 * m));
    }
}

/// Over well-ordered segments, a code point in segment `k` whose range
/// offset (the 16-bit number at `16 + 6n + 2k`) is zero maps to itself plus
/// the segment's delta (the signed 16-bit number at `16 + 4n + 2k`), modulo
/// 65536.
pub proof fn lemma_delta_glyph(d: Seq<u8>, cp: u32, k: int)
    requires
        be_u16(d, 6) >= 2,
        16 + 8 * (be_u16(d, 6) / 2) <= d.len(),
        segments_ordered(d, be_u16(d, 6) / 2),
        0 <= k < be_u16(d, 6) / 2,
        be_u16(d, 16 + 2 * (be_u16(d, 6) / 2) + 2 * k) <= cp <= be_u16(d, 14 + 2 * k),
        be_u16(d, 16 + 6 * (be_u16(d, 6) / 2) + 2 * k) == 0,
    ensures
        ({
            let n = be_u16(d, 6) / 2;
            let raw = be_u16(d, 16 + 4 * n + 2 * k);
            let delta = if raw >= 0x8000 { raw - 0x10000 } else { raw };
            spec_glyph(d, cp) == Some(((cp + delta + 65536) % 65536) as u16)
        }),
{
    lemma_search_ordered(d, cp as int, 0, seg_count(d), k);
    reveal(glyph_in_segment);
}

fn glyph_in_segment_exec(data: &[u8], cp: u16, n: u16, index: u16) -> (r: Option<u16>)
    requires
        arrays_ok(data@),
        n as int == seg_count(data@),
        index < n,
        start_code(data@, index as int) <= cp,
    ensures
        r == glyph_in_segment(data@, cp as int, index as int),
{
    reveal(glyph_in_segment);
    let ghost d = data@;
    let iro_pos: usize = 16 + 6 * n as usize;
    let start_value = match read_u16_at(data, 16 + 2 * n as usize + 2 * index as usize) {
        Some(v) => v,
        None => return None,
    };
    let delta_id = match read_i16_at(data, 16 + 4 * n as usize + 2 * index as usize) {
        Some(v) => v,
        None => return None,
    };
    let iro = match read_u16_at(data, iro_pos + 2 * index as usize) {
        Some(v) => v,
        None => return None,
    };
    if iro == 0 {
        return Some(((cp as i32 + delta_id as i32 + 65536) % 65536) as u16);
    }
    let delta: u32 = (cp as u32 - start_value as u32) * 2;
    if delta > 65535 {
        return None;
    }
    let p: usize = (iro_pos + index as usize * 2) % 65536;
    let pos: usize = ((p + delta as usize) % 65536 + iro as usize) % 65536;
    let v = match read_u16_at(data, pos) {
        Some(v) => v,
        None => return None,
    };
    // Zero marks a missing glyph.
    if v == 0 {
        return None;
    }
    let sv: i32 = if v >= 0x8000 { v as i32 - 0x10000 } else { v as i32 };
    let t: i32 = sv + delta_id as i32;
    let w: i32 = if t > 32767 { t - 65536 } else if t < -32768 { t + 65536 } else { t };
    if w >= 0 {
        Some(w as u16)
    } else {
        None
    }
}

/// Maps a code point to a glyph ID.
pub fn parse(data: &[u8], code_point: u32) -> (r: Option<u16>)
    ensures
        r == spec_glyph(data@, code_point),
{
    // This subtable supports code points only in a u16 range.
    if code_point > 0xFFFF {
        return None;
    }
    let cp = code_point as u16;
    let ghost d = data@;
    let mut s = Stream::new(data);
    s.advance(6); // format + length + language
    let seg_count_x2 = match s.read_u16() {
        Some(v) => v,
        None => return None,
    };
    if seg_count_x2 < 2 {
        return None;
    }
    let n = seg_count_x2 / 2;
    assert(n as int == seg_count(d));
    // End codes, reserved pad, start codes, deltas and range offsets must all be present.
    if !(data.len() >= 16 && (data.len() - 16) / 8 >= n as usize) {
        assert(!arrays_ok(d));
        return None;
    }
    assert(arrays_ok(d));
    // A custom binary search.
    let mut start: u16 = 0;
    let mut end: u16 = n;
    while end > start
        invariant
            arrays_ok(d),
            d == data@,
            cp as u32 == code_point,
            n as int == seg_count(d),
            0 <= start <= end <= n,
            spec_glyph(d, code_point) == match search(d, cp as int, start as int, end as int) {
                None => None,
                Some(i) => glyph_in_segment(d, cp as int, i),
            },
            search(d, cp as int, 0, n as int) == search(
                d,
                cp as int,
                start as int,
                end as int,
            ),
        decreases end - start,
    {
        let index = (start + end) / 2;
        proof {
            lemma_search_step(d, cp as int, start as int, end as int);
        }
        assert(start <= index < end);
        assert(in_bounds(d, 14 + 2 * index, 2));
        assert(in_bounds(d, 16 + 2 * n + 2 * index, 2));
        let end_value = match read_u16_at(data, 14 + 2 * index as usize) {
            Some(v) => v,
            None => return None,
        };
        if end_value >= cp {
            let start_value = match read_u16_at(data, 16 + 2 * n as usize + 2 * index as usize) {
                Some(v) => v,
                None => return None,
            };
            if start_value > cp {
                end = index;
            } else {
                assert(end_value == end_code(d, index as int));
                assert(start_value == start_code(d, index as int));
                assert(search(d, cp as int, start as int, end as int) == Some(index as int));
                let r = glyph_in_segment_exec(data, cp, n, index);
                assert(r == glyph_in_segment(d, cp as int, index as int));
                return r;
            }
        } else {
            start = index + 1;
        }
    }
    proof {
        reveal(search);
    }
    None
}

/// The consecutive code points `a..=b` (none when `b < a`).
pub open spec fn range_seq(a: int, b: int) -> Seq<u32> {
    Seq::new(if b >= a { (b - a + 1) as nat } else { 0 }, |j: int| (a + j) as u32)
}

pub open spec fn codepoints_from(d: Seq<u8>, n: int, i: int) -> Seq<u32>
    decreases n - i,
{
    if i >= n {
        Seq::empty()
    } else {
        range_seq(u16_at(d, 16 + 2 * n + 2 * i) as int, u16_at(d, 14 + 2 * i) as int)
            + codepoints_from(d, n, i + 1)
    }
}

/// The code points a format 4 subtable covers: every segment's range, in the
/// order of the segments; nothing when the code arrays are truncated.
pub open spec fn spec_codepoints(d: Seq<u8>) -> Seq<u32> {
    if in_bounds(d, 6, 2) && u16_at(d, 6) >= 2 && in_bounds(d, 0, 16 + 4 * seg_count(d)) {
        codepoints_from(d, seg_count(d), 0)
    } else {
        Seq::empty()
    }
}

/// Lists the code points of all segments.
pub fn codepoints(data: &[u8]) -> (r: Vec<u32>)
    ensures
        r@ == spec_codepoints(data@),
{
    let ghost d = data@;
    let mut out: Vec<u32> = Vec::new();
    let seg_count_x2 = match read_u16_at(data, 6) {
        Some(v) => v,
        None => return out,
    };
    if seg_count_x2 < 2 {
        return out;
    }
    let n = seg_count_x2 / 2;
    if !(data.len() >= 16 && (data.len() - 16) / 4 >= n as usize) {
        return out;
    }
    let mut i: u16 = 0;
    while i < n
        invariant
            d == data@,
            n as int == seg_count(d),
            in_bounds(d, 0, 16 + 4 * n),
            0 <= i <= n,
            out@ + codepoints_from(d, n as int, i as int) == codepoints_from(d, n as int, 0),
        decreases n - i,
    {
        let start = match read_u16_at(data, 16 + 2 * n as usize + 2 * i as usize) {
            Some(v) => v,
            None => return out,
        };
        let end = match read_u16_at(data, 14 + 2 * i as usize) {
            Some(v) => v,
            None => return out,
        };
        let ghost before = out@;
        if start <= end {
            let mut c: u32 = start as u32;
            while c <= end as u32
                invariant
                    start as u32 <= c <= end as u32 + 1,
                    out@ == before + Seq::new((c - start) as nat, |j: int| (start + j) as u32),
                decreases end as u32 + 1 - c,
            {
                out.push(c);
                assert(out@ =~= before + Seq::new((c + 1 - start) as nat, |j: int| (start + j) as u32));
                c = c + 1;
            }
        }
        assert(out@ =~= before + range_seq(start as int, end as int));
        assert(out@ + codepoints_from(d, n as int, i + 1) =~= before + codepoints_from(d, n as int, i as int));
        i = i + 1;
    }
    assert(out@ =~= out@ + codepoints_from(d, n as int, n as int));
    out
}

} // verus!
