//! [Segmented coverage](https://docs.microsoft.com/en-us/typography/opentype/spec/cmap#format-12-segmented-coverage).

use vstd::prelude::*;
use crate::parser::{in_bounds, be_u32, u32_at, read_u32_at, Stream};

verus! {

/// Number of sequential map groups.
pub open spec fn group_count(d: Seq<u8>) -> int {
    u32_at(d, 12) as int
}

pub open spec fn start_char(d: Seq<u8>, i: int) -> u32 {
    u32_at(d, 16 + 12 * i)
}

pub open spec fn end_char(d: Seq<u8>, i: int) -> u32 {
    u32_at(d, 20 + 12 * i)
}

pub open spec fn start_glyph(d: Seq<u8>, i: int) -> u32 {
    u32_at(d, 24 + 12 * i)
}

/// The group count is readable and all groups are present.
pub open spec fn groups_ok(d: Seq<u8>) -> bool {
    in_bounds(d, 12, 4) && in_bounds(d, 16, 12 * group_count(d))
}

/// The first group, from group `i` on, whose range contains `cp`.
pub open spec fn first_group(d: Seq<u8>, cp: int, i: int) -> Option<int>
    decreases group_count(d) - i,
{
    if i < 0 || i >= group_count(d) {
        None
    } else if start_char(d, i) <= cp <= end_char(d, i) {
        Some(i)
    } else {
        first_group(d, cp, i + 1)
    }
}

/// The glyph a format 12 subtable maps `cp` to: the start glyph of the first
/// group containing it plus the distance from the group's start.
pub open spec fn spec_glyph(d: Seq<u8>, cp: u32) -> Option<u16> {
    if !groups_ok(d) {
        None
    } else {
        match first_group(d, cp as int, 0) {
            None => None,
            Some(i) => {
                let g = start_glyph(d, i) as int + cp as int;
                if g > u32::MAX {
                    None
                } else if g - start_char(d, i) > 0xFFFF {
                    None
                } else {
                    Some((g - start_char(d, i)) as u16)
                }
            },
        }
    }
}

proof fn lemma_group_in_bounds(d: Seq<u8>, i: int)
    requires
        groups_ok(d),
        0 <= i < group_count(d),
    ensures
        in_bounds(d, 16 + 12 * i, 12),
{
}

/// A group that the search reports lies inside the data.
pub proof fn lemma_group_ok(d: Seq<u8>, i: int)
    requires
        groups_ok(d),
        0 <= i < group_count(d),
    ensures
        in_bounds(d, 16 + 12 * i, 12),
{
}

/// The group that the scan from group `i` reports comes at or after `i` and
/// holds the code point.
pub proof fn lemma_first_group_range(d: Seq<u8>, cp: int, i: int)
    requires
        0 <= i,
    ensures
        first_group(d, cp, i) matches Some(k) ==> i <= k < group_count(d) && start_char(d, k) <= cp
            <= end_char(d, k),
    decreases group_count(d) - i,
{
    if i < group_count(d) {
        lemma_first_group_range(d, cp, i + 1);
    }
}

/// Finds the first group containing `cp`.
pub fn find_group(data: &[u8], cp: u32) -> (r: Option<u32>)
    requires
        groups_ok(data@),
    ensures
        r == (match first_group(data@, cp as int, 0) {
            Some(i) => Some(i as u32),
            None => None,
        }),
        r matches Some(i) ==> i < group_count(data@),
{
    proof {
        lemma_first_group_range(data@, cp as int, 0);
    }
    let count = match read_u32_at(data, 12) {
        Some(v) => v,
        None => return None,
    };
    let mut i: u32 = 0;
    while i < count
        invariant
            groups_ok(data@),
            count as int == group_count(data@),
            0 <= i <= count,
            first_group(data@, cp as int, 0) == first_group(data@, cp as int, i as int),
        decreases count - i,
    {
        proof {
            lemma_group_in_bounds(data@, i as int);
        }
        assert(data@.len() == data.len());
        let start = match read_u32_at(data, 16 + 12 * i as usize) {
            Some(v) => v,
            None => return None,
        };
        let end = match read_u32_at(data, 20 + 12 * i as usize) {
            Some(v) => v,
            None => return None,
        };
        if start <= cp && cp <= end {
            return Some(i);
        }
        i = i + 1;
    }
    None
}

/// Maps a code point to a glyph ID.
pub fn parse(data: &[u8], code_point: u32) -> (r: Option<u16>)
    ensures
        r == spec_glyph(data@, code_point),
{
    let mut s = Stream::new(data);
    s.advance(12); // format + reserved + length + language
    let count = match s.read_u32() {
        Some(v) => v,
        None => return None,
    };
    match s.read_array(count, 12) {
        Some(_) => {},
        None => return None,
    }
    let i = match find_group(data, code_point) {
        Some(i) => i,
        None => return None,
    };
    proof {
        lemma_group_in_bounds(data@, i as int);
        lemma_first_group_range(data@, code_point as int, 0);
    }
    assert(data@.len() == data.len());
    let start = match read_u32_at(data, 16 + 12 * i as usize) {
        Some(v) => v,
        None => return None,
    };
    let start_glyph_id = match read_u32_at(data, 24 + 12 * i as usize) {
        Some(v) => v,
        None => return None,
    };
    let id = match start_glyph_id.checked_add(code_point) {
        Some(v) => v,
        None => return None,
    };
    let id = id - start;
    if id > 0xFFFF {
        None
    } else {
        Some(id as u16)
    }
}

/// The code points `a..=b` (none when `b < a`).
pub open spec fn range_seq(a: int, b: int) -> Seq<u32> {
    Seq::new(if b >= a { (b - a + 1) as nat } else { 0 }, |j: int| (a + j) as u32)
}

pub open spec fn codepoints_from(d: Seq<u8>, i: int) -> Seq<u32>
    decreases group_count(d) - i,
{
    if i < 0 || i >= group_count(d) {
        Seq::empty()
    } else {
        range_seq(start_char(d, i) as int, end_char(d, i) as int) + codepoints_from(d, i + 1)
    }
}

/// The code points of all groups, in the order of the groups; nothing when
/// the groups are truncated.
pub open spec fn spec_codepoints(d: Seq<u8>) -> Seq<u32> {
    if groups_ok(d) {
        codepoints_from(d, 0)
    } else {
        Seq::empty()
    }
}

/// Lists the code points of all groups.
pub fn codepoints(data: &[u8]) -> (r: Vec<u32>)
    ensures
        r@ == spec_codepoints(data@),
{
    let mut out: Vec<u32> = Vec::new();
    let mut s = Stream::new(data);
    s.advance(12);
    let count = match s.read_u32() {
        Some(v) => v,
        None => return out,
    };
    match s.read_array(count, 12) {
        Some(_) => {},
        None => return out,
    }
    let ghost d = data@;
    let mut i: u32 = 0;
    while i < count
        invariant
            d == data@,
            groups_ok(d),
            count as int == group_count(d),
            0 <= i <= count,
            out@ + codepoints_from(d, i as int) == codepoints_from(d, 0),
        decreases count - i,
    {
        proof {
            lemma_group_in_bounds(d, i as int);
        }
        assert(data@.len() == data.len());
        let start = match read_u32_at(data, 16 + 12 * i as usize) {
            Some(v) => v,
            None => return out,
        };
        let end = match read_u32_at(data, 20 + 12 * i as usize) {
            Some(v) => v,
            None => return out,
        };
        let ghost before = out@;
        if start <= end {
            let mut c: u64 = start as u64;
            while c <= end as u64
                invariant
                    start as u64 <= c <= end as u64 + 1,
                    out@ == before + Seq::new((c - start) as nat, |j: int| (start + j) as u32),
                decreases end as u64 + 1 - c,
            {
                out.push(c as u32);
                assert(out@ =~= before + Seq::new((c + 1 - start) as nat, |j: int| (start + j) as u32));
                c = c + 1;
            }
        }
        assert(out@ =~= before + range_seq(start as int, end as int));
        assert(out@ + codepoints_from(d, i + 1) =~= before + codepoints_from(d, i as int));
        i = i + 1;
    }
    assert(out@ =~= out@ + codepoints_from(d, count as int));
    out
}

/// Group `k` of a format 12 subtable holds the code point: its start and end
/// characters are the 32-bit numbers at `16 + 12k` and `20 + 12k`.
pub open spec fn group_covers(d: Seq<u8>, k: int, cp: int) -> bool {
    be_u32(d, 16 + 12 * k) <= cp <= be_u32(d, 20 + 12 * k)
}

proof fn lemma_first_group_is(d: Seq<u8>, cp: int, i: int, k: int)
    requires
        0 <= i <= k < group_count(d),
        group_covers(d, k, cp),
        forall|j: int| 0 <= j < k ==> !#[trigger] group_covers(d, j, cp),
        in_bounds(d, 16, 12 * group_count(d)),
    ensures
        first_group(d, cp, i) == Some(k),
    decreases k - i,
{
    if i < k {
        assert(!group_covers(d, i, cp));
        lemma_first_group_is(d, cp, i + 1, k);
    }
}

proof fn lemma_first_group_none(d: Seq<u8>, cp: int, i: int)
    requires
        0 <= i,
        forall|j: int| 0 <= j < group_count(d) ==> !#[trigger] group_covers(d, j, cp),
        in_bounds(d, 16, 12 * group_count(d)),
    ensures
        first_group(d, cp, i) is None,
    decreases group_count(d) - i,
{
    if i < group_count(d) {
        assert(!group_covers(d, i, cp));
        lemma_first_group_none(d, cp, i + 1);
    }
}

/// The first group of a format 12 subtable that holds the code point maps it
/// to that group's start glyph (the 32-bit number at `24 + 12k`) plus the code
/// point's distance from the group's start character, when the start glyph
/// plus the code point fits in 32 bits and the result in 16; a code point
/// that no group holds has no glyph.
pub proof fn lemma_segmented_coverage_glyph(d: Seq<u8>, cp: u32, k: int)
    requires
        16 <= d.len(),
        16 + 12 * be_u32(d, 12) <= d.len(),
    ensures
        0 <= k < be_u32(d, 12) && group_covers(d, k, cp as int) && (forall|j: int| 0 <= j < k
            ==> !#[trigger] group_covers(d, j, cp as int)) && be_u32(d, 24 + 12 * k) + cp <= u32::MAX
            && be_u32(d, 24 + 12 * k) + cp - be_u32(d, 16 + 12 * k) <= 0xFFFF ==> spec_glyph(d, cp) == Some(
            (be_u32(d, 24 + 12 * k) + cp - be_u32(d, 16 + 12 * k)) as u16,
        ),
        (forall|j: int| 0 <= j < be_u32(d, 12) ==> !#[trigger] group_covers(d, j, cp as int))
            ==> spec_glyph(d, cp) is None,
{
    if 0 <= k < be_u32(d, 12) && group_covers(d, k, cp as int) && (forall|j: int| 0 <= j < k
        ==> !#[trigger] group_covers(d, j, cp as int)) {
        lemma_first_group_is(d, cp as int, 0, k);
    }
    if forall|j: int| 0 <= j < be_u32(d, 12) ==> !#[trigger] group_covers(d, j, cp as int) {
        lemma_first_group_none(d, cp as int, 0);
    }
}

} // verus!
