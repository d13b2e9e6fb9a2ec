//! CFF charsets (Adobe Technical Note #5176, chapter 13): string IDs of glyphs.

use vstd::prelude::*;
use crate::GlyphId;
use crate::parser::{in_bounds, u16_at, be_u16, read_u16_at, read_u8_at, Stream};

verus! {

/// A string ID.
#[derive(Clone, Copy, PartialEq, Eq, Structural, Debug)]
pub struct StringId(pub u16);

/// A charset. Formats 0 to 2 hold the raw bytes of their arrays: string IDs
/// (2 bytes each), or ranges of a first ID and a count of further glyphs
/// (3 bytes each for format 1, 4 for format 2).
#[derive(Clone, Copy, Debug)]
pub enum Charset<'a> {
    ISOAdobe,
    Expert,
    ExpertSubset,
    Format0(&'a [u8]),
    Format1(&'a [u8]),
    Format2(&'a [u8]),
}

/// The first index from `i` on whose string ID is `sid`, in a format 0 array.
pub open spec fn f0_position(a: Seq<u8>, sid: u16, i: int) -> Option<int>
    decreases a.len() / 2 - i,
{
    if i < 0 || i >= a.len() / 2 {
        None
    } else if u16_at(a, 2 * i) == sid {
        Some(i)
    } else {
        f0_position(a, sid, i + 1)
    }
}

/// The glyph of `sid` in ranges from range `i` on, the glyph of range `i`'s
/// first ID being `glyph`; `w` is the byte width of a range. `None` also when
/// a glyph number would pass 65535.
pub open spec fn ranges_gid(a: Seq<u8>, w: int, sid: u16, i: int, glyph: int) -> Option<u16>
    decreases (a.len() as int) / w - i,
{
    if w < 3 || i < 0 || i >= (a.len() as int) / w {
        None
    } else {
        let first = u16_at(a, w * i) as int;
        let left = if w == 3 { a[w * i + 2] as int } else { u16_at(a, w * i + 2) as int };
        if first <= sid && sid <= first + left {
            let g = glyph + sid - first;
            if g > 0xFFFF {
                None
            } else {
                Some(g as u16)
            }
        } else {
            let g2 = glyph + left + 1;
            if g2 > 0xFFFF {
                None
            } else {
                ranges_gid(a, w, sid, i + 1, g2)
            }
        }
    }
}

/// The glyph of a string ID: `.notdef` for ID 0, none for the predefined
/// charsets, otherwise from the charset's array.
pub open spec fn spec_sid_to_gid(c: Charset, sid: u16) -> Option<u16> {
    if sid == 0 {
        Some(0)
    } else {
        match c {
            Charset::ISOAdobe | Charset::Expert | Charset::ExpertSubset => None,
            Charset::Format0(a) => match f0_position(a@, sid, 0) {
                // The first glyph is omitted, so add one.
                Some(p) => if p + 1 > 0xFFFF {
                    None
                } else {
                    Some((p + 1) as u16)
                },
                None => None,
            },
            Charset::Format1(a) => ranges_gid(a@, 3, sid, 0, 1),
            Charset::Format2(a) => ranges_gid(a@, 4, sid, 0, 1),
        }
    }
}

/// The first string ID of range `j` of a format 1 (`w` = 3) or format 2
/// (`w` = 4) charset array.
pub open spec fn range_first(a: Seq<u8>, w: int, j: int) -> int {
    be_u16(a, w * j)
}

/// How many glyphs follow the first one in range `j`.
pub open spec fn range_left(a: Seq<u8>, w: int, j: int) -> int {
    if w == 3 {
        a[w * j + 2] as int
    } else {
        be_u16(a, w * j + 2)
    }
}

/// Range `j` covers the string ID.
pub open spec fn range_covers(a: Seq<u8>, w: int, j: int, sid: int) -> bool {
    range_first(a, w, j) <= sid <= range_first(a, w, j) + range_left(a, w, j)
}

/// How many glyphs the ranges before range `k` cover: each covers its first
/// glyph and the `left` that follow.
pub open spec fn glyphs_before(a: Seq<u8>, w: int, k: int) -> int
    decreases k,
{
    if k <= 0 {
        0
    } else {
        glyphs_before(a, w, k - 1) + range_left(a, w, k - 1) + 1
    }
}

/// The array and range width of a ranged charset.
pub open spec fn ranged(c: Charset) -> (Seq<u8>, int) {
    match c {
        Charset::Format1(a) => (a@, 3),
        Charset::Format2(a) => (a@, 4),
        _ => (Seq::empty(), 4),
    }
}

proof fn lemma_glyphs_before_grows(a: Seq<u8>, w: int, i: int, k: int)
    requires
        0 <= i <= k,
    ensures
        glyphs_before(a, w, i) <= glyphs_before(a, w, k),
    decreases k - i,
{
    if i < k {
        lemma_glyphs_before_grows(a, w, i, k - 1);
    }
}

proof fn lemma_ranges_gid_found(a: Seq<u8>, w: int, sid: u16, i: int, k: int)
    requires
        w == 3 || w == 4,
        0 <= i <= k < (a.len() as int) / w,
        range_covers(a, w, k, sid as int),
        forall|j: int| 0 <= j < k ==> !#[trigger] range_covers(a, w, j, sid as int),
        1 + glyphs_before(a, w, k) + sid - range_first(a, w, k) <= 0xFFFF,
    ensures
        ranges_gid(a, w, sid, i, 1 + glyphs_before(a, w, i)) == Some(
            (1 + glyphs_before(a, w, k) + sid - range_first(a, w, k)) as u16,
        ),
    decreases k - i,
{
    if i < k {
        assert(!range_covers(a, w, i, sid as int));
        lemma_glyphs_before_grows(a, w, i + 1, k);
        lemma_ranges_gid_found(a, w, sid, i + 1, k);
    }
}

proof fn lemma_ranges_gid_missing(a: Seq<u8>, w: int, sid: u16, i: int, glyph: int)
    requires
        w == 3 || w == 4,
        0 <= i,
        forall|j: int| 0 <= j < (a.len() as int) / w ==> !#[trigger] range_covers(a, w, j, sid as int),
    ensures
        ranges_gid(a, w, sid, i, glyph) is None,
    decreases (a.len() as int) / w - i,
{
    if i < (a.len() as int) / w {
        assert(!range_covers(a, w, i, sid as int));
        lemma_ranges_gid_missing(a, w, sid, i + 1, glyph + range_left(a, w, i) + 1);
    }
}

/// In a format 1 or 2 charset, glyph 1 has the first string ID of the first
/// range and the glyphs count on through every range in turn, each range
/// covering its first ID and the `left` that follow. So a string ID that
/// range `k` is the first to cover belongs to glyph 1 + (the glyphs of the
/// ranges before `k`) + (its distance from range `k`'s first ID); one that
/// no range covers has no glyph.
pub proof fn lemma_ranged_sid_to_gid(c: Charset, sid: u16, k: int)
    requires
        c is Format1 || c is Format2,
        sid != 0,
    ensures
        ({
            let (a, w) = ranged(c);
            0 <= k < (a.len() as int) / w && range_covers(a, w, k, sid as int)
                && (forall|j: int| 0 <= j < k ==> !#[trigger] range_covers(a, w, j, sid as int))
                && 1 + glyphs_before(a, w, k) + sid - range_first(a, w, k) <= 0xFFFF
                ==> spec_sid_to_gid(c, sid) == Some(
                (1 + glyphs_before(a, w, k) + sid - range_first(a, w, k)) as u16,
            )
        }),
        ({
            let (a, w) = ranged(c);
            (forall|j: int| 0 <= j < (a.len() as int) / w ==> !#[trigger] range_covers(a, w, j, sid as int))
                ==> spec_sid_to_gid(c, sid) is None
        }),
{
    let (a, w) = ranged(c);
    if 0 <= k < (a.len() as int) / w && range_covers(a, w, k, sid as int)
        && (forall|j: int| 0 <= j < k ==> !#[trigger] range_covers(a, w, j, sid as int))
        && 1 + glyphs_before(a, w, k) + sid - range_first(a, w, k) <= 0xFFFF {
        lemma_ranges_gid_found(a, w, sid, 0, k);
    }
    if forall|j: int| 0 <= j < (a.len() as int) / w ==> !#[trigger] range_covers(a, w, j, sid as int) {
        lemma_ranges_gid_missing(a, w, sid, 0, 1);
    }
}

proof fn lemma_f0_position_range(a: Seq<u8>, sid: u16, i: int)
    requires
        0 <= i,
    ensures
        f0_position(a, sid, i) matches Some(p) ==> i <= p < a.len() / 2,
    decreases a.len() / 2 - i,
{
    if i < a.len() / 2 {
        lemma_f0_position_range(a, sid, i + 1);
    }
}

fn ranges_to_gid(a: &[u8], w: usize, sid: u16) -> (r: Option<u16>)
    requires
        w == 3 || w == 4,
    ensures
        r == ranges_gid(a@, w as int, sid, 0, 1),
{
    let n = a.len() / w;
    let mut glyph: u32 = 1;
    let mut i: usize = 0;
    while i < n
        invariant
            w == 3 || w == 4,
            n == (a@.len() as int) / (w as int),
            a@.len() == a.len(),
            0 <= i <= n,
            1 <= glyph <= 0xFFFF,
            ranges_gid(a@, w as int, sid, 0, 1) == ranges_gid(a@, w as int, sid, i as int, glyph as int),
        decreases n - i,
    {
        proof {
            assert(w * i + w <= a@.len()) by (nonlinear_arith)
                requires
                    i < n,
                    n == (a@.len() as int) / (w as int),
                    w == 3 || w == 4,
            ;
        }
        let first = match read_u16_at(a, w * i) {
            Some(v) => v,
            None => return None,
        };
        let left: u32 = if w == 3 {
            match read_u8_at(a, w * i + 2) {
                Some(v) => v as u32,
                None => return None,
            }
        } else {
            match read_u16_at(a, w * i + 2) {
                Some(v) => v as u32,
                None => return None,
            }
        };
        if first <= sid && (sid as u32) <= first as u32 + left {
            let g = glyph + (sid - first) as u32;
            if g > 0xFFFF {
                return None;
            }
            return Some(g as u16);
        }
        let g2 = glyph + left + 1;
        if g2 > 0xFFFF {
            return None;
        }
        glyph = g2;
        i = i + 1;
    }
    None
}

impl<'a> Charset<'a> {
    /// Maps a string ID to a glyph ID.
    pub fn sid_to_gid(&self, sid: StringId) -> (r: Option<GlyphId>)
        ensures
            r == (match spec_sid_to_gid(*self, sid.0) {
                Some(g) => Some(GlyphId(g)),
                None => None,
            }),
    {
        if sid.0 == 0 {
            return Some(GlyphId(0));
        }
        match self {
            Charset::ISOAdobe | Charset::Expert | Charset::ExpertSubset => None,
            Charset::Format0(array) => {
                let n = array.len() / 2;
                let mut i: usize = 0;
                while i < n
                    invariant
                        sid.0 != 0,
                        *self == Charset::Format0(*array),
                        n == array@.len() / 2,
                        array@.len() == array.len(),
                        0 <= i <= n,
                        f0_position(array@, sid.0, 0) == f0_position(array@, sid.0, i as int),
                    decreases n - i,
                {
                    let v = match read_u16_at(array, 2 * i) {
                        Some(v) => v,
                        None => return None,
                    };
                    if v == sid.0 {
                        // The first glyph is omitted, so add one.
                        if i + 1 > 0xFFFF {
                            return None;
                        }
                        return Some(GlyphId((i + 1) as u16));
                    }
                    i = i + 1;
                }
                None
            },
            Charset::Format1(array) => match ranges_to_gid(array, 3, sid.0) {
                Some(g) => Some(GlyphId(g)),
                None => None,
            },
            Charset::Format2(array) => match ranges_to_gid(array, 4, sid.0) {
                Some(g) => Some(GlyphId(g)),
                None => None,
            },
        }
    }
}

/// The number of ranges needed to cover `total` glyphs from `pos` on: each
/// range has a 2-byte first ID then a count of further glyphs of `lw` bytes.
pub open spec fn range_count(d: Seq<u8>, pos: int, total: int, lw: int) -> Option<int>
    decreases total,
{
    if total <= 0 {
        Some(0)
    } else if !in_bounds(d, pos + 2, lw) {
        None
    } else {
        let left = if lw == 1 { d[pos + 2] as int } else { u16_at(d, pos + 2) as int };
        if left + 1 > total || left + 1 > 0xFFFF {
            None
        } else {
            match range_count(d, pos + 2 + lw, total - left - 1, lw) {
                Some(c) => Some(c + 1),
                None => None,
            }
        }
    }
}

proof fn lemma_range_count_bound(d: Seq<u8>, pos: int, total: int, lw: int)
    ensures
        range_count(d, pos, total, lw) matches Some(c) ==> 0 <= c <= (if total > 0 { total } else { 0 }),
    decreases total,
{
    if total > 0 && in_bounds(d, pos + 2, lw) {
        let left = if lw == 1 { d[pos + 2] as int } else { u16_at(d, pos + 2) as int };
        if left + 1 <= total && left + 1 <= 0xFFFF {
            lemma_range_count_bound(d, pos + 2 + lw, total - left - 1, lw);
        }
    }
}

/// The charset of `n` glyphs whose format byte is at `p`: format, array
/// start and array length.
pub open spec fn spec_charset(d: Seq<u8>, p: int, n: int) -> Option<(u8, int, int)> {
    if n < 2 || !in_bounds(d, p, 1) {
        None
    } else {
        let format = d[p];
        if format == 0 {
            if in_bounds(d, p + 1, 2 * (n - 1)) {
                Some((0, p + 1, 2 * (n - 1)))
            } else {
                None
            }
        } else if format == 1 || format == 2 {
            let lw = if format == 1 { 1 } else { 2 };
            match range_count(d, p + 1, n - 1, lw) {
                None => None,
                Some(c) => if in_bounds(d, p + 1, c * (2 + lw)) {
                    Some((format, p + 1, c * (2 + lw)))
                } else {
                    None
                },
            }
        } else {
            None
        }
    }
}

/// The charset's array bytes.
pub open spec fn charset_bytes(c: Charset) -> Option<(u8, Seq<u8>)> {
    match c {
        Charset::Format0(a) => Some((0, a@)),
        Charset::Format1(a) => Some((1, a@)),
        Charset::Format2(a) => Some((2, a@)),
        _ => None,
    }
}

fn count_ranges(data: &[u8], pos: usize, total: u16, lw: usize) -> (r: Option<u16>)
    requires
        lw == 1 || lw == 2,
        pos <= data@.len(),
    ensures
        r matches Some(c) ==> range_count(data@, pos as int, total as int, lw as int) == Some(c as int),
        r is None ==> range_count(data@, pos as int, total as int, lw as int) is None,
{
    let mut s = match Stream::new_at(data, pos) {
        Some(s) => s,
        None => return None,
    };
    let mut total_left: u16 = total;
    let mut count: u16 = 0;
    while total_left > 0
        invariant
            lw == 1 || lw == 2,
            s.bytes() == data@,
            data@.len() == data.len(),
            pos <= s.pos() <= usize::MAX,
            count as int + total_left as int <= total as int,
            range_count(data@, pos as int, total as int, lw as int) == match range_count(
                data@,
                s.pos(),
                total_left as int,
                lw as int,
            ) {
                Some(c) => Some(c + count),
                None => None,
            },
        decreases total_left,
    {
        if s.offset() > usize::MAX - 2 {
            return None;
        }
        s.advance(2); // first
        let left: u32 = if lw == 1 {
            match s.read_u8() {
                Some(v) => v as u32,
                None => return None,
            }
        } else {
            match s.read_u16() {
                Some(v) => v as u32,
                None => return None,
            }
        };
        if left + 1 > total_left as u32 || left + 1 > 0xFFFF {
            return None;
        }
        total_left = total_left - (left + 1) as u16;
        count = count + 1;
    }
    Some(count)
}

/// Parses a charset of `number_of_glyphs` glyphs.
pub fn parse_charset<'a>(number_of_glyphs: u16, s: &mut Stream<'a>) -> (r: Option<Charset<'a>>)
    ensures
        final(s).bytes() == old(s).bytes(),
        r is Some <==> spec_charset(old(s).bytes(), old(s).pos(), number_of_glyphs as int) is Some,
        r matches Some(c) ==> match spec_charset(old(s).bytes(), old(s).pos(), number_of_glyphs as int) {
            Some((f, start, len)) => charset_bytes(c) == Some((f, old(s).bytes().subrange(start, start + len))),
            None => false,
        },
{
    if number_of_glyphs < 2 {
        return None;
    }
    // The first glyph, `.notdef`, is omitted everywhere.
    let format = match s.read_u8() {
        Some(v) => v,
        None => return None,
    };
    let n = number_of_glyphs - 1;
    match format {
        0 => match s.read_array(n as u32, 2) {
            Some(a) => Some(Charset::Format0(a)),
            None => None,
        },
        1 | 2 => {
            let lw: usize = if format == 1 { 1 } else { 2 };
            // The number of ranges is not stored: read until no glyphs are left.
            let count = match count_ranges(s.data, s.offset, n, lw) {
                Some(c) => c,
                None => return None,
            };
            proof {
                lemma_range_count_bound(s.bytes(), s.pos(), n as int, lw as int);
            }
            match s.read_array(count as u32, 2 + lw) {
                Some(a) => if format == 1 {
                    Some(Charset::Format1(a))
                } else {
                    Some(Charset::Format2(a))
                },
                None => None,
            }
        },
        _ => None,
    }
}


/// The string ID that code `code` of the Standard Encoding stands for (CFF
/// specification, appendix B); 0 for a code that it does not encode.
pub open spec fn standard_encoding_sid(code: u8) -> u16 {
    if 32 <= code && code <= 126 {
        (code - 31) as u16
    } else if code == 161 {
        96
    } else if code == 162 {
        97
    } else if code == 163 {
        98
    } else if code == 164 {
        99
    } else if code == 165 {
        100
    } else if code == 166 {
        101
    } else if code == 167 {
        102
    } else if code == 168 {
        103
    } else if code == 169 {
        104
    } else if code == 170 {
        105
    } else if code == 171 {
        106
    } else if code == 172 {
        107
    } else if code == 173 {
        108
    } else if code == 174 {
        109
    } else if code == 175 {
        110
    } else if code == 177 {
        111
    } else if code == 178 {
        112
    } else if code == 179 {
        113
    } else if code == 180 {
        114
    } else if code == 182 {
        115
    } else if code == 183 {
        116
    } else if code == 184 {
        117
    } else if code == 185 {
        118
    } else if code == 186 {
        119
    } else if code == 187 {
        120
    } else if code == 188 {
        121
    } else if code == 189 {
        122
    } else if code == 191 {
        123
    } else if code == 193 {
        124
    } else if code == 194 {
        125
    } else if code == 195 {
        126
    } else if code == 196 {
        127
    } else if code == 197 {
        128
    } else if code == 198 {
        129
    } else if code == 199 {
        130
    } else if code == 200 {
        131
    } else if code == 202 {
        132
    } else if code == 203 {
        133
    } else if code == 205 {
        134
    } else if code == 206 {
        135
    } else if code == 207 {
        136
    } else if code == 208 {
        137
    } else if code == 225 {
        138
    } else if code == 227 {
        139
    } else if code == 232 {
        140
    } else if code == 233 {
        141
    } else if code == 234 {
        142
    } else if code == 235 {
        143
    } else if code == 241 {
        144
    } else if code == 245 {
        145
    } else if code == 248 {
        146
    } else if code == 249 {
        147
    } else if code == 250 {
        148
    } else if code == 251 {
        149
    } else {
        0
    }
}

/// Looks up a code of the Standard Encoding.
pub fn standard_encoding(code: u8) -> (r: u16)
    ensures
        r == standard_encoding_sid(code),
{
    match code {
        32..=126 => code as u16 - 31,
        161 => 96,
        162 => 97,
        163 => 98,
        164 => 99,
        165 => 100,
        166 => 101,
        167 => 102,
        168 => 103,
        169 => 104,
        170 => 105,
        171 => 106,
        172 => 107,
        173 => 108,
        174 => 109,
        175 => 110,
        177 => 111,
        178 => 112,
        179 => 113,
        180 => 114,
        182 => 115,
        183 => 116,
        184 => 117,
        185 => 118,
        186 => 119,
        187 => 120,
        188 => 121,
        189 => 122,
        191 => 123,
        193 => 124,
        194 => 125,
        195 => 126,
        196 => 127,
        197 => 128,
        198 => 129,
        199 => 130,
        200 => 131,
        202 => 132,
        203 => 133,
        205 => 134,
        206 => 135,
        207 => 136,
        208 => 137,
        225 => 138,
        227 => 139,
        232 => 140,
        233 => 141,
        234 => 142,
        235 => 143,
        241 => 144,
        245 => 145,
        248 => 146,
        249 => 147,
        250 => 148,
        251 => 149,
        _ => 0,
    }
}

/// The glyph that a Standard Encoding code of a `seac` accent operator names.
pub open spec fn spec_seac_glyph(charset: Charset, code: u8) -> Option<u16> {
    let sid = standard_encoding_sid(code);
    match charset {
        Charset::ISOAdobe => if code < 228 {
            Some(sid)
        } else {
            None
        },
        Charset::Expert | Charset::ExpertSubset => None,
        _ => spec_sid_to_gid(charset, sid),
    }
}

/// Maps a Standard Encoding code to a glyph, as the `seac` operator of a
/// charstring needs it.
pub fn seac_code_to_glyph_id(charset: &Charset, code: u8) -> (r: Option<GlyphId>)
    ensures
        r == (match spec_seac_glyph(*charset, code) {
            Some(g) => Some(GlyphId(g)),
            None => None,
        }),
{
    let sid = standard_encoding(code);
    match charset {
        // Codes from 228 (zcaron) on are refused, as harfbuzz does.
        Charset::ISOAdobe => if code < 228 {
            Some(GlyphId(sid))
        } else {
            None
        },
        Charset::Expert | Charset::ExpertSubset => None,
        _ => charset.sid_to_gid(StringId(sid)),
    }
}

} // verus!
