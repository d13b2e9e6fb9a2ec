//! A [Compact Font Format Table](https://docs.microsoft.com/en-us/typography/opentype/spec/cff)
//! implementation: the font's structure (Adobe Technical Note #5176).

pub mod charset;
pub mod dict;
pub mod index;

use vstd::prelude::*;
use crate::GlyphId;
use crate::parser::{in_bounds, u16_at, read_u8_at, read_u16_at, tail_from, bytes_at, Stream};
use self::charset::{Charset, spec_charset, charset_bytes, parse_charset};
use self::dict::{DictionaryParser, scan_op, spec_operands, offset_of, range_of};
use self::index::{DataIndex, index_at, index_matches, index_object, index_len, parse_index, skip_index,
    skip_index_end};

verus! {

/// A list of errors that can occur during a CFF table parsing.
#[derive(Clone, Copy, PartialEq, Eq, Structural, Debug)]
pub enum CFFError {
    ReadOutOfBounds,
    ZeroBBox,
    InvalidOperator,
    UnsupportedOperator,
    MissingEndChar,
    DataAfterEndChar,
    NestingLimitReached,
    ArgumentsStackLimitReached,
    InvalidArgumentsStackLength,
    BboxOverflow,
    MissingMoveTo,
    InvalidSubroutineIndex,
    InvalidItemVariationDataIndex,
    InvalidNumberOfBlendOperands,
    BlendRegionsLimitReached,
    NoLocalSubroutines,
    InvalidSeacCode,
}

// Top DICT operators (Adobe Technical Note #5176, table 9).
pub const CHARSET_OFFSET: u16 = 15;
pub const CHAR_STRINGS_OFFSET: u16 = 17;
pub const PRIVATE_DICT_SIZE_AND_OFFSET: u16 = 18;
pub const ROS: u16 = 1230;
pub const FD_ARRAY: u16 = 1236;
pub const FD_SELECT: u16 = 1237;
// Private DICT operators (table 23).
pub const LOCAL_SUBROUTINES_OFFSET: u16 = 19;

/// The Top DICT entries the parser uses.
#[derive(Clone, Copy, Debug)]
pub struct TopDict {
    pub charset_offset: Option<usize>,
    pub char_strings_offset: usize,
    pub private_dict_range: Option<(usize, usize)>,
    pub has_ros: bool,
    pub fd_array_offset: Option<usize>,
    pub fd_select_offset: Option<usize>,
}

pub open spec fn default_top_dict() -> TopDict {
    TopDict {
        charset_offset: None,
        char_strings_offset: 0,
        private_dict_range: None,
        has_ros: false,
        fd_array_offset: None,
        fd_select_offset: None,
    }
}

/// The Top DICT after operator `op` whose operands are `ops`; `None` when the
/// CharStrings offset is invalid.
pub open spec fn apply_top_op(td: TopDict, op: u16, ops: Option<Seq<i32>>) -> Option<TopDict> {
    if op == CHARSET_OFFSET {
        Some(TopDict { charset_offset: offset_of(ops), ..td })
    } else if op == CHAR_STRINGS_OFFSET {
        match offset_of(ops) {
            None => None,
            Some(v) => Some(TopDict { char_strings_offset: v, ..td }),
        }
    } else if op == PRIVATE_DICT_SIZE_AND_OFFSET {
        Some(TopDict { private_dict_range: range_of(ops), ..td })
    } else if op == ROS {
        Some(TopDict { has_ros: true, ..td })
    } else if op == FD_ARRAY {
        Some(TopDict { fd_array_offset: offset_of(ops), ..td })
    } else if op == FD_SELECT {
        Some(TopDict { fd_select_offset: offset_of(ops), ..td })
    } else {
        Some(td)
    }
}

/// The Top DICT read from the operators at and after `off`.
pub open spec fn top_dict_from(d: Seq<u8>, off: int, td: TopDict) -> Option<TopDict>
    decreases d.len() - off,
{
    if off < 0 || off > d.len() {
        Some(td)
    } else {
        match scan_op(d, off) {
            None => Some(td),
            Some((op, q)) => match apply_top_op(td, op, spec_operands(d, off)) {
                None => None,
                Some(td2) => if q <= off || q > d.len() {
                    Some(td2)
                } else {
                    top_dict_from(d, q, td2)
                },
            },
        }
    }
}

/// The scan for the next operator moves forward and stays inside the data.
pub proof fn lemma_scan_op_range(d: Seq<u8>, pos: int)
    ensures
        scan_op(d, pos) matches Some((_, q)) ==> pos < q <= d.len(),
    decreases d.len() - pos,
{
    reveal_with_fuel(scan_op, 1);
    if 0 <= pos < d.len() && !dict::spec_is_op(d[pos]) {
        match dict::spec_skip_number(d[pos], d, pos + 1) {
            Some(q) => if q < d.len() && q > pos {
                lemma_scan_op_range(d, q);
            },
            None => {},
        }
    }
}

/// Reads the Top DICT entries from DICT data.
pub fn parse_top_dict_data(data: &[u8]) -> (r: Option<TopDict>)
    ensures
        r == top_dict_from(data@, 0, default_top_dict()),
{
    let mut td = TopDict {
        charset_offset: None,
        char_strings_offset: 0,
        private_dict_range: None,
        has_ros: false,
        fd_array_offset: None,
        fd_select_offset: None,
    };
    let mut dp = DictionaryParser::new(data);
    let ghost d = data@;
    loop
        invariant
            dp.data@ == d,
            d == data@,
            dp.offset <= d.len(),
            top_dict_from(d, 0, default_top_dict()) == top_dict_from(d, dp.offset as int, td),
        decreases d.len() - dp.offset,
    {
        let ghost off = dp.offset as int;
        proof {
            lemma_scan_op_range(d, off);
        }
        let op = match dp.parse_next() {
            Some(op) => op,
            None => return Some(td),
        };
        let code = op.get();
        if code == CHARSET_OFFSET {
            td.charset_offset = dp.parse_offset();
        } else if code == CHAR_STRINGS_OFFSET {
            td.char_strings_offset = match dp.parse_offset() {
                Some(v) => v,
                None => return None,
            };
        } else if code == PRIVATE_DICT_SIZE_AND_OFFSET {
            td.private_dict_range = dp.parse_range();
        } else if code == ROS {
            td.has_ros = true;
        } else if code == FD_ARRAY {
            td.fd_array_offset = dp.parse_offset();
        } else if code == FD_SELECT {
            td.fd_select_offset = dp.parse_offset();
        }
    }
}

/// The Top DICT of the font: the first object of the Top DICT INDEX at `p`.
pub open spec fn spec_top_dict(d: Seq<u8>, p: int) -> Option<TopDict> {
    match index_at(d, p) {
        None => None,
        Some(v) => match index_object(v, 0) {
            None => None,
            Some(obj) => top_dict_from(obj, 0, default_top_dict()),
        },
    }
}

/// Parses the Top DICT INDEX and reads its only dictionary.
pub fn parse_top_dict(s: &mut Stream) -> (r: Option<TopDict>)
    ensures
        final(s).bytes() == old(s).bytes(),
        r == spec_top_dict(old(s).bytes(), old(s).pos()),
        r is Some ==> final(s).pos() == index_at(old(s).bytes(), old(s).pos()).unwrap().3,
{
    let index = match parse_index(s) {
        Some(i) => i,
        None => return None,
    };
    // The Top DICT INDEX should have only one dictionary.
    let data = match index.get(0) {
        Some(d) => d,
        None => return None,
    };
    parse_top_dict_data(data)
}

/// The value of the first operator `target` from `off` on, read by `get`.
pub open spec fn private_from(d: Seq<u8>, off: int) -> Option<usize>
    decreases d.len() - off,
{
    if off < 0 || off > d.len() {
        None
    } else {
        match scan_op(d, off) {
            None => None,
            Some((op, q)) => if op == LOCAL_SUBROUTINES_OFFSET {
                offset_of(spec_operands(d, off))
            } else if q <= off || q > d.len() {
                None
            } else {
                private_from(d, q)
            },
        }
    }
}

/// Finds the local subroutines offset in a Private DICT.
pub fn parse_private_dict(data: &[u8]) -> (r: Option<usize>)
    ensures
        r == private_from(data@, 0),
{
    let mut dp = DictionaryParser::new(data);
    let ghost d = data@;
    loop
        invariant
            dp.data@ == d,
            d == data@,
            dp.offset <= d.len(),
            private_from(d, 0) == private_from(d, dp.offset as int),
        decreases d.len() - dp.offset,
    {
        proof {
            lemma_scan_op_range(d, dp.offset as int);
        }
        let op = match dp.parse_next() {
            Some(op) => op,
            None => return None,
        };
        if op.get() == LOCAL_SUBROUTINES_OFFSET {
            return dp.parse_offset();
        }
    }
}

/// The Private DICT range in a Font DICT, from `off` on.
pub open spec fn font_dict_from(d: Seq<u8>, off: int) -> Option<(usize, usize)>
    decreases d.len() - off,
{
    if off < 0 || off > d.len() {
        None
    } else {
        match scan_op(d, off) {
            None => None,
            Some((op, q)) => if op == PRIVATE_DICT_SIZE_AND_OFFSET {
                range_of(spec_operands(d, off))
            } else if q <= off || q > d.len() {
                None
            } else {
                font_dict_from(d, q)
            },
        }
    }
}

/// Finds the Private DICT range in a Font DICT.
pub fn parse_font_dict(data: &[u8]) -> (r: Option<(usize, usize)>)
    ensures
        r == font_dict_from(data@, 0),
{
    let mut dp = DictionaryParser::new(data);
    let ghost d = data@;
    loop
        invariant
            dp.data@ == d,
            d == data@,
            dp.offset <= d.len(),
            font_dict_from(d, 0) == font_dict_from(d, dp.offset as int),
        decreases d.len() - dp.offset,
    {
        proof {
            lemma_scan_op_range(d, dp.offset as int);
        }
        let op = match dp.parse_next() {
            Some(op) => op,
            None => return None,
        };
        if op.get() == PRIVATE_DICT_SIZE_AND_OFFSET {
            return dp.parse_range();
        }
    }
}

/// Selects the Font DICT of each glyph in a CID font.
#[derive(Clone, Copy, Debug)]
pub enum FDSelect<'a> {
    /// One Font DICT index per glyph.
    Format0(&'a [u8]),
    /// Ranges of glyphs, parsed in place.
    Format3(&'a [u8]),
}

/// The Font DICT of `gid` from range `k` on of a format 3 FDSelect with `n` ranges.
pub open spec fn fd3_from(d: Seq<u8>, gid: u16, k: int, n: int) -> Option<u8>
    decreases n + 1 - k,
{
    if k < 1 || k > n {
        None
    } else if !in_bounds(d, 2 + 3 * k, 2) {
        None
    } else if u16_at(d, 2 + 3 * (k - 1)) <= gid < u16_at(d, 2 + 3 * k) {
        Some(d[4 + 3 * (k - 1)])
    } else if !in_bounds(d, 4 + 3 * k, 1) {
        None
    } else {
        fd3_from(d, gid, k + 1, n)
    }
}

/// The Font DICT index of a glyph.
pub open spec fn spec_font_dict_index(f: FDSelect, gid: u16) -> Option<u8> {
    match f {
        FDSelect::Format0(a) => if gid < a@.len() {
            Some(a@[gid as int])
        } else {
            None
        },
        FDSelect::Format3(d) => {
            let d = d@;
            let n = u16_at(d, 0) as int;
            if !in_bounds(d, 0, 2) || n == 0 || n + 1 > 0xFFFF || !in_bounds(d, 2, 3) {
                None
            } else {
                fd3_from(d, gid, 1, n)
            }
        },
    }
}

impl<'a> FDSelect<'a> {
    /// Returns the Font DICT index of a glyph.
    pub fn font_dict_index(&self, glyph_id: GlyphId) -> (r: Option<u8>)
        ensures
            r == spec_font_dict_index(*self, glyph_id.0),
    {
        match self {
            FDSelect::Format0(array) => read_u8_at(array, glyph_id.0 as usize),
            FDSelect::Format3(data) => {
                let ghost d = data@;
                let n = match read_u16_at(data, 0) {
                    Some(v) => v,
                    None => return None,
                };
                if n == 0 {
                    return None;
                }
                // A sentinel glyph follows the last range, delimiting it.
                if n == 0xFFFF {
                    return None;
                }
                let mut prev_first = match read_u16_at(data, 2) {
                    Some(v) => v,
                    None => return None,
                };
                let mut prev_index = match read_u8_at(data, 4) {
                    Some(v) => v,
                    None => return None,
                };
                let mut k: usize = 1;
                while k <= n as usize
                    invariant
                        d == data@,
                        data@.len() == data.len(),
                        *self == FDSelect::Format3(*data),
                        1 <= n < 0xFFFF,
                        n as int == u16_at(d, 0),
                        in_bounds(d, 0, 2),
                        in_bounds(d, 2, 3),
                        1 <= k <= n + 1,
                        in_bounds(d, 4 + 3 * (k - 1), 1),
                        prev_first == u16_at(d, 2 + 3 * (k - 1)),
                        prev_index == d[4 + 3 * (k - 1)],
                        spec_font_dict_index(*self, glyph_id.0) == fd3_from(d, glyph_id.0, k as int, n as int),
                    decreases n + 1 - k,
                {
                    let curr_first = match read_u16_at(data, 2 + 3 * k) {
                        Some(v) => v,
                        None => return None,
                    };
                    if prev_first <= glyph_id.0 && glyph_id.0 < curr_first {
                        return Some(prev_index);
                    }
                    prev_index = match read_u8_at(data, 4 + 3 * k) {
                        Some(v) => v,
                        None => return None,
                    };
                    prev_first = curr_first;
                    k = k + 1;
                }
                None
            },
        }
    }
}

/// The FDSelect at `p` for `n` glyphs: format 0 with its `n` bytes, or format 3
/// with all bytes after the format byte.
pub open spec fn spec_fd_select(d: Seq<u8>, p: int, n: int) -> Option<(u8, Seq<u8>)> {
    if !in_bounds(d, p, 1) {
        None
    } else if d[p] == 0 {
        if in_bounds(d, p + 1, n) {
            Some((0, d.subrange(p + 1, p + 1 + n)))
        } else {
            None
        }
    } else if d[p] == 3 {
        if p + 1 <= d.len() {
            Some((3, d.subrange(p + 1, d.len() as int)))
        } else {
            None
        }
    } else {
        None
    }
}

pub open spec fn fd_select_bytes(f: FDSelect) -> (u8, Seq<u8>) {
    match f {
        FDSelect::Format0(a) => (0, a@),
        FDSelect::Format3(a) => (3, a@),
    }
}

/// Parses an FDSelect for `number_of_glyphs` glyphs.
pub fn parse_fd_select<'a>(number_of_glyphs: u16, s: &mut Stream<'a>) -> (r: Option<FDSelect<'a>>)
    ensures
        final(s).bytes() == old(s).bytes(),
        r is Some <==> spec_fd_select(old(s).bytes(), old(s).pos(), number_of_glyphs as int) is Some,
        r matches Some(f) ==> Some(fd_select_bytes(f)) == spec_fd_select(
            old(s).bytes(),
            old(s).pos(),
            number_of_glyphs as int,
        ),
{
    let format = match s.read_u8() {
        Some(v) => v,
        None => return None,
    };
    match format {
        0 => match s.read_array(number_of_glyphs as u32, 1) {
            Some(a) => Some(FDSelect::Format0(a)),
            None => None,
        },
        3 => match s.tail() {
            Some(t) => Some(FDSelect::Format3(t)),
            None => None,
        },
        _ => None,
    }
}

/// Metadata of a font with string IDs.
#[derive(Clone, Copy, Debug)]
pub struct SIDMetadata<'a> {
    pub local_subrs: DataIndex<'a>,
}

/// Metadata of a CID-keyed font.
#[derive(Clone, Copy, Debug)]
pub struct CIDMetadata<'a> {
    pub fd_array: DataIndex<'a>,
    pub fd_select: FDSelect<'a>,
}

/// The kind of a font.
#[derive(Clone, Copy, Debug)]
pub enum FontKind<'a> {
    SID(SIDMetadata<'a>),
    CID(CIDMetadata<'a>),
}

/// The parsed structure of a CFF table.
#[derive(Clone, Copy, Debug)]
pub struct Metadata<'a> {
    /// The whole CFF table; local subroutines of CID fonts are resolved in it.
    pub table_data: &'a [u8],
    pub global_subrs: DataIndex<'a>,
    pub charset: Charset<'a>,
    pub char_strings: DataIndex<'a>,
    pub kind: FontKind<'a>,
}

/// The local subroutines of a font with string IDs: `Some(None)` when there
/// are none (no Private DICT, no offset in it, or an overflowing start).
pub open spec fn spec_sid_local_subrs(d: Seq<u8>, td: TopDict) -> Option<Option<(Seq<u8>, int, Seq<u8>, int)>> {
    match td.private_dict_range {
        None => Some(None),
        Some(range) => {
            let start = range.0 as int;
            let end = range.1 as int;
            if start > end || end > d.len() {
                None
            } else {
                match private_from(d.subrange(start, end), 0) {
                    None => Some(None),
                    Some(so) => {
                        let st = start + so;
                        if st > usize::MAX {
                            Some(None)
                        } else if st > d.len() {
                            None
                        } else {
                            match index_at(d.subrange(st, d.len() as int), 0) {
                                None => None,
                                Some(v) => Some(Some(v)),
                            }
                        }
                    },
                }
            }
        },
    }
}

fn parse_sid_metadata<'a>(data: &'a [u8], top_dict: TopDict) -> (r: Option<FontKind<'a>>)
    ensures
        r is Some <==> spec_sid_local_subrs(data@, top_dict) is Some,
        r matches Some(k) ==> k matches FontKind::SID(m) && match spec_sid_local_subrs(data@, top_dict) {
            Some(Some(v)) => index_matches(m.local_subrs, v),
            Some(None) => m.local_subrs.data@ == Seq::<u8>::empty() && m.local_subrs.offsets.data@
                == Seq::<u8>::empty(),
            None => false,
        },
{
    let empty = DataIndex::empty();
    let (start, end) = match top_dict.private_dict_range {
        None => return Some(FontKind::SID(SIDMetadata { local_subrs: empty })),
        Some(r) => r,
    };
    if !(start <= end && end <= data.len()) {
        return None;
    }
    let private_data = match bytes_at(data, start, end - start) {
        Some(b) => b,
        None => return None,
    };
    let subroutines_offset = match parse_private_dict(private_data) {
        None => return Some(FontKind::SID(SIDMetadata { local_subrs: empty })),
        Some(v) => v,
    };
    // The local subroutines offset is relative to the Private DICT.
    let subrs_start = match start.checked_add(subroutines_offset) {
        None => return Some(FontKind::SID(SIDMetadata { local_subrs: empty })),
        Some(v) => v,
    };
    let subrs_data = match tail_from(data, subrs_start) {
        Some(t) => t,
        None => return None,
    };
    let mut s = Stream::new(subrs_data);
    match parse_index(&mut s) {
        Some(i) => Some(FontKind::SID(SIDMetadata { local_subrs: i })),
        None => None,
    }
}

/// The FDArray and FDSelect of a CID-keyed font with `n` glyphs.
pub open spec fn spec_cid_parts(d: Seq<u8>, td: TopDict, n: int) -> Option<((Seq<u8>, int, Seq<u8>, int), (u8, Seq<u8>))> {
    match (td.charset_offset, td.fd_array_offset, td.fd_select_offset) {
        (Some(cs), Some(fa), Some(fs)) => if cs <= 2 || fa > d.len() || fs > d.len() {
            // There are no predefined charsets for CID fonts.
            None
        } else {
            match (index_at(d, fa as int), spec_fd_select(d, fs as int, n)) {
                (Some(v), Some(f)) => Some((v, f)),
                _ => None,
            }
        },
        _ => None,
    }
}

fn parse_cid_metadata<'a>(data: &'a [u8], top_dict: TopDict, number_of_glyphs: u16) -> (r: Option<FontKind<'a>>)
    ensures
        r is Some <==> spec_cid_parts(data@, top_dict, number_of_glyphs as int) is Some,
        r matches Some(k) ==> k matches FontKind::CID(m) && index_matches(
            m.fd_array,
            spec_cid_parts(data@, top_dict, number_of_glyphs as int).unwrap().0,
        ) && fd_select_bytes(m.fd_select) == spec_cid_parts(data@, top_dict, number_of_glyphs as int).unwrap().1,
{
    let (charset_offset, fd_array_offset, fd_select_offset) = match (
        top_dict.charset_offset,
        top_dict.fd_array_offset,
        top_dict.fd_select_offset,
    ) {
        (Some(a), Some(b), Some(c)) => (a, b, c),
        _ => return None,  // charset, FDArray and FDSelect must be set.
    };
    if charset_offset <= 2 {
        // There are no predefined charsets for CID fonts.
        return None;
    }
    let mut s = match Stream::new_at(data, fd_array_offset) {
        Some(s) => s,
        None => return None,
    };
    let fd_array = match parse_index(&mut s) {
        Some(i) => i,
        None => {
            if fd_select_offset > data.len() {
                return None;
            }
            return None;
        },
    };
    let mut s = match Stream::new_at(data, fd_select_offset) {
        Some(s) => s,
        None => return None,
    };
    let fd_select = match parse_fd_select(number_of_glyphs, &mut s) {
        Some(f) => f,
        None => return None,
    };
    Some(FontKind::CID(CIDMetadata { fd_array, fd_select }))
}

/// Where the Top DICT INDEX starts: after the header, which may be longer than 4 bytes.
pub open spec fn header_end(d: Seq<u8>) -> Option<int> {
    if !in_bounds(d, 0, 3) || d[0] != 1 {
        None
    } else {
        // The Name INDEX follows the header.
        let p1 = if d[2] > 4 { d[2] as int } else { 4 };
        skip_index_end(d, p1)
    }
}

/// The Top DICT, the Global Subrs INDEX and the CharStrings INDEX of a CFF table.
pub open spec fn spec_parts(d: Seq<u8>) -> Option<(TopDict, (Seq<u8>, int, Seq<u8>, int), (Seq<u8>, int, Seq<u8>, int))> {
    match header_end(d) {
        None => None,
        Some(p2) => match spec_top_dict(d, p2) {
            None => None,
            Some(td) => if td.char_strings_offset == 0 {
                None
            } else {
                // The String INDEX follows the Top DICT INDEX.
                match skip_index_end(d, index_at(d, p2).unwrap().3) {
                    None => None,
                    Some(p4) => match index_at(d, p4) {
                        None => None,
                        Some(gs) => if td.char_strings_offset > d.len() {
                            None
                        } else {
                            match index_at(d, td.char_strings_offset as int) {
                                None => None,
                                Some(cs) => if index_len(cs) == 0 || index_len(cs) > 0xFFFF {
                                    None
                                } else {
                                    Some((td, gs, cs))
                                },
                            }
                        },
                    },
                }
            },
        },
    }
}

/// The charset of a font with `n` glyphs: a predefined one for offsets 0 to 2
/// (and when none is given), else the one stored at the offset.
pub open spec fn spec_charset_of(d: Seq<u8>, off: Option<usize>, n: int) -> Option<Option<(u8, Seq<u8>)>> {
    match off {
        None => Some(None),
        Some(o) => if o <= 2 {
            Some(None)
        } else if o > d.len() {
            None
        } else {
            match spec_charset(d, o as int, n) {
                None => None,
                Some((f, start, len)) => Some(Some((f, d.subrange(start, start + len)))),
            }
        },
    }
}

/// The charset `c` is the one that `spec_charset_of` describes.
pub open spec fn charset_is(c: Charset, off: Option<usize>, v: Option<(u8, Seq<u8>)>) -> bool {
    match v {
        None => match off {
            Some(o) => if o == 1 {
                c == Charset::Expert
            } else if o == 2 {
                c == Charset::ExpertSubset
            } else {
                c == Charset::ISOAdobe
            },
            None => c == Charset::ISOAdobe,
        },
        Some(b) => charset_bytes(c) == Some(b),
    }
}

/// The whole table parses.
pub open spec fn spec_metadata_ok(d: Seq<u8>) -> bool {
    match spec_parts(d) {
        None => false,
        Some((td, gs, cs)) => {
            let n = index_len(cs);
            spec_charset_of(d, td.charset_offset, n) is Some && if td.has_ros {
                spec_cid_parts(d, td, n) is Some
            } else {
                spec_sid_local_subrs(d, td) is Some
            }
        },
    }
}

/// The metadata `m` holds what the table `d` describes.
pub open spec fn metadata_is(m: Metadata, d: Seq<u8>) -> bool {
    let (td, gs, cs) = spec_parts(d).unwrap();
    let n = index_len(cs);
    &&& m.table_data@ == d
    &&& index_matches(m.global_subrs, gs)
    &&& index_matches(m.char_strings, cs)
    &&& charset_is(m.charset, td.charset_offset, spec_charset_of(d, td.charset_offset, n).unwrap())
    &&& (if td.has_ros {
        m.kind matches FontKind::CID(c) && index_matches(c.fd_array, spec_cid_parts(d, td, n).unwrap().0)
            && fd_select_bytes(c.fd_select) == spec_cid_parts(d, td, n).unwrap().1
    } else {
        m.kind matches FontKind::SID(sm) && match spec_sid_local_subrs(d, td) {
            Some(Some(v)) => index_matches(sm.local_subrs, v),
            _ => sm.local_subrs.data@ == Seq::<u8>::empty() && sm.local_subrs.offsets.data@
                == Seq::<u8>::empty(),
        }
    })
}

/// Parses the structure of a CFF table: header, Name INDEX (skipped), Top
/// DICT, String INDEX (skipped), Global Subrs, CharStrings, charset and the
/// font kind.
#[verifier::spinoff_prover]
#[verifier::rlimit(50)]
pub fn parse_metadata<'a>(data: &'a [u8]) -> (r: Option<Metadata<'a>>)
    ensures
        r is Some <==> spec_metadata_ok(data@),
        r matches Some(m) ==> metadata_is(m, data@),
{
    let mut s = Stream::new(data);
    // Header.
    let major = match s.read_u8() {
        Some(v) => v,
        None => return None,
    };
    s.advance(1); // minor
    let header_size = match s.read_u8() {
        Some(v) => v,
        None => return None,
    };
    s.advance(1); // absolute offset size
    if major != 1 {
        return None;
    }
    // The Name INDEX is not necessarily right after the header.
    if header_size > 4 {
        s.advance(header_size as usize - 4);
    }
    // Skip the Name INDEX.
    match skip_index(&mut s) {
        Some(_) => {},
        None => return None,
    }
    let top_dict = match parse_top_dict(&mut s) {
        Some(t) => t,
        None => return None,
    };
    // Must be set, otherwise there is nothing to parse.
    if top_dict.char_strings_offset == 0 {
        return None;
    }
    // Skip the String INDEX.
    match skip_index(&mut s) {
        Some(_) => {},
        None => return None,
    }
    let global_subrs = match parse_index(&mut s) {
        Some(i) => i,
        None => return None,
    };
    let mut cs = match Stream::new_at(data, top_dict.char_strings_offset) {
        Some(s) => s,
        None => return None,
    };
    let char_strings = match parse_index(&mut cs) {
        Some(i) => i,
        None => return None,
    };
    let n = char_strings.len();
    if n == 0 {
        return None;
    }
    // The number of glyphs is the count of the CharStrings INDEX.
    if n > 0xFFFF {
        return None;
    }
    let number_of_glyphs = n as u16;
    let charset = match top_dict.charset_offset {
        Some(0) => Charset::ISOAdobe,
        Some(1) => Charset::Expert,
        Some(2) => Charset::ExpertSubset,
        Some(offset) => {
            let mut cs = match Stream::new_at(data, offset) {
                Some(s) => s,
                None => return None,
            };
            match parse_charset(number_of_glyphs, &mut cs) {
                Some(c) => c,
                None => return None,
            }
        },
        None => Charset::ISOAdobe,
    };
    let kind = if top_dict.has_ros {
        match parse_cid_metadata(data, top_dict, number_of_glyphs) {
            Some(k) => k,
            None => return None,
        }
    } else {
        match parse_sid_metadata(data, top_dict) {
            Some(k) => k,
            None => return None,
        }
    };
    Some(Metadata { table_data: data, global_subrs, charset, char_strings, kind })
}

/// Adobe Technical Note #5176, chapter 16: the bias added to subroutine numbers.
pub fn calc_subroutine_bias(len: u32) -> (r: u16)
    ensures
        r == (if len < 1240 {
            107u16
        } else if len < 33900 {
            1131u16
        } else {
            32768u16
        }),
{
    if len < 1240 {
        107
    } else if len < 33900 {
        1131
    } else {
        32768
    }
}

/// The local subroutines of glyph `gid` in a CID font: through its Font
/// DICT's Private DICT.
pub open spec fn spec_cid_local_subrs(d: Seq<u8>, gid: u16, cid: CIDMetadata) -> Option<(Seq<u8>, int, Seq<u8>, int)> {
    match spec_font_dict_index(cid.fd_select, gid) {
        None => None,
        Some(fdi) => match index::index_get(
            cid.fd_array.data@,
            cid.fd_array.offsets.data@,
            cid.fd_array.offsets.offset_size.size(),
            fdi as int,
        ) {
            None => None,
            Some(font_dict) => match font_dict_from(font_dict, 0) {
                None => None,
                Some((start, end)) => if start > end || end > d.len() {
                    None
                } else {
                    match private_from(d.subrange(start as int, end as int), 0) {
                        None => None,
                        Some(so) => if start + so > usize::MAX || start + so > d.len() {
                            None
                        } else {
                            index_at(d.subrange(start + so, d.len() as int), 0)
                        },
                    }
                },
            },
        },
    }
}

/// Finds the local subroutines of a glyph in a CID font.
pub fn parse_cid_local_subrs<'a>(data: &'a [u8], glyph_id: GlyphId, cid: &CIDMetadata) -> (r: Option<DataIndex<'a>>)
    ensures
        r is Some <==> spec_cid_local_subrs(data@, glyph_id.0, *cid) is Some,
        r matches Some(i) ==> index_matches(i, spec_cid_local_subrs(data@, glyph_id.0, *cid).unwrap()),
{
    let font_dict_index = match cid.fd_select.font_dict_index(glyph_id) {
        Some(v) => v,
        None => return None,
    };
    let font_dict_data = match cid.fd_array.get(font_dict_index as u32) {
        Some(d) => d,
        None => return None,
    };
    let (start, end) = match parse_font_dict(font_dict_data) {
        Some(r) => r,
        None => return None,
    };
    if !(start <= end && end <= data.len()) {
        return None;
    }
    let private_dict_data = match bytes_at(data, start, end - start) {
        Some(b) => b,
        None => return None,
    };
    let subroutines_offset = match parse_private_dict(private_dict_data) {
        Some(v) => v,
        None => return None,
    };
    // The local subroutines offset is relative to the Private DICT.
    let subrs_start = match start.checked_add(subroutines_offset) {
        Some(v) => v,
        None => return None,
    };
    let subrs_data = match tail_from(data, subrs_start) {
        Some(t) => t,
        None => return None,
    };
    let mut s = Stream::new(subrs_data);
    parse_index(&mut s)
}

/// Parity of a number.
pub trait IsEven {
    /// The number is even.
    fn is_even(&self) -> bool;
    /// The number is odd.
    fn is_odd(&self) -> bool;
}

impl IsEven for usize {
    fn is_even(&self) -> (r: bool)
        ensures
            r == (*self % 2 == 0),
    {
        let v = *self;
        assert(v & 1 == 0 <==> v % 2 == 0) by (bit_vector);
        v & 1 == 0
    }

    fn is_odd(&self) -> (r: bool)
        ensures
            r == (*self % 2 == 1),
    {
        !self.is_even()
    }
}

} // verus!
