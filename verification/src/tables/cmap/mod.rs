//! A [character to glyph index mapping](https://docs.microsoft.com/en-us/typography/opentype/spec/cmap)
//! table implementation.

pub mod format0;
pub mod format2;
pub mod format4;
pub mod format6;
pub mod format10;
pub mod format12;
pub mod format13;
pub mod format14;

use vstd::prelude::*;
use crate::GlyphId;
use crate::tables::name::PlatformId;
use crate::parser::{in_bounds, be_u16, be_u32, u8_at, u16_at, u32_at, read_u8_at, read_u16_at, read_u32_at, tail_from, Stream};
use self::format14::GlyphVariationResult;

verus! {

/// A character map encoding format.
#[derive(Clone, Copy, PartialEq, Eq, Structural, Debug, Hash)]
pub enum Format {
    ByteEncodingTable,
    HighByteMappingThroughTable,
    SegmentMappingToDeltaValues,
    TrimmedTableMapping,
    MixedCoverage,
    TrimmedArray,
    SegmentedCoverage,
    ManyToOneRangeMappings,
    UnicodeVariationSequences,
}

impl Format {
    /// The format number.
    pub open spec fn code(self) -> u16 {
        match self {
            Format::ByteEncodingTable => 0,
            Format::HighByteMappingThroughTable => 2,
            Format::SegmentMappingToDeltaValues => 4,
            Format::TrimmedTableMapping => 6,
            Format::MixedCoverage => 8,
            Format::TrimmedArray => 10,
            Format::SegmentedCoverage => 12,
            Format::ManyToOneRangeMappings => 13,
            Format::UnicodeVariationSequences => 14,
        }
    }

    /// The format with number `v`, if there is one.
    pub open spec fn spec_from(v: u16) -> Option<Format> {
        if v == 0 {
            Some(Format::ByteEncodingTable)
        } else if v == 2 {
            Some(Format::HighByteMappingThroughTable)
        } else if v == 4 {
            Some(Format::SegmentMappingToDeltaValues)
        } else if v == 6 {
            Some(Format::TrimmedTableMapping)
        } else if v == 8 {
            Some(Format::MixedCoverage)
        } else if v == 10 {
            Some(Format::TrimmedArray)
        } else if v == 12 {
            Some(Format::SegmentedCoverage)
        } else if v == 13 {
            Some(Format::ManyToOneRangeMappings)
        } else if v == 14 {
            Some(Format::UnicodeVariationSequences)
        } else {
            None
        }
    }

    /// Converts a format number.
    pub fn parse(v: u16) -> (r: Option<Format>)
        ensures
            r == Format::spec_from(v),
            r matches Some(f) ==> f.code() == v,
    {
        match v {
            0 => Some(Format::ByteEncodingTable),
            2 => Some(Format::HighByteMappingThroughTable),
            4 => Some(Format::SegmentMappingToDeltaValues),
            6 => Some(Format::TrimmedTableMapping),
            8 => Some(Format::MixedCoverage),
            10 => Some(Format::TrimmedArray),
            12 => Some(Format::SegmentedCoverage),
            13 => Some(Format::ManyToOneRangeMappings),
            14 => Some(Format::UnicodeVariationSequences),
            _ => None,
        }
    }
}

/// The glyph a subtable of format `f` over `d` maps `c` to. Mixed coverage is
/// not supported and variation sequences are looked up separately.
pub open spec fn spec_subtable_glyph(f: Format, d: Seq<u8>, c: u32) -> Option<u16> {
    match spec_format_glyph(f, d, c) {
        Some(g) => if g == 0 {
            None
        } else {
            Some(g)
        },
        None => None,
    }
}

/// What the lookup of format `f` reads for `c`, glyph 0 included.
pub open spec fn spec_format_glyph(f: Format, d: Seq<u8>, c: u32) -> Option<u16> {
    match f {
        Format::ByteEncodingTable => format0::spec_glyph(d, c),
        Format::HighByteMappingThroughTable => format2::spec_glyph(d, c),
        Format::SegmentMappingToDeltaValues => format4::spec_glyph(d, c),
        Format::TrimmedTableMapping => format6::spec_glyph(d, c),
        Format::MixedCoverage => None,
        Format::TrimmedArray => format10::spec_glyph(d, c),
        Format::SegmentedCoverage => format12::spec_glyph(d, c),
        Format::ManyToOneRangeMappings => format13::spec_glyph(d, c),
        Format::UnicodeVariationSequences => None,
    }
}

/// The code points a subtable of format `f` lists.
pub open spec fn spec_subtable_codepoints(f: Format, d: Seq<u8>) -> Seq<u32> {
    match f {
        Format::ByteEncodingTable => format0::spec_codepoints(d),
        Format::HighByteMappingThroughTable => format2::spec_codepoints(d),
        Format::SegmentMappingToDeltaValues => format4::spec_codepoints(d),
        Format::TrimmedTableMapping => format6::spec_codepoints(d),
        Format::MixedCoverage => Seq::empty(),
        Format::TrimmedArray => format10::spec_codepoints(d),
        Format::SegmentedCoverage => format12::spec_codepoints(d),
        Format::ManyToOneRangeMappings => format13::spec_codepoints(d),
        Format::UnicodeVariationSequences => Seq::empty(),
    }
}

fn subtable_glyph(f: Format, d: &[u8], c: u32) -> (r: Option<u16>)
    ensures
        r == spec_subtable_glyph(f, d@, c),
{
    let g = format_glyph(f, d, c);
    // Glyph 0 is the missing glyph: it is no match.
    match g {
        Some(0) => None,
        _ => g,
    }
}

fn format_glyph(f: Format, d: &[u8], c: u32) -> (r: Option<u16>)
    ensures
        r == spec_format_glyph(f, d@, c),
{
    match f {
        Format::ByteEncodingTable => format0::parse(d, c),
        Format::HighByteMappingThroughTable => format2::parse(d, c),
        Format::SegmentMappingToDeltaValues => format4::parse(d, c),
        Format::TrimmedTableMapping => format6::parse(d, c),
        Format::MixedCoverage => None,
        Format::TrimmedArray => format10::parse(d, c),
        Format::SegmentedCoverage => format12::parse(d, c),
        Format::ManyToOneRangeMappings => format13::parse(d, c),
        Format::UnicodeVariationSequences => None,
    }
}

/// What the table-wide lookup reads from a subtable of format `f`: the
/// format's own lookup, glyph 0 included, except that a format 0 subtable is
/// read at `6 + c` for any code point below its stored length.
pub open spec fn spec_table_glyph(f: Format, d: Seq<u8>, c: u32) -> Option<u16> {
    if f == Format::ByteEncodingTable {
        if in_bounds(d, 2, 2) && c < u16_at(d, 2) && in_bounds(d, 6 + c, 1) {
            Some(u8_at(d, 6 + c) as u16)
        } else {
            None
        }
    } else {
        spec_format_glyph(f, d, c)
    }
}

fn table_glyph(f: Format, d: &[u8], c: u32) -> (r: Option<u16>)
    ensures
        r == spec_table_glyph(f, d@, c),
{
    if f == Format::ByteEncodingTable {
        let length = match read_u16_at(d, 2) {
            Some(v) => v,
            None => return None,
        };
        if c < length as u32 {
            match read_u8_at(d, 6 + c as usize) {
                Some(b) => Some(b as u16),
                None => None,
            }
        } else {
            None
        }
    } else {
        format_glyph(f, d, c)
    }
}

/// The Unicode test of a subtable: the Unicode platform, Windows with the
/// Unicode BMP encoding, or Windows with the full repertoire encoding and a
/// format 12 compatible layout.
pub open spec fn spec_is_unicode(platform_id: PlatformId, encoding_id: u16, format: Format) -> bool {
    match platform_id {
        PlatformId::Unicode => true,
        PlatformId::Windows => encoding_id == 1 || (encoding_id == 10 && (format
            == Format::SegmentedCoverage || format == Format::ManyToOneRangeMappings)),
        _ => false,
    }
}

// https://docs.microsoft.com/en-us/typography/opentype/spec/name#windows-encoding-ids
const WINDOWS_UNICODE_BMP_ENCODING_ID: u16 = 1;
const WINDOWS_UNICODE_FULL_REPERTOIRE_ENCODING_ID: u16 = 10;

/// A character encoding subtable.
#[derive(Clone, Copy)]
pub struct Subtable<'a> {
    pub platform_id: PlatformId,
    pub encoding_id: u16,
    pub format: Format,
    pub subtable_data: &'a [u8],
}

impl<'a> Subtable<'a> {
    /// Returns encoding's platform.
    pub fn platform_id(&self) -> (r: PlatformId)
        ensures
            r == self.platform_id,
    {
        self.platform_id
    }

    /// Returns encoding ID.
    pub fn encoding_id(&self) -> (r: u16)
        ensures
            r == self.encoding_id,
    {
        self.encoding_id
    }

    /// Returns encoding's format.
    pub fn format(&self) -> (r: Format)
        ensures
            r == self.format,
    {
        self.format
    }

    /// Checks that the current encoding is Unicode compatible.
    pub fn is_unicode(&self) -> (r: bool)
        ensures
            r == spec_is_unicode(self.platform_id, self.encoding_id, self.format),
    {
        match self.platform_id {
            PlatformId::Unicode => true,
            PlatformId::Windows => {
                if self.encoding_id == WINDOWS_UNICODE_BMP_ENCODING_ID {
                    true
                } else {
                    // Format 13 has the same structure as format 12.
                    let is_format_12_compatible = self.format == Format::SegmentedCoverage
                        || self.format == Format::ManyToOneRangeMappings;
                    // Supplementary-plane characters need a format 12 subtable
                    // for platform 3, encoding 10.
                    self.encoding_id == WINDOWS_UNICODE_FULL_REPERTOIRE_ENCODING_ID
                        && is_format_12_compatible
                }
            },
            _ => false,
        }
    }

    /// Maps a character to a glyph ID, without checking that the encoding is
    /// Unicode. `None` when the glyph ID is 0, and for mixed coverage and
    /// variation sequence subtables.
    pub fn glyph_index(&self, c: u32) -> (r: Option<GlyphId>)
        ensures
            r == (match spec_subtable_glyph(self.format, self.subtable_data@, c) {
                Some(g) => Some(GlyphId(g)),
                None => None,
            }),
            r != Some(GlyphId(0)),
    {
        match subtable_glyph(self.format, self.subtable_data, c) {
            Some(g) => Some(GlyphId(g)),
            None => None,
        }
    }

    /// Resolves a variation of a glyph ID from two code points; `None` when
    /// the glyph ID is 0, and unless this is a variation sequences subtable.
    pub fn glyph_variation_index(&self, c: char, variation: char) -> (r: Option<GlyphVariationResult>)
        ensures
            r == (if self.format == Format::UnicodeVariationSequences {
                match format14::spec_glyph(self.subtable_data@, c as u32, variation as u32) {
                    Some(GlyphVariationResult::Found(GlyphId(0))) => None,
                    v => v,
                }
            } else {
                None
            }),
            r != Some(GlyphVariationResult::Found(GlyphId(0))),
    {
        if self.format == Format::UnicodeVariationSequences {
            match format14::parse(self.subtable_data, c as u32, variation as u32) {
                Some(GlyphVariationResult::Found(GlyphId(0))) => None,
                v => v,
            }
        } else {
            None
        }
    }

    /// Lists all code points the subtable defines (some may still map to
    /// glyph 0). Nothing for mixed coverage and variation sequence subtables.
    pub fn codepoints(&self) -> (r: Vec<u32>)
        ensures
            r@ == spec_subtable_codepoints(self.format, self.subtable_data@),
    {
        match self.format {
            Format::ByteEncodingTable => format0::codepoints(self.subtable_data),
            Format::HighByteMappingThroughTable => format2::codepoints(self.subtable_data),
            Format::SegmentMappingToDeltaValues => format4::codepoints(self.subtable_data),
            Format::TrimmedTableMapping => format6::codepoints(self.subtable_data),
            Format::MixedCoverage => Vec::new(),
            Format::TrimmedArray => format10::codepoints(self.subtable_data),
            Format::SegmentedCoverage => format12::codepoints(self.subtable_data),
            Format::ManyToOneRangeMappings => format13::codepoints(self.subtable_data),
            Format::UnicodeVariationSequences => Vec::new(),
        }
    }
}

/// The subtable that encoding record `i` of the `cmap` table `d` describes.
pub open spec fn spec_subtable(d: Seq<u8>, i: int) -> Option<(PlatformId, u16, Format, int)> {
    let rec = 4 + 8 * i;
    let off = u32_at(d, rec + 4) as int;
    if !in_bounds(d, rec, 8) {
        None
    } else {
        match PlatformId::spec_from(u16_at(d, rec)) {
            None => None,
            Some(p) => if off > d.len() || !in_bounds(d, off, 2) {
                None
            } else {
                match Format::spec_from(u16_at(d, off)) {
                    None => None,
                    Some(f) => Some((p, u16_at(d, rec + 2), f, off)),
                }
            },
        }
    }
}

/// The subtable of record `i`, read from the table's bytes.
fn read_subtable<'a>(data: &'a [u8], i: u16) -> (r: Option<Subtable<'a>>)
    ensures
        r matches Some(st) ==> spec_subtable(data@, i as int) == Some(
            (st.platform_id, st.encoding_id, st.format, u32_at(data@, 8 + 8 * i) as int),
        ) && st.subtable_data@ == data@.subrange(u32_at(data@, 8 + 8 * i) as int, data@.len() as int),
        r is None <==> spec_subtable(data@, i as int) is None,
{
    let rec: usize = 4 + 8 * i as usize;
    let mut s = match Stream::new_at(data, rec) {
        Some(s) => s,
        None => return None,
    };
    let p = match s.read_u16() {
        Some(v) => v,
        None => return None,
    };
    let encoding_id = match s.read_u16() {
        Some(v) => v,
        None => return None,
    };
    let offset = match s.read_u32() {
        Some(v) => v,
        None => return None,
    };
    let platform_id = match PlatformId::parse(p) {
        Some(v) => v,
        None => return None,
    };
    let subtable_data = match tail_from(data, offset as usize) {
        Some(t) => t,
        None => return None,
    };
    let f = match read_u16_at(subtable_data, 0) {
        Some(v) => v,
        None => return None,
    };
    assert(u16_at(subtable_data@, 0) == u16_at(data@, offset as int));
    let format = match Format::parse(f) {
        Some(v) => v,
        None => return None,
    };
    Some(Subtable { platform_id, encoding_id, format, subtable_data })
}

/// A cursor over the character encoding subtables.
#[derive(Clone, Copy)]
pub struct Subtables<'a> {
    pub data: &'a [u8],
    pub count: u16,
    pub index: u16,
}

impl<'a> Subtables<'a> {
    /// Returns the next subtable; `None` once all are listed, or when a
    /// record is unreadable.
    pub fn next(&mut self) -> (r: Option<Subtable<'a>>)
        ensures
            final(self).data == old(self).data,
            final(self).count == old(self).count,
            old(self).index >= old(self).count ==> r is None && final(self).index == old(self).index,
            old(self).index < old(self).count ==> final(self).index == old(self).index + 1 && (r is None
                <==> spec_subtable(old(self).data@, old(self).index as int) is None),
            r matches Some(st) ==> spec_subtable(old(self).data@, old(self).index as int) == Some(
                (st.platform_id, st.encoding_id, st.format, u32_at(old(self).data@, 8 + 8 * old(self).index) as int),
            ) && st.subtable_data@ == old(self).data@.subrange(
                u32_at(old(self).data@, 8 + 8 * old(self).index) as int,
                old(self).data@.len() as int,
            ),
    {
        if self.index < self.count {
            let index = self.index;
            self.index = self.index + 1;
            read_subtable(self.data, index)
        } else {
            None
        }
    }

    /// The number of subtables.
    pub fn count(&self) -> (r: usize)
        ensures
            r == self.count,
    {
        self.count as usize
    }
}

/// The header of a `cmap` table with its encoding records.
#[derive(Clone, Copy)]
pub struct Table<'a> {
    pub data: &'a [u8],
    pub count: u16,
}

/// The table's header is readable and all encoding records are present.
pub open spec fn header_ok(d: Seq<u8>) -> bool {
    in_bounds(d, 2, 2) && in_bounds(d, 4, 8 * u16_at(d, 2))
}

impl<'a> Table<'a> {
    /// Parses the header and checks that all encoding records are present.
    pub fn parse(data: &'a [u8]) -> (r: Option<Table<'a>>)
        ensures
            r is Some <==> header_ok(data@),
            r matches Some(t) ==> t.data == data && t.count == u16_at(data@, 2),
    {
        let mut s = Stream::new(data);
        s.advance(2); // version
        let count = match s.read_u16() {
            Some(v) => v,
            None => return None,
        };
        match s.read_array(count as u32, 8) {
            Some(_) => Some(Table { data, count }),
            None => None,
        }
    }

    /// The subtables of the table.
    pub fn subtables(&self) -> (r: Subtables<'a>)
        ensures
            r.data == self.data,
            r.count == self.count,
            r.index == 0,
    {
        Subtables { data: self.data, count: self.count, index: 0 }
    }
}

/// Parses the header of a `cmap` table and returns its subtables.
pub fn parse<'a>(data: &'a [u8]) -> (r: Option<Subtables<'a>>)
    ensures
        r is Some <==> header_ok(data@),
        r matches Some(t) ==> t.data == data && t.count == u16_at(data@, 2) && t.index == 0,
{
    match Table::parse(data) {
        Some(t) => Some(t.subtables()),
        None => None,
    }
}

/// The Unicode test of the table-wide lookup: the Unicode platform, Windows
/// with the Unicode BMP encoding, or Windows with the full repertoire encoding
/// and format 12.
pub open spec fn spec_is_unicode_encoding(format: Format, platform_id: PlatformId, encoding_id: u16) -> bool {
    match platform_id {
        PlatformId::Unicode => true,
        PlatformId::Windows => encoding_id == 1 || (encoding_id == 10 && format == Format::SegmentedCoverage),
        _ => false,
    }
}

fn is_unicode_encoding(format: Format, platform_id: PlatformId, encoding_id: u16) -> (r: bool)
    ensures
        r == spec_is_unicode_encoding(format, platform_id, encoding_id),
{
    match platform_id {
        PlatformId::Unicode => true,
        PlatformId::Windows => {
            if encoding_id == WINDOWS_UNICODE_BMP_ENCODING_ID {
                true
            } else {
                encoding_id == WINDOWS_UNICODE_FULL_REPERTOIRE_ENCODING_ID && format
                    == Format::SegmentedCoverage
            }
        },
        _ => false,
    }
}

/// What the record loop of the table-wide lookup does with record `i`:
/// `Err(())` aborts the whole lookup, `Ok(None)` moves on, `Ok(Some(g))` answers.
pub open spec fn record_step(d: Seq<u8>, i: int, c: u32) -> Result<Option<u16>, ()> {
    let rec = 4 + 8 * i;
    let off = u32_at(d, rec + 4) as int;
    if off > d.len() || !in_bounds(d, off, 2) {
        Err(())
    } else {
        match Format::spec_from(u16_at(d, off)) {
            None => Ok(None),
            Some(f) => match PlatformId::spec_from(u16_at(d, rec)) {
                None => Ok(None),
                Some(p) => if !spec_is_unicode_encoding(f, p, u16_at(d, rec + 2)) {
                    Ok(None)
                } else {
                    Ok(spec_table_glyph(f, d.subrange(off, d.len() as int), c))
                },
            },
        }
    }
}

/// The table-wide lookup from record `i` on: the first Unicode subtable that
/// maps `c` answers.
pub open spec fn glyph_from(d: Seq<u8>, count: int, c: u32, i: int) -> Option<u16>
    decreases count - i,
{
    if i < 0 || i >= count {
        None
    } else {
        match record_step(d, i, c) {
            Err(_) => None,
            Ok(Some(g)) => Some(g),
            Ok(None) => glyph_from(d, count, c, i + 1),
        }
    }
}

fn record_step_exec(data: &[u8], i: u16, c: u32) -> (r: Result<Option<u16>, ()>)
    requires
        in_bounds(data@, 4 + 8 * i, 8),
    ensures
        r == record_step(data@, i as int, c),
{
    let rec: usize = 4 + 8 * i as usize;
    assert(data@.len() == data.len());
    let offset = match read_u32_at(data, rec + 4) {
        Some(v) => v,
        None => return Err(()),
    };
    let subtable_data = match tail_from(data, offset as usize) {
        Some(t) => t,
        None => return Err(()),
    };
    let f = match read_u16_at(subtable_data, 0) {
        Some(v) => v,
        None => return Err(()),
    };
    assert(u16_at(subtable_data@, 0) == u16_at(data@, offset as int));
    let format = match Format::parse(f) {
        Some(v) => v,
        None => return Ok(None),
    };
    let p = match read_u16_at(data, rec) {
        Some(v) => v,
        None => return Err(()),
    };
    let encoding_id = match read_u16_at(data, rec + 2) {
        Some(v) => v,
        None => return Err(()),
    };
    let platform_id = match PlatformId::parse(p) {
        Some(v) => v,
        None => return Ok(None),
    };
    if !is_unicode_encoding(format, platform_id, encoding_id) {
        return Ok(None);
    }
    Ok(table_glyph(format, subtable_data, c))
}

/// A subtable is Unicode when it belongs to the Unicode platform, to the
/// Windows platform with the Unicode BMP encoding (1), or to the Windows
/// platform with the full repertoire encoding (10) in format 12 or 13; no
/// subtable of another platform is.
pub proof fn lemma_unicode_subtables(p: PlatformId, e: u16, f: Format)
    ensures
        p == PlatformId::Unicode ==> spec_is_unicode(p, e, f),
        p == PlatformId::Windows && e == 1 ==> spec_is_unicode(p, e, f),
        p == PlatformId::Windows && e == 10 && (f == Format::SegmentedCoverage || f
            == Format::ManyToOneRangeMappings) ==> spec_is_unicode(p, e, f),
        p == PlatformId::Windows && e != 1 && e != 10 ==> !spec_is_unicode(p, e, f),
        p == PlatformId::Windows && e == 10 && f != Format::SegmentedCoverage && f
            != Format::ManyToOneRangeMappings ==> !spec_is_unicode(p, e, f),
        p == PlatformId::Macintosh || p == PlatformId::Iso || p == PlatformId::Custom
            ==> !spec_is_unicode(p, e, f),
{
}

/// Which subtables the table-wide lookup consults: those of the Unicode
/// platform (0), and those of the Windows platform (3) with the Unicode BMP
/// encoding (1), or with the full repertoire encoding (10) in format 12. A
/// consulted subtable that maps the character answers; any other subtable
/// is passed over for the records after it.
pub proof fn lemma_lookup_consults_unicode_subtables(d: Seq<u8>, count: int, c: u32, i: int)
    requires
        0 <= i < count,
        4 + 8 * i + 8 <= d.len(),
        be_u32(d, 8 + 8 * i) + 2 <= d.len(),
    ensures
        ({
            let p = be_u16(d, 4 + 8 * i);
            let e = be_u16(d, 6 + 8 * i);
            let off = be_u32(d, 8 + 8 * i);
            let f = be_u16(d, off);
            let sub = d.subrange(off, d.len() as int);
            &&& f == 12 && (p == 0 || (p == 3 && (e == 1 || e == 10))) && format12::spec_glyph(sub, c) is Some
                ==> glyph_from(d, count, c, i) == format12::spec_glyph(sub, c)
            &&& f == 4 && (p == 0 || (p == 3 && e == 1)) && format4::spec_glyph(sub, c) is Some
                ==> glyph_from(d, count, c, i) == format4::spec_glyph(sub, c)
            &&& f == 6 && (p == 0 || (p == 3 && e == 1)) && format6::spec_glyph(sub, c) is Some
                ==> glyph_from(d, count, c, i) == format6::spec_glyph(sub, c)
            &&& (p == 1 || p == 2 || p >= 4 || (p == 3 && e != 1 && !(e == 10 && f == 12)))
                ==> glyph_from(d, count, c, i) == glyph_from(d, count, c, i + 1)
        }),
{
}

/// Maps a character to a glyph through the first Unicode subtable that has it.
/// Unlike `Subtable::glyph_index`, a subtable that maps it to glyph 0 answers
/// with glyph 0.
pub fn glyph_index(table: &Table, c: char) -> (r: Option<GlyphId>)
    requires
        header_ok(table.data@),
        table.count == u16_at(table.data@, 2),
    ensures
        r == (match glyph_from(table.data@, table.count as int, c as u32, 0) {
            Some(g) => Some(GlyphId(g)),
            None => None,
        }),
{
    let ghost d = table.data@;
    let mut i: u16 = 0;
    while i < table.count
        invariant
            d == table.data@,
            header_ok(d),
            table.count == u16_at(d, 2),
            0 <= i <= table.count,
            glyph_from(d, table.count as int, c as u32, 0) == glyph_from(d, table.count as int, c as u32, i as int),
        decreases table.count - i,
    {
        match record_step_exec(table.data, i, c as u32) {
            Err(_) => return None,
            Ok(Some(g)) => return Some(GlyphId(g)),
            Ok(None) => {},
        }
        i = i + 1;
    }
    None
}

/// What the variation lookup does with record `i`: the first variation
/// sequences subtable answers, an unreadable subtable aborts.
pub open spec fn variation_from(d: Seq<u8>, count: int, c: u32, variation: u32, i: int) -> Option<GlyphId>
    decreases count - i,
{
    if i < 0 || i >= count {
        None
    } else {
        let off = u32_at(d, 4 + 8 * i + 4) as int;
        if off > d.len() || !in_bounds(d, off, 2) {
            None
        } else if Format::spec_from(u16_at(d, off)) != Some(Format::UnicodeVariationSequences) {
            variation_from(d, count, c, variation, i + 1)
        } else {
            match format14::spec_glyph(d.subrange(off, d.len() as int), c, variation) {
                None => None,
                Some(GlyphVariationResult::Found(g)) => Some(g),
                Some(GlyphVariationResult::UseDefault) => match glyph_from(d, count, c, 0) {
                    Some(g) => Some(GlyphId(g)),
                    None => None,
                },
            }
        }
    }
}

/// Resolves a variation of a glyph from the first variation sequences subtable;
/// a default variation falls back to the regular lookup.
pub fn glyph_variation_index(table: &Table, c: char, variation: char) -> (r: Option<GlyphId>)
    requires
        header_ok(table.data@),
        table.count == u16_at(table.data@, 2),
    ensures
        r == variation_from(table.data@, table.count as int, c as u32, variation as u32, 0),
{
    let ghost d = table.data@;
    let mut i: u16 = 0;
    while i < table.count
        invariant
            d == table.data@,
            header_ok(d),
            table.count == u16_at(d, 2),
            0 <= i <= table.count,
            variation_from(d, table.count as int, c as u32, variation as u32, 0) == variation_from(
                d,
                table.count as int,
                c as u32,
                variation as u32,
                i as int,
            ),
        decreases table.count - i,
    {
        assert(table.data@.len() == table.data.len());
        let offset = match read_u32_at(table.data, 4 + 8 * i as usize + 4) {
            Some(v) => v,
            None => return None,
        };
        let subtable_data = match tail_from(table.data, offset as usize) {
            Some(t) => t,
            None => return None,
        };
        let f = match read_u16_at(subtable_data, 0) {
            Some(v) => v,
            None => return None,
        };
        assert(u16_at(subtable_data@, 0) == u16_at(d, offset as int));
        if f == 14 {
            return match format14::parse(subtable_data, c as u32, variation as u32) {
                None => None,
                Some(GlyphVariationResult::Found(g)) => Some(g),
                Some(GlyphVariationResult::UseDefault) => glyph_index(table, c),
            };
        }
        i = i + 1;
    }
    None
}

} // verus!
