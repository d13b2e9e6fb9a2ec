//! A [PostScript Table](
//! https://docs.microsoft.com/en-us/typography/opentype/spec/post) implementation.

use vstd::prelude::*;
use vstd::utf8::{valid_utf8, decode_utf8};
use crate::{GlyphId, LineMetrics};
use crate::parser::{in_bounds, u16_at, i16_at, u32_at, opt_u16_at, read_u8_at, read_u16_at, read_i16_at,
    read_u32_at, bytes_at, tail_from};

verus! {

pub const TABLE_SIZE: usize = 32;
pub const ITALIC_ANGLE_OFFSET: usize = 4;
pub const UNDERLINE_POSITION_OFFSET: usize = 8;
pub const UNDERLINE_THICKNESS_OFFSET: usize = 10;
pub const IS_FIXED_PITCH_OFFSET: usize = 12;

/// Number of glyph names in the Macintosh standard order.
pub const MACINTOSH_NAMES_COUNT: u16 = 258;

/// Glyph name `i` of the [Macintosh standard order](
/// https://developer.apple.com/fonts/TrueType-Reference-Manual/RM06/Chap6post.html).
pub open spec fn macintosh_name_spec(i: u16) -> Seq<char> {
    match i {
        0 => ".notdef"@,
        1 => ".null"@,
        2 => "nonmarkingreturn"@,
        3 => "space"@,
        4 => "exclam"@,
        5 => "quotedbl"@,
        6 => "numbersign"@,
        7 => "dollar"@,
        8 => "percent"@,
        9 => "ampersand"@,
        10 => "quotesingle"@,
        11 => "parenleft"@,
        12 => "parenright"@,
        13 => "asterisk"@,
        14 => "plus"@,
        15 => "comma"@,
        16 => "hyphen"@,
        17 => "period"@,
        18 => "slash"@,
        19 => "zero"@,
        20 => "one"@,
        21 => "two"@,
        22 => "three"@,
        23 => "four"@,
        24 => "five"@,
        25 => "six"@,
        26 => "seven"@,
        27 => "eight"@,
        28 => "nine"@,
        29 => "colon"@,
        30 => "semicolon"@,
        31 => "less"@,
        32 => "equal"@,
        33 => "greater"@,
        34 => "question"@,
        35 => "at"@,
        36 => "A"@,
        37 => "B"@,
        38 => "C"@,
        39 => "D"@,
        40 => "E"@,
        41 => "F"@,
        42 => "G"@,
        43 => "H"@,
        44 => "I"@,
        45 => "J"@,
        46 => "K"@,
        47 => "L"@,
        48 => "M"@,
        49 => "N"@,
        50 => "O"@,
        51 => "P"@,
        52 => "Q"@,
        53 => "R"@,
        54 => "S"@,
        55 => "T"@,
        56 => "U"@,
        57 => "V"@,
        58 => "W"@,
        59 => "X"@,
        60 => "Y"@,
        61 => "Z"@,
        62 => "bracketleft"@,
        63 => "backslash"@,
        64 => "bracketright"@,
        65 => "asciicircum"@,
        66 => "underscore"@,
        67 => "grave"@,
        68 => "a"@,
        69 => "b"@,
        70 => "c"@,
        71 => "d"@,
        72 => "e"@,
        73 => "f"@,
        74 => "g"@,
        75 => "h"@,
        76 => "i"@,
        77 => "j"@,
        78 => "k"@,
        79 => "l"@,
        80 => "m"@,
        81 => "n"@,
        82 => "o"@,
        83 => "p"@,
        84 => "q"@,
        85 => "r"@,
        86 => "s"@,
        87 => "t"@,
        88 => "u"@,
        89 => "v"@,
        90 => "w"@,
        91 => "x"@,
        92 => "y"@,
        93 => "z"@,
        94 => "braceleft"@,
        95 => "bar"@,
        96 => "braceright"@,
        97 => "asciitilde"@,
        98 => "Adieresis"@,
        99 => "Aring"@,
        100 => "Ccedilla"@,
        101 => "Eacute"@,
        102 => "Ntilde"@,
        103 => "Odieresis"@,
        104 => "Udieresis"@,
        105 => "aacute"@,
        106 => "agrave"@,
        107 => "acircumflex"@,
        108 => "adieresis"@,
        109 => "atilde"@,
        110 => "aring"@,
        111 => "ccedilla"@,
        112 => "eacute"@,
        113 => "egrave"@,
        114 => "ecircumflex"@,
        115 => "edieresis"@,
        116 => "iacute"@,
        117 => "igrave"@,
        118 => "icircumflex"@,
        119 => "idieresis"@,
        120 => "ntilde"@,
        121 => "oacute"@,
        122 => "ograve"@,
        123 => "ocircumflex"@,
        124 => "odieresis"@,
        125 => "otilde"@,
        126 => "uacute"@,
        127 => "ugrave"@,
        128 => "ucircumflex"@,
        129 => "udieresis"@,
        130 => "dagger"@,
        131 => "degree"@,
        132 => "cent"@,
        133 => "sterling"@,
        134 => "section"@,
        135 => "bullet"@,
        136 => "paragraph"@,
        137 => "germandbls"@,
        138 => "registered"@,
        139 => "copyright"@,
        140 => "trademark"@,
        141 => "acute"@,
        142 => "dieresis"@,
        143 => "notequal"@,
        144 => "AE"@,
        145 => "Oslash"@,
        146 => "infinity"@,
        147 => "plusminus"@,
        148 => "lessequal"@,
        149 => "greaterequal"@,
        150 => "yen"@,
        151 => "mu"@,
        152 => "partialdiff"@,
        153 => "summation"@,
        154 => "product"@,
        155 => "pi"@,
        156 => "integral"@,
        157 => "ordfeminine"@,
        158 => "ordmasculine"@,
        159 => "Omega"@,
        160 => "ae"@,
        161 => "oslash"@,
        162 => "questiondown"@,
        163 => "exclamdown"@,
        164 => "logicalnot"@,
        165 => "radical"@,
        166 => "florin"@,
        167 => "approxequal"@,
        168 => "Delta"@,
        169 => "guillemotleft"@,
        170 => "guillemotright"@,
        171 => "ellipsis"@,
        172 => "nonbreakingspace"@,
        173 => "Agrave"@,
        174 => "Atilde"@,
        175 => "Otilde"@,
        176 => "OE"@,
        177 => "oe"@,
        178 => "endash"@,
        179 => "emdash"@,
        180 => "quotedblleft"@,
        181 => "quotedblright"@,
        182 => "quoteleft"@,
        183 => "quoteright"@,
        184 => "divide"@,
        185 => "lozenge"@,
        186 => "ydieresis"@,
        187 => "Ydieresis"@,
        188 => "fraction"@,
        189 => "currency"@,
        190 => "guilsinglleft"@,
        191 => "guilsinglright"@,
        192 => "fi"@,
        193 => "fl"@,
        194 => "daggerdbl"@,
        195 => "periodcentered"@,
        196 => "quotesinglbase"@,
        197 => "quotedblbase"@,
        198 => "perthousand"@,
        199 => "Acircumflex"@,
        200 => "Ecircumflex"@,
        201 => "Aacute"@,
        202 => "Edieresis"@,
        203 => "Egrave"@,
        204 => "Iacute"@,
        205 => "Icircumflex"@,
        206 => "Idieresis"@,
        207 => "Igrave"@,
        208 => "Oacute"@,
        209 => "Ocircumflex"@,
        210 => "apple"@,
        211 => "Ograve"@,
        212 => "Uacute"@,
        213 => "Ucircumflex"@,
        214 => "Ugrave"@,
        215 => "dotlessi"@,
        216 => "circumflex"@,
        217 => "tilde"@,
        218 => "macron"@,
        219 => "breve"@,
        220 => "dotaccent"@,
        221 => "ring"@,
        222 => "cedilla"@,
        223 => "hungarumlaut"@,
        224 => "ogonek"@,
        225 => "caron"@,
        226 => "Lslash"@,
        227 => "lslash"@,
        228 => "Scaron"@,
        229 => "scaron"@,
        230 => "Zcaron"@,
        231 => "zcaron"@,
        232 => "brokenbar"@,
        233 => "Eth"@,
        234 => "eth"@,
        235 => "Yacute"@,
        236 => "yacute"@,
        237 => "Thorn"@,
        238 => "thorn"@,
        239 => "minus"@,
        240 => "multiply"@,
        241 => "onesuperior"@,
        242 => "twosuperior"@,
        243 => "threesuperior"@,
        244 => "onehalf"@,
        245 => "onequarter"@,
        246 => "threequarters"@,
        247 => "franc"@,
        248 => "Gbreve"@,
        249 => "gbreve"@,
        250 => "Idotaccent"@,
        251 => "Scedilla"@,
        252 => "scedilla"@,
        253 => "Cacute"@,
        254 => "cacute"@,
        255 => "Ccaron"@,
        256 => "ccaron"@,
        _ => "dcroat"@,
    }
}

/// Returns glyph name `index` of the Macintosh standard order.
pub fn macintosh_name(index: u16) -> (r: &'static str)
    requires
        index < MACINTOSH_NAMES_COUNT,
    ensures
        r@ == macintosh_name_spec(index),
{
    match index {
        0 => ".notdef",
        1 => ".null",
        2 => "nonmarkingreturn",
        3 => "space",
        4 => "exclam",
        5 => "quotedbl",
        6 => "numbersign",
        7 => "dollar",
        8 => "percent",
        9 => "ampersand",
        10 => "quotesingle",
        11 => "parenleft",
        12 => "parenright",
        13 => "asterisk",
        14 => "plus",
        15 => "comma",
        16 => "hyphen",
        17 => "period",
        18 => "slash",
        19 => "zero",
        20 => "one",
        21 => "two",
        22 => "three",
        23 => "four",
        24 => "five",
        25 => "six",
        26 => "seven",
        27 => "eight",
        28 => "nine",
        29 => "colon",
        30 => "semicolon",
        31 => "less",
        32 => "equal",
        33 => "greater",
        34 => "question",
        35 => "at",
        36 => "A",
        37 => "B",
        38 => "C",
        39 => "D",
        40 => "E",
        41 => "F",
        42 => "G",
        43 => "H",
        44 => "I",
        45 => "J",
        46 => "K",
        47 => "L",
        48 => "M",
        49 => "N",
        50 => "O",
        51 => "P",
        52 => "Q",
        53 => "R",
        54 => "S",
        55 => "T",
        56 => "U",
        57 => "V",
        58 => "W",
        59 => "X",
        60 => "Y",
        61 => "Z",
        62 => "bracketleft",
        63 => "backslash",
        64 => "bracketright",
        65 => "asciicircum",
        66 => "underscore",
        67 => "grave",
        68 => "a",
        69 => "b",
        70 => "c",
        71 => "d",
        72 => "e",
        73 => "f",
        74 => "g",
        75 => "h",
        76 => "i",
        77 => "j",
        78 => "k",
        79 => "l",
        80 => "m",
        81 => "n",
        82 => "o",
        83 => "p",
        84 => "q",
        85 => "r",
        86 => "s",
        87 => "t",
        88 => "u",
        89 => "v",
        90 => "w",
        91 => "x",
        92 => "y",
        93 => "z",
        94 => "braceleft",
        95 => "bar",
        96 => "braceright",
        97 => "asciitilde",
        98 => "Adieresis",
        99 => "Aring",
        100 => "Ccedilla",
        101 => "Eacute",
        102 => "Ntilde",
        103 => "Odieresis",
        104 => "Udieresis",
        105 => "aacute",
        106 => "agrave",
        107 => "acircumflex",
        108 => "adieresis",
        109 => "atilde",
        110 => "aring",
        111 => "ccedilla",
        112 => "eacute",
        113 => "egrave",
        114 => "ecircumflex",
        115 => "edieresis",
        116 => "iacute",
        117 => "igrave",
        118 => "icircumflex",
        119 => "idieresis",
        120 => "ntilde",
        121 => "oacute",
        122 => "ograve",
        123 => "ocircumflex",
        124 => "odieresis",
        125 => "otilde",
        126 => "uacute",
        127 => "ugrave",
        128 => "ucircumflex",
        129 => "udieresis",
        130 => "dagger",
        131 => "degree",
        132 => "cent",
        133 => "sterling",
        134 => "section",
        135 => "bullet",
        136 => "paragraph",
        137 => "germandbls",
        138 => "registered",
        139 => "copyright",
        140 => "trademark",
        141 => "acute",
        142 => "dieresis",
        143 => "notequal",
        144 => "AE",
        145 => "Oslash",
        146 => "infinity",
        147 => "plusminus",
        148 => "lessequal",
        149 => "greaterequal",
        150 => "yen",
        151 => "mu",
        152 => "partialdiff",
        153 => "summation",
        154 => "product",
        155 => "pi",
        156 => "integral",
        157 => "ordfeminine",
        158 => "ordmasculine",
        159 => "Omega",
        160 => "ae",
        161 => "oslash",
        162 => "questiondown",
        163 => "exclamdown",
        164 => "logicalnot",
        165 => "radical",
        166 => "florin",
        167 => "approxequal",
        168 => "Delta",
        169 => "guillemotleft",
        170 => "guillemotright",
        171 => "ellipsis",
        172 => "nonbreakingspace",
        173 => "Agrave",
        174 => "Atilde",
        175 => "Otilde",
        176 => "OE",
        177 => "oe",
        178 => "endash",
        179 => "emdash",
        180 => "quotedblleft",
        181 => "quotedblright",
        182 => "quoteleft",
        183 => "quoteright",
        184 => "divide",
        185 => "lozenge",
        186 => "ydieresis",
        187 => "Ydieresis",
        188 => "fraction",
        189 => "currency",
        190 => "guilsinglleft",
        191 => "guilsinglright",
        192 => "fi",
        193 => "fl",
        194 => "daggerdbl",
        195 => "periodcentered",
        196 => "quotesinglbase",
        197 => "quotedblbase",
        198 => "perthousand",
        199 => "Acircumflex",
        200 => "Ecircumflex",
        201 => "Aacute",
        202 => "Edieresis",
        203 => "Egrave",
        204 => "Iacute",
        205 => "Icircumflex",
        206 => "Idieresis",
        207 => "Igrave",
        208 => "Oacute",
        209 => "Ocircumflex",
        210 => "apple",
        211 => "Ograve",
        212 => "Uacute",
        213 => "Ucircumflex",
        214 => "Ugrave",
        215 => "dotlessi",
        216 => "circumflex",
        217 => "tilde",
        218 => "macron",
        219 => "breve",
        220 => "dotaccent",
        221 => "ring",
        222 => "cedilla",
        223 => "hungarumlaut",
        224 => "ogonek",
        225 => "caron",
        226 => "Lslash",
        227 => "lslash",
        228 => "Scaron",
        229 => "scaron",
        230 => "Zcaron",
        231 => "zcaron",
        232 => "brokenbar",
        233 => "Eth",
        234 => "eth",
        235 => "Yacute",
        236 => "yacute",
        237 => "Thorn",
        238 => "thorn",
        239 => "minus",
        240 => "multiply",
        241 => "onesuperior",
        242 => "twosuperior",
        243 => "threesuperior",
        244 => "onehalf",
        245 => "onequarter",
        246 => "threequarters",
        247 => "franc",
        248 => "Gbreve",
        249 => "gbreve",
        250 => "Idotaccent",
        251 => "Scedilla",
        252 => "scedilla",
        253 => "Cacute",
        254 => "cacute",
        255 => "Ccaron",
        256 => "ccaron",
        _ => "dcroat",
    }
}

/// Decodes UTF-8 text.
///
/// Calls `core::str::from_utf8`, which succeeds exactly on valid UTF-8 and
/// then yields the characters the bytes encode.
#[verifier::external_body]
fn str_from_utf8(bytes: &[u8]) -> (r: Option<&str>)
    ensures
        r is Some <==> valid_utf8(bytes@),
        r matches Some(s) ==> s@ == decode_utf8(bytes@),
{
    core::str::from_utf8(bytes).ok()
}

/// The bytes of Pascal string `index` of the string list `d`, scanning from
/// string `i` at `pos`. The scan stops at the end of the data or after 65535
/// strings; an empty name is an error.
pub open spec fn pascal_name(d: Seq<u8>, pos: int, i: int, index: int) -> Option<Seq<u8>>
    decreases 0xFFFF - i,
{
    if pos < 0 || pos >= d.len() || i >= 0xFFFF {
        None
    } else {
        let len = d[pos] as int;
        if i == index {
            if len == 0 || !in_bounds(d, pos + 1, len) {
                None
            } else {
                Some(d.subrange(pos + 1, pos + 1 + len))
            }
        } else {
            pascal_name(d, pos + 1 + len, i + 1, index)
        }
    }
}

/// A list of glyph names.
#[derive(Clone, Copy, Debug)]
pub struct Names<'a> {
    /// The name index of each glyph, two bytes each.
    pub indexes: &'a [u8],
    /// Number of glyphs.
    pub count: u16,
    /// The Pascal strings of the names past the standard ones.
    pub data: &'a [u8],
}

/// What the name of glyph `g` is: a standard name, given by its characters,
/// or custom name bytes.
pub enum GlyphNameSpec {
    Standard(Seq<char>),
    Custom(Seq<u8>),
}

/// The name `names` gives glyph `g`.
pub open spec fn spec_glyph_name(names: Names, g: u16) -> Option<GlyphNameSpec> {
    match opt_u16_at(names.indexes@, 2 * g) {
        None => None,
        Some(index) => if index < MACINTOSH_NAMES_COUNT {
            Some(GlyphNameSpec::Standard(macintosh_name_spec(index)))
        } else {
            match pascal_name(names.data@, 0, 0, index - MACINTOSH_NAMES_COUNT) {
                Some(b) => Some(GlyphNameSpec::Custom(b)),
                None => None,
            }
        },
    }
}

impl<'a> Names<'a> {
    /// An empty list.
    pub fn empty() -> (r: Names<'a>)
        ensures
            r.indexes@.len() == 0 && r.count == 0 && r.data@.len() == 0,
    {
        Names { indexes: &[], count: 0, data: &[] }
    }

    /// Returns a glyph name by ID. A custom name must be valid UTF-8.
    pub fn get(&self, glyph_id: GlyphId) -> (r: Option<&'a str>)
        ensures
            match spec_glyph_name(*self, glyph_id.0) {
                None => r is None,
                Some(GlyphNameSpec::Standard(s)) => r matches Some(t) && t@ == s,
                Some(GlyphNameSpec::Custom(b)) => if valid_utf8(b) {
                    r matches Some(t) && t@ == decode_utf8(b)
                } else {
                    r is None
                },
            },
    {
        let index = match read_u16_at(self.indexes, 2 * glyph_id.0 as usize) {
            Some(v) => v,
            None => return None,
        };
        // 'If the name index is between 0 and 257, treat the name index
        // as a glyph index in the Macintosh standard order.'
        if index < MACINTOSH_NAMES_COUNT {
            return Some(macintosh_name(index));
        }
        // 'If the name index is between 258 and 65535, then subtract 258 and use that
        // to index into the list of Pascal strings at the end of the table.'
        let index = index - MACINTOSH_NAMES_COUNT;
        let d = self.data;
        let mut pos: usize = 0;
        let mut i: u16 = 0;
        while pos < d.len() && i < 0xFFFF
            invariant
                index < 0xFFFF,
                d@ == self.data@,
                index + MACINTOSH_NAMES_COUNT <= 0xFFFF,
                opt_u16_at(self.indexes@, 2 * glyph_id.0) == Some((index + MACINTOSH_NAMES_COUNT) as u16),
                pascal_name(d@, 0, 0, index as int) == pascal_name(d@, pos as int, i as int, index as int),
            decreases 0xFFFF - i,
        {
            assert(d@.len() == d.len());
            let len = d[pos] as usize;
            if i == index {
                if len == 0 {
                    // An empty name is an error.
                    return None;
                }
                let name = match bytes_at(d, pos + 1, len) {
                    Some(b) => b,
                    None => return None,
                };
                return str_from_utf8(name);
            }
            let next = pos.saturating_add(1 + len);
            assert(pascal_name(d@, pos as int, i as int, index as int)
                == pascal_name(d@, pos + 1 + len, i + 1, index as int));
            proof {
                if next as int != pos + 1 + len {
                    assert(pascal_name(d@, pos + 1 + len, i + 1, index as int) is None);
                    assert(pascal_name(d@, next as int, i + 1, index as int) is None);
                }
            }
            pos = next;
            i = i + 1;
        }
        None
    }

    /// Returns names count.
    pub fn len(&self) -> (r: u16)
        ensures
            r == self.count,
    {
        self.count
    }
}

/// A [PostScript Table](https://docs.microsoft.com/en-us/typography/opentype/spec/post).
#[derive(Clone, Copy, Debug)]
pub struct Table<'a> {
    /// Italic angle in counter-clockwise degrees from the vertical, as a
    /// 16.16 fixed-point number.
    pub italic_angle: i32,
    /// Underline metrics.
    pub underline_metrics: LineMetrics,
    /// Flag that indicates that the font is monospaced.
    pub is_monospaced: bool,
    /// A list of glyph names.
    pub names: Names<'a>,
}

/// A `post` version this parser accepts: 1.0, 2.0, 2.5, 3.0 or 4.0.
pub open spec fn is_known_version(v: u32) -> bool {
    v == 0x00010000 || v == 0x00020000 || v == 0x00025000 || v == 0x00030000 || v == 0x00040000
}

/// The table is long enough, of a known version, and for version 2.0 its
/// glyph name indices fit.
pub open spec fn table_ok(d: Seq<u8>) -> bool {
    &&& d.len() >= TABLE_SIZE
    &&& is_known_version(u32_at(d, 0))
    &&& u32_at(d, 0) == 0x00020000 ==> in_bounds(d, 34, 2 * u16_at(d, 32))
}

impl<'a> Table<'a> {
    /// Parses a table from raw data.
    pub fn parse(data: &'a [u8]) -> (r: Option<Table<'a>>)
        ensures
            r is Some <==> table_ok(data@),
            r matches Some(t) ==> {
                &&& t.italic_angle as int == (if u32_at(data@, 4) >= 0x8000_0000 {
                    u32_at(data@, 4) - 0x1_0000_0000
                } else {
                    u32_at(data@, 4) as int
                })
                &&& t.underline_metrics.position == i16_at(data@, 8)
                &&& t.underline_metrics.thickness == i16_at(data@, 10)
                &&& t.is_monospaced == (u32_at(data@, 12) != 0)
                &&& if u32_at(data@, 0) == 0x00020000 {
                    let count = u16_at(data@, 32);
                    &&& t.names.count == count
                    &&& t.names.indexes@ == data@.subrange(34, 34 + 2 * count)
                    &&& t.names.data@ == data@.subrange(34 + 2 * count, data@.len() as int)
                } else {
                    t.names.count == 0 && t.names.indexes@.len() == 0 && t.names.data@.len() == 0
                }
            },
    {
        if data.len() < TABLE_SIZE {
            return None;
        }
        let version = match read_u32_at(data, 0) {
            Some(v) => v,
            None => return None,
        };
        if !(version == 0x00010000 || version == 0x00020000 || version == 0x00025000
            || version == 0x00030000 || version == 0x00040000) {
            return None;
        }
        let angle = match read_u32_at(data, ITALIC_ANGLE_OFFSET) {
            Some(v) => v,
            None => return None,
        };
        let italic_angle: i32 = if angle >= 0x8000_0000 {
            (angle as i64 - 0x1_0000_0000) as i32
        } else {
            angle as i32
        };
        let position = match read_i16_at(data, UNDERLINE_POSITION_OFFSET) {
            Some(v) => v,
            None => return None,
        };
        let thickness = match read_i16_at(data, UNDERLINE_THICKNESS_OFFSET) {
            Some(v) => v,
            None => return None,
        };
        let fixed_pitch = match read_u32_at(data, IS_FIXED_PITCH_OFFSET) {
            Some(v) => v,
            None => return None,
        };
        let mut names = Names::empty();
        // Only version 2.0 of the table has data at the end.
        if version == 0x00020000 {
            let count = match read_u16_at(data, TABLE_SIZE) {
                Some(v) => v,
                None => return None,
            };
            let indexes = match bytes_at(data, TABLE_SIZE + 2, 2 * count as usize) {
                Some(b) => b,
                None => return None,
            };
            let rest = match tail_from(data, TABLE_SIZE + 2 + 2 * count as usize) {
                Some(b) => b,
                None => return None,
            };
            names = Names { indexes, count, data: rest };
        }
        Some(Table {
            italic_angle,
            underline_metrics: LineMetrics { position, thickness },
            is_monospaced: fixed_pitch != 0,
            names,
        })
    }
}

} // verus!
