//! An [OS/2 and Windows Metrics Table](https://docs.microsoft.com/en-us/typography/opentype/spec/os2)
//! implementation.

pub mod panose;

use vstd::prelude::*;
use crate::LineMetrics;
use crate::parser::{in_bounds, u16_at, i16_at, opt_i16_at, i16_or_zero, u16_or_zero, read_u16_at,
    read_i16_at, Stream};

verus! {

const WEIGHT_CLASS_OFFSET: usize = 4;
const WIDTH_CLASS_OFFSET: usize = 6;
const Y_SUBSCRIPT_X_SIZE_OFFSET: usize = 10;
const Y_SUPERSCRIPT_X_SIZE_OFFSET: usize = 18;
const Y_STRIKEOUT_SIZE_OFFSET: usize = 26;
const Y_STRIKEOUT_POSITION_OFFSET: usize = 28;
const FS_SELECTION_OFFSET: usize = 62;
const TYPO_ASCENDER_OFFSET: usize = 68;
const TYPO_DESCENDER_OFFSET: usize = 70;
const TYPO_LINE_GAP_OFFSET: usize = 72;
const WIN_ASCENT: usize = 74;
const WIN_DESCENT: usize = 76;
const X_HEIGHT_OFFSET: usize = 86;
const CAP_HEIGHT_OFFSET: usize = 88;

/// A font [weight](https://docs.microsoft.com/en-us/typography/opentype/spec/os2#usweightclass).
#[derive(Clone, Copy, PartialEq, Eq, Structural, Debug, Hash)]
pub enum Weight {
    Thin,
    ExtraLight,
    Light,
    Normal,
    Medium,
    SemiBold,
    Bold,
    ExtraBold,
    Black,
    Other(u16),
}

impl Weight {
    pub open spec fn spec_number(self) -> u16 {
        match self {
            Weight::Thin => 100,
            Weight::ExtraLight => 200,
            Weight::Light => 300,
            Weight::Normal => 400,
            Weight::Medium => 500,
            Weight::SemiBold => 600,
            Weight::Bold => 700,
            Weight::ExtraBold => 800,
            Weight::Black => 900,
            Weight::Other(n) => n,
        }
    }

    /// The named weight for the multiples of 100 up to 900, `Other` otherwise.
    pub open spec fn spec_from(value: u16) -> Weight {
        if value == 100 {
            Weight::Thin
        } else if value == 200 {
            Weight::ExtraLight
        } else if value == 300 {
            Weight::Light
        } else if value == 400 {
            Weight::Normal
        } else if value == 500 {
            Weight::Medium
        } else if value == 600 {
            Weight::SemiBold
        } else if value == 700 {
            Weight::Bold
        } else if value == 800 {
            Weight::ExtraBold
        } else if value == 900 {
            Weight::Black
        } else {
            Weight::Other(value)
        }
    }

    /// Returns a numeric representation of a weight.
    pub fn to_number(self) -> (r: u16)
        ensures
            r == self.spec_number(),
    {
        match self {
            Weight::Thin => 100,
            Weight::ExtraLight => 200,
            Weight::Light => 300,
            Weight::Normal => 400,
            Weight::Medium => 500,
            Weight::SemiBold => 600,
            Weight::Bold => 700,
            Weight::ExtraBold => 800,
            Weight::Black => 900,
            Weight::Other(n) => n,
        }
    }

    /// Converts a numeric weight.
    pub fn from(value: u16) -> (r: Weight)
        ensures
            r == Weight::spec_from(value),
            r.spec_number() == value,
    {
        match value {
            100 => Weight::Thin,
            200 => Weight::ExtraLight,
            300 => Weight::Light,
            400 => Weight::Normal,
            500 => Weight::Medium,
            600 => Weight::SemiBold,
            700 => Weight::Bold,
            800 => Weight::ExtraBold,
            900 => Weight::Black,
            _ => Weight::Other(value),
        }
    }
}

impl Default for Weight {
    fn default() -> (r: Weight)
        ensures
            r == Weight::Normal,
    {
        Weight::Normal
    }
}

/// A font [width](https://docs.microsoft.com/en-us/typography/opentype/spec/os2#uswidthclass).
#[derive(Clone, Copy, PartialEq, Eq, Structural, Debug, Hash)]
pub enum Width {
    UltraCondensed,
    ExtraCondensed,
    Condensed,
    SemiCondensed,
    Normal,
    SemiExpanded,
    Expanded,
    ExtraExpanded,
    UltraExpanded,
}

impl Width {
    pub open spec fn spec_number(self) -> u16 {
        match self {
            Width::UltraCondensed => 1,
            Width::ExtraCondensed => 2,
            Width::Condensed => 3,
            Width::SemiCondensed => 4,
            Width::Normal => 5,
            Width::SemiExpanded => 6,
            Width::Expanded => 7,
            Width::ExtraExpanded => 8,
            Width::UltraExpanded => 9,
        }
    }

    /// Returns a numeric representation of a width.
    pub fn to_number(self) -> (r: u16)
        ensures
            r == self.spec_number(),
    {
        match self {
            Width::UltraCondensed => 1,
            Width::ExtraCondensed => 2,
            Width::Condensed => 3,
            Width::SemiCondensed => 4,
            Width::Normal => 5,
            Width::SemiExpanded => 6,
            Width::Expanded => 7,
            Width::ExtraExpanded => 8,
            Width::UltraExpanded => 9,
        }
    }
}

impl Default for Width {
    fn default() -> (r: Width)
        ensures
            r == Width::Normal,
    {
        Width::Normal
    }
}

/// A script metrics used by subscript and superscript.
#[derive(Clone, Copy, PartialEq, Eq, Structural, Debug, Hash)]
pub struct ScriptMetrics {
    /// Horizontal font size.
    pub x_size: i16,
    /// Vertical font size.
    pub y_size: i16,
    /// X offset.
    pub x_offset: i16,
    /// Y offset.
    pub y_offset: i16,
}

/// The [selection flags](https://docs.microsoft.com/en-us/typography/opentype/spec/os2#fsselection).
#[derive(Clone, Copy)]
pub struct SelectionFlags(pub u16);

/// Bit `k` of `v` is set.
pub open spec fn bit(v: u16, pow: int) -> bool {
    (v as int / pow) % 2 == 1
}

impl SelectionFlags {
    pub fn italic(self) -> (r: bool)
        ensures
            r == bit(self.0, 1),
    {
        self.0 % 2 == 1
    }

    pub fn bold(self) -> (r: bool)
        ensures
            r == bit(self.0, 32),
    {
        (self.0 / 32) % 2 == 1
    }

    pub fn regular(self) -> (r: bool)
        ensures
            r == bit(self.0, 64),
    {
        (self.0 / 64) % 2 == 1
    }

    pub fn use_typo_metrics(self) -> (r: bool)
        ensures
            r == bit(self.0, 128),
    {
        (self.0 / 128) % 2 == 1
    }

    pub fn oblique(self) -> (r: bool)
        ensures
            r == bit(self.0, 512),
    {
        (self.0 / 512) % 2 == 1
    }
}

/// The table length each version has: 78, 86, 96 (versions 2 to 4) or 100.
pub open spec fn table_len(version: u16) -> Option<int> {
    if version == 0 {
        Some(78)
    } else if version == 1 {
        Some(86)
    } else if 2 <= version <= 4 {
        Some(96)
    } else if version == 5 {
        Some(100)
    } else {
        None
    }
}

/// An OS/2 table: its version and its bytes.
#[derive(Clone, Copy)]
pub struct Table<'a> {
    pub version: u8,
    pub data: &'a [u8],
}

/// `v` with its sign flipped, wrapping around for the smallest value.
pub open spec fn wrapping_neg(v: i16) -> i16 {
    if v == i16::MIN {
        v
    } else {
        (-v) as i16
    }
}

/// The [usWidthClass](https://docs.microsoft.com/en-us/typography/opentype/spec/os2#uswidthclass)
/// as a width; unknown numbers are `Normal`.
pub open spec fn spec_width(v: u16) -> Width {
    if v == 1 {
        Width::UltraCondensed
    } else if v == 2 {
        Width::ExtraCondensed
    } else if v == 3 {
        Width::Condensed
    } else if v == 4 {
        Width::SemiCondensed
    } else if v == 6 {
        Width::SemiExpanded
    } else if v == 7 {
        Width::Expanded
    } else if v == 8 {
        Width::ExtraExpanded
    } else if v == 9 {
        Width::UltraExpanded
    } else {
        Width::Normal
    }
}

pub open spec fn script_metrics_at(d: Seq<u8>, off: int) -> ScriptMetrics {
    ScriptMetrics {
        x_size: i16_or_zero(d, off),
        y_size: i16_or_zero(d, off + 2),
        x_offset: i16_or_zero(d, off + 4),
        y_offset: i16_or_zero(d, off + 6),
    }
}

fn read_i16_or_zero(data: &[u8], off: usize) -> (r: i16)
    ensures
        r == i16_or_zero(data@, off as int),
{
    match read_i16_at(data, off) {
        Some(v) => v,
        None => 0,
    }
}

fn read_u16_or_zero(data: &[u8], off: usize) -> (r: u16)
    ensures
        r == u16_or_zero(data@, off as int),
{
    match read_u16_at(data, off) {
        Some(v) => v,
        None => 0,
    }
}

impl<'a> Table<'a> {
    /// Parses a table: its length must be the one of its version.
    pub fn parse(data: &'a [u8]) -> (r: Option<Table<'a>>)
        ensures
            r is Some <==> in_bounds(data@, 0, 2) && table_len(u16_at(data@, 0)) == Some(data@.len() as int),
            r matches Some(t) ==> t.data == data && t.version == u16_at(data@, 0),
    {
        let mut s = Stream::new(data);
        let version = match s.read_u16() {
            Some(v) => v,
            None => return None,
        };
        let table_len: usize = match version {
            0 => 78,
            1 => 86,
            2 => 96,
            3 => 96,
            4 => 96,
            5 => 100,
            _ => return None,
        };
        if data.len() != table_len {
            return None;
        }
        Some(Table { version: version as u8, data })
    }

    /// The weight class.
    pub fn weight(&self) -> (r: Weight)
        ensures
            r == Weight::spec_from(u16_or_zero(self.data@, 4)),
    {
        Weight::from(read_u16_or_zero(self.data, WEIGHT_CLASS_OFFSET))
    }

    /// The width class.
    pub fn width(&self) -> (r: Width)
        ensures
            r == spec_width(u16_or_zero(self.data@, 6)),
    {
        match read_u16_or_zero(self.data, WIDTH_CLASS_OFFSET) {
            1 => Width::UltraCondensed,
            2 => Width::ExtraCondensed,
            3 => Width::Condensed,
            4 => Width::SemiCondensed,
            5 => Width::Normal,
            6 => Width::SemiExpanded,
            7 => Width::Expanded,
            8 => Width::ExtraExpanded,
            9 => Width::UltraExpanded,
            _ => Width::Normal,
        }
    }

    /// Subscript size and offset.
    pub fn subscript_metrics(&self) -> (r: ScriptMetrics)
        ensures
            r == script_metrics_at(self.data@, 10),
    {
        ScriptMetrics {
            x_size: read_i16_or_zero(self.data, Y_SUBSCRIPT_X_SIZE_OFFSET),
            y_size: read_i16_or_zero(self.data, Y_SUBSCRIPT_X_SIZE_OFFSET + 2),
            x_offset: read_i16_or_zero(self.data, Y_SUBSCRIPT_X_SIZE_OFFSET + 4),
            y_offset: read_i16_or_zero(self.data, Y_SUBSCRIPT_X_SIZE_OFFSET + 6),
        }
    }

    /// Superscript size and offset.
    pub fn superscript_metrics(&self) -> (r: ScriptMetrics)
        ensures
            r == script_metrics_at(self.data@, 18),
    {
        ScriptMetrics {
            x_size: read_i16_or_zero(self.data, Y_SUPERSCRIPT_X_SIZE_OFFSET),
            y_size: read_i16_or_zero(self.data, Y_SUPERSCRIPT_X_SIZE_OFFSET + 2),
            x_offset: read_i16_or_zero(self.data, Y_SUPERSCRIPT_X_SIZE_OFFSET + 4),
            y_offset: read_i16_or_zero(self.data, Y_SUPERSCRIPT_X_SIZE_OFFSET + 6),
        }
    }

    /// Strikeout thickness and position.
    pub fn strikeout_metrics(&self) -> (r: LineMetrics)
        ensures
            r.thickness == i16_or_zero(self.data@, 26),
            r.position == i16_or_zero(self.data@, 28),
    {
        LineMetrics {
            thickness: read_i16_or_zero(self.data, Y_STRIKEOUT_SIZE_OFFSET),
            position: read_i16_or_zero(self.data, Y_STRIKEOUT_POSITION_OFFSET),
        }
    }

    fn fs_selection(&self) -> (r: u16)
        ensures
            r == u16_or_zero(self.data@, 62),
    {
        read_u16_or_zero(self.data, FS_SELECTION_OFFSET)
    }

    pub fn is_regular(&self) -> (r: bool)
        ensures
            r == bit(u16_or_zero(self.data@, 62), 64),
    {
        SelectionFlags(self.fs_selection()).regular()
    }

    pub fn is_italic(&self) -> (r: bool)
        ensures
            r == bit(u16_or_zero(self.data@, 62), 1),
    {
        SelectionFlags(self.fs_selection()).italic()
    }

    pub fn is_bold(&self) -> (r: bool)
        ensures
            r == bit(u16_or_zero(self.data@, 62), 32),
    {
        SelectionFlags(self.fs_selection()).bold()
    }

    /// The oblique flag exists from version 4 on.
    pub fn is_oblique(&self) -> (r: bool)
        ensures
            r == (self.version >= 4 && bit(u16_or_zero(self.data@, 62), 512)),
    {
        if self.version < 4 {
            false
        } else {
            SelectionFlags(self.fs_selection()).oblique()
        }
    }

    /// The typographic metrics flag exists from version 4 on.
    pub fn is_use_typo_metrics(&self) -> (r: bool)
        ensures
            r == (self.version >= 4 && bit(u16_or_zero(self.data@, 62), 128)),
    {
        if self.version < 4 {
            false
        } else {
            SelectionFlags(self.fs_selection()).use_typo_metrics()
        }
    }

    pub fn typo_ascender(&self) -> (r: i16)
        ensures
            r == i16_or_zero(self.data@, 68),
    {
        read_i16_or_zero(self.data, TYPO_ASCENDER_OFFSET)
    }

    pub fn typo_descender(&self) -> (r: i16)
        ensures
            r == i16_or_zero(self.data@, 70),
    {
        read_i16_or_zero(self.data, TYPO_DESCENDER_OFFSET)
    }

    pub fn typo_line_gap(&self) -> (r: i16)
        ensures
            r == i16_or_zero(self.data@, 72),
    {
        read_i16_or_zero(self.data, TYPO_LINE_GAP_OFFSET)
    }

    pub fn windows_ascender(&self) -> (r: i16)
        ensures
            r == i16_or_zero(self.data@, 74),
    {
        read_i16_or_zero(self.data, WIN_ASCENT)
    }

    /// The Windows descent, negated (it is stored as a positive number).
    pub fn windows_descender(&self) -> (r: i16)
        ensures
            r == wrapping_neg(i16_or_zero(self.data@, 76)),
    {
        let v = read_i16_or_zero(self.data, WIN_DESCENT);
        if v == i16::MIN {
            v
        } else {
            -v
        }
    }

    /// The x height, from version 2 on.
    pub fn x_height(&self) -> (r: Option<i16>)
        ensures
            r == (if self.version < 2 { None } else { opt_i16_at(self.data@, 86) }),
    {
        if self.version < 2 {
            None
        } else {
            read_i16_at(self.data, X_HEIGHT_OFFSET)
        }
    }

    /// The cap height, from version 2 on.
    pub fn cap_height(&self) -> (r: Option<i16>)
        ensures
            r == (if self.version < 2 { None } else { opt_i16_at(self.data@, 88) }),
    {
        if self.version < 2 {
            None
        } else {
            read_i16_at(self.data, CAP_HEIGHT_OFFSET)
        }
    }
}

} // verus!
