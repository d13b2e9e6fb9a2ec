//! A [MATH Table](https://docs.microsoft.com/en-us/typography/opentype/spec/math) implementation.

use vstd::prelude::*;
use crate::GlyphId;
use crate::opentype_layout::{Coverage, coverage_ok, coverage_index};
use crate::parser::{
    in_bounds, u16_at, i16_at, i16_or_zero, u16_or_zero, at_offset16,
    read_u16_at, read_i16_at, read_at_offset16, tail_from, bytes_at,
};

verus! {

/// A device table, carried as the bytes its offset points to.
#[derive(Clone, Copy, Debug)]
pub struct Device<'a> {
    /// The bytes from the start of the device table to the end of the parent table.
    pub data: &'a [u8],
}

/// The device table that a 16-bit offset into `parent` designates: none for a
/// null offset or one past the end of the parent.
pub open spec fn device_of(parent: Seq<u8>, offset: u16) -> Option<Seq<u8>> {
    if offset == 0 || offset > parent.len() {
        None
    } else {
        Some(parent.subrange(offset as int, parent.len() as int))
    }
}

/// The bytes of a device table, if there is one.
pub open spec fn device_view<'a>(d: Option<Device<'a>>) -> Option<Seq<u8>> {
    match d {
        Some(x) => Some(x.data@),
        None => None,
    }
}

/// A [MathValueRecord](https://docs.microsoft.com/en-us/typography/opentype/spec/math#mathvaluerecord).
#[derive(Clone, Copy, Debug)]
pub struct MathValueRecord<'a> {
    /// The X or Y value in design units.
    pub value: i16,
    /// Device corrections for this value.
    pub device_correction: Option<Device<'a>>,
}

impl<'a> View for MathValueRecord<'a> {
    type V = (i16, Option<Seq<u8>>);

    open spec fn view(&self) -> (i16, Option<Seq<u8>>) {
        (self.value, device_view(self.device_correction))
    }
}

/// The record stored at `pos` of `d`, its device offset resolved against `parent`.
pub open spec fn record_at(d: Seq<u8>, pos: int, parent: Seq<u8>) -> Option<(i16, Option<Seq<u8>>)> {
    if in_bounds(d, pos, 4) {
        Some((i16_at(d, pos), device_of(parent, u16_at(d, pos + 2))))
    } else {
        None
    }
}

/// The record at `pos` of `d`, or a zero value without device table.
pub open spec fn record_or_zero(d: Seq<u8>, pos: int) -> (i16, Option<Seq<u8>>) {
    match record_at(d, pos, d) {
        Some(v) => v,
        None => (0, None),
    }
}

pub open spec fn opt_record_view<'a>(r: Option<MathValueRecord<'a>>) -> Option<(i16, Option<Seq<u8>>)> {
    match r {
        Some(v) => Some(v@),
        None => None,
    }
}

fn device_at<'a>(parent: &'a [u8], offset: u16) -> (r: Option<Device<'a>>)
    ensures
        device_view(r) == device_of(parent@, offset),
{
    if offset == 0 {
        return None;
    }
    match tail_from(parent, offset as usize) {
        Some(t) => Some(Device { data: t }),
        None => None,
    }
}

/// Reads the record at `pos` of `d`; its device offset is relative to `parent`.
fn read_record<'a>(d: &[u8], pos: usize, parent: &'a [u8]) -> (r: Option<MathValueRecord<'a>>)
    ensures
        opt_record_view(r) == record_at(d@, pos as int, parent@),
{
    let value = match read_i16_at(d, pos) {
        Some(v) => v,
        None => return None,
    };
    assert(d@.len() == d.len());
    let offset = match read_u16_at(d, pos + 2) {
        Some(v) => v,
        None => return None,
    };
    Some(MathValueRecord { value, device_correction: device_at(parent, offset) })
}

/// Constants for math positioning.
#[derive(Clone, Copy, Debug)]
pub struct MathConstants<'a> {
    /// The bytes of the MathConstants table.
    pub data: &'a [u8],
}

pub const SCRIPT_PERCENT_SCALE_DOWN_OFFSET: usize = 0;
pub const SCRIPT_SCRIPT_PERCENT_SCALE_DOWN_OFFSET: usize = 2;
pub const DELIMITED_SUB_FORMULA_MIN_HEIGHT_OFFSET: usize = 4;
pub const DISPLAY_OPERATOR_MIN_HEIGHT_OFFSET: usize = 6;
pub const MATH_LEADING_OFFSET: usize = 8;
pub const AXIS_HEIGHT_OFFSET: usize = 12;
pub const ACCENT_BASE_HEIGHT_OFFSET: usize = 16;
pub const FLATTENED_ACCENT_BASE_HEIGHT_OFFSET: usize = 20;
pub const SUBSCRIPT_SHIFT_DOWN_OFFSET: usize = 24;
pub const SUBSCRIPT_TOP_MAX_OFFSET: usize = 28;
pub const SUBSCRIPT_BASELINE_DROP_MIN_OFFSET: usize = 32;
pub const SUPERSCRIPT_SHIFT_UP_OFFSET: usize = 36;
pub const SUPERSCRIPT_SHIFT_UP_CRAMPED_OFFSET: usize = 40;
pub const SUPERSCRIPT_BOTTOM_MIN_OFFSET: usize = 44;
pub const SUPERSCRIPT_BASELINE_DROP_MAX_OFFSET: usize = 48;
pub const SUB_SUPERSCRIPT_GAP_MIN_OFFSET: usize = 52;
pub const SUPERSCRIPT_BOTTOM_MAX_WITH_SUBSCRIPT_OFFSET: usize = 56;
pub const SPACE_AFTER_SCRIPT_OFFSET: usize = 60;
pub const UPPER_LIMIT_GAP_MIN_OFFSET: usize = 64;
pub const UPPER_LIMIT_BASELINE_RISE_MIN_OFFSET: usize = 68;
pub const LOWER_LIMIT_GAP_MIN_OFFSET: usize = 72;
pub const LOWER_LIMIT_BASELINE_DROP_MIN_OFFSET: usize = 76;
pub const STACK_TOP_SHIFT_UP_OFFSET: usize = 80;
pub const STACK_TOP_DISPLAY_STYLE_SHIFT_UP_OFFSET: usize = 84;
pub const STACK_BOTTOM_SHIFT_DOWN_OFFSET: usize = 88;
pub const STACK_BOTTOM_DISPLAY_STYLE_SHIFT_DOWN_OFFSET: usize = 92;
pub const STACK_GAP_MIN_OFFSET: usize = 96;
pub const STACK_DISPLAY_STYLE_GAP_MIN_OFFSET: usize = 100;
pub const STRETCH_STACK_TOP_SHIFT_UP_OFFSET: usize = 104;
pub const STRETCH_STACK_BOTTOM_SHIFT_DOWN_OFFSET: usize = 108;
pub const STRETCH_STACK_GAP_ABOVE_MIN_OFFSET: usize = 112;
pub const STRETCH_STACK_GAP_BELOW_MIN_OFFSET: usize = 116;
pub const FRACTION_NUMERATOR_SHIFT_UP_OFFSET: usize = 120;
pub const FRACTION_NUMERATOR_DISPLAY_STYLE_SHIFT_UP_OFFSET: usize = 124;
pub const FRACTION_DENOMINATOR_SHIFT_DOWN_OFFSET: usize = 128;
pub const FRACTION_DENOMINATOR_DISPLAY_STYLE_SHIFT_DOWN_OFFSET: usize = 132;
pub const FRACTION_NUMERATOR_GAP_MIN_OFFSET: usize = 136;
pub const FRACTION_NUM_DISPLAY_STYLE_GAP_MIN_OFFSET: usize = 140;
pub const FRACTION_RULE_THICKNESS_OFFSET: usize = 144;
pub const FRACTION_DENOMINATOR_GAP_MIN_OFFSET: usize = 148;
pub const FRACTION_DENOM_DISPLAY_STYLE_GAP_MIN_OFFSET: usize = 152;
pub const SKEWED_FRACTION_HORIZONTAL_GAP_OFFSET: usize = 156;
pub const SKEWED_FRACTION_VERTICAL_GAP_OFFSET: usize = 160;
pub const OVERBAR_VERTICAL_GAP_OFFSET: usize = 164;
pub const OVERBAR_RULE_THICKNESS_OFFSET: usize = 168;
pub const OVERBAR_EXTRA_ASCENDER_OFFSET: usize = 172;
pub const UNDERBAR_VERTICAL_GAP_OFFSET: usize = 176;
pub const UNDERBAR_RULE_THICKNESS_OFFSET: usize = 180;
pub const UNDERBAR_EXTRA_DESCENDER_OFFSET: usize = 184;
pub const RADICAL_VERTICAL_GAP_OFFSET: usize = 188;
pub const RADICAL_DISPLAY_STYLE_VERTICAL_GAP_OFFSET: usize = 192;
pub const RADICAL_RULE_THICKNESS_OFFSET: usize = 196;
pub const RADICAL_EXTRA_ASCENDER_OFFSET: usize = 200;
pub const RADICAL_KERN_BEFORE_DEGREE_OFFSET: usize = 204;
pub const RADICAL_KERN_AFTER_DEGREE_OFFSET: usize = 208;
pub const RADICAL_DEGREE_BOTTOM_RAISE_PERCENT_OFFSET: usize = 212;

impl<'a> MathConstants<'a> {
    /// Percentage of scaling down for level 1 superscripts and subscripts. Suggested value: 80%.
    pub fn script_percent_scale_down(&self) -> (r: i16)
        ensures
            r == i16_or_zero(self.data@, SCRIPT_PERCENT_SCALE_DOWN_OFFSET as int),
    {
        match read_i16_at(self.data, SCRIPT_PERCENT_SCALE_DOWN_OFFSET) {
            Some(v) => v,
            None => 0,
        }
    }

    /// Percentage of scaling down for level 2 (scriptScript) superscripts and subscripts.
    /// Suggested value: 60%.
    pub fn script_script_percent_scale_down(&self) -> (r: i16)
        ensures
            r == i16_or_zero(self.data@, SCRIPT_SCRIPT_PERCENT_SCALE_DOWN_OFFSET as int),
    {
        match read_i16_at(self.data, SCRIPT_SCRIPT_PERCENT_SCALE_DOWN_OFFSET) {
            Some(v) => v,
            None => 0,
        }
    }

    /// Minimum height required for a delimited expression (contained within parentheses, etc.) to
    /// be treated as a sub-formula. Suggested value: normal line height × 1.5.
    pub fn delimited_sub_formula_min_height(&self) -> (r: u16)
        ensures
            r == u16_or_zero(self.data@, DELIMITED_SUB_FORMULA_MIN_HEIGHT_OFFSET as int),
    {
        match read_u16_at(self.data, DELIMITED_SUB_FORMULA_MIN_HEIGHT_OFFSET) {
            Some(v) => v,
            None => 0,
        }
    }

    /// Minimum height of n-ary operators (such as integral and summation) for formulas in display
    /// mode (that is, appearing as standalone page elements, not embedded inline within text).
    pub fn display_operator_min_height(&self) -> (r: u16)
        ensures
            r == u16_or_zero(self.data@, DISPLAY_OPERATOR_MIN_HEIGHT_OFFSET as int),
    {
        match read_u16_at(self.data, DISPLAY_OPERATOR_MIN_HEIGHT_OFFSET) {
            Some(v) => v,
            None => 0,
        }
    }

    /// White space to be left between math formulas to ensure proper line spacing. For example,
    /// for applications that treat line gap as a part of line ascender, formulas with ink going
    /// above (os2.sTypoAscender + os2.sTypoLineGap - MathLeading) or with ink going below
    /// os2.sTypoDescender will result in increasing line height.
    pub fn math_leading(&self) -> (r: MathValueRecord<'a>)
        ensures
            r@ == record_or_zero(self.data@, MATH_LEADING_OFFSET as int),
    {
        self.record(MATH_LEADING_OFFSET)
    }

    /// Axis height of the font.
    ///
    /// In math typesetting, the term axis refers to a horizontal reference line used for
    /// positioning elements in a formula. The math axis is similar to but distinct from the
    /// baseline for regular text layout. For example, in a simple equation, a minus symbol or
    /// fraction rule would be on the axis, but a string for a variable name would be set on a
    /// baseline that is offset from the axis. The `axis_height` value determines the amount of
    /// that offset.
    pub fn axis_height(&self) -> (r: MathValueRecord<'a>)
        ensures
            r@ == record_or_zero(self.data@, AXIS_HEIGHT_OFFSET as int),
    {
        self.record(AXIS_HEIGHT_OFFSET)
    }

    /// Maximum (ink) height of accent base that does not require raising the accents. Suggested:
    /// x‑height of the font (os2.sxHeight) plus any possible overshots.
    pub fn accent_base_height(&self) -> (r: MathValueRecord<'a>)
        ensures
            r@ == record_or_zero(self.data@, ACCENT_BASE_HEIGHT_OFFSET as int),
    {
        self.record(ACCENT_BASE_HEIGHT_OFFSET)
    }

    /// Maximum (ink) height of accent base that does not require flattening the accents.
    /// Suggested: cap height of the font (os2.sCapHeight).
    pub fn flattened_accent_base_height(&self) -> (r: MathValueRecord<'a>)
        ensures
            r@ == record_or_zero(self.data@, FLATTENED_ACCENT_BASE_HEIGHT_OFFSET as int),
    {
        self.record(FLATTENED_ACCENT_BASE_HEIGHT_OFFSET)
    }

    /// The standard shift down applied to subscript elements. Positive for moving in the downward
    /// direction. Suggested: os2.ySubscriptYOffset.
    pub fn subscript_shift_down(&self) -> (r: MathValueRecord<'a>)
        ensures
            r@ == record_or_zero(self.data@, SUBSCRIPT_SHIFT_DOWN_OFFSET as int),
    {
        self.record(SUBSCRIPT_SHIFT_DOWN_OFFSET)
    }

    /// Maximum allowed height of the (ink) top of subscripts that does not require moving
    /// subscripts further down. Suggested: 4/5 x-height.
    pub fn subscript_top_max(&self) -> (r: MathValueRecord<'a>)
        ensures
            r@ == record_or_zero(self.data@, SUBSCRIPT_TOP_MAX_OFFSET as int),
    {
        self.record(SUBSCRIPT_TOP_MAX_OFFSET)
    }

    /// Minimum allowed drop of the baseline of subscripts relative to the (ink) bottom of the
    /// base. Checked for bases that are treated as a box or extended shape. Positive for
    /// subscript baseline dropped below the base bottom.
    pub fn subscript_baseline_drop_min(&self) -> (r: MathValueRecord<'a>)
        ensures
            r@ == record_or_zero(self.data@, SUBSCRIPT_BASELINE_DROP_MIN_OFFSET as int),
    {
        self.record(SUBSCRIPT_BASELINE_DROP_MIN_OFFSET)
    }

    /// Standard shift up applied to superscript elements. Suggested: os2.ySuperscriptYOffset.
    pub fn superscript_shift_up(&self) -> (r: MathValueRecord<'a>)
        ensures
            r@ == record_or_zero(self.data@, SUPERSCRIPT_SHIFT_UP_OFFSET as int),
    {
        self.record(SUPERSCRIPT_SHIFT_UP_OFFSET)
    }

    /// Standard shift of superscripts relative to the base, in cramped style.
    pub fn superscript_shift_up_cramped(&self) -> (r: MathValueRecord<'a>)
        ensures
            r@ == record_or_zero(self.data@, SUPERSCRIPT_SHIFT_UP_CRAMPED_OFFSET as int),
    {
        self.record(SUPERSCRIPT_SHIFT_UP_CRAMPED_OFFSET)
    }

    /// Minimum allowed height of the (ink) bottom of superscripts that does not require moving
    /// subscripts further up. Suggested: ¼ x-height.
    pub fn superscript_bottom_min(&self) -> (r: MathValueRecord<'a>)
        ensures
            r@ == record_or_zero(self.data@, SUPERSCRIPT_BOTTOM_MIN_OFFSET as int),
    {
        self.record(SUPERSCRIPT_BOTTOM_MIN_OFFSET)
    }

    /// Maximum allowed drop of the baseline of superscripts relative to the (ink) top of the
    /// base. Checked for bases that are treated as a box or extended shape. Positive for
    /// superscript baseline below the base top.
    pub fn superscript_baseline_drop_max(&self) -> (r: MathValueRecord<'a>)
        ensures
            r@ == record_or_zero(self.data@, SUPERSCRIPT_BASELINE_DROP_MAX_OFFSET as int),
    {
        self.record(SUPERSCRIPT_BASELINE_DROP_MAX_OFFSET)
    }

    /// Minimum gap between the superscript and subscript ink. Suggested: 4 × default rule
    /// thickness.
    pub fn sub_superscript_gap_min(&self) -> (r: MathValueRecord<'a>)
        ensures
            r@ == record_or_zero(self.data@, SUB_SUPERSCRIPT_GAP_MIN_OFFSET as int),
    {
        self.record(SUB_SUPERSCRIPT_GAP_MIN_OFFSET)
    }

    /// The maximum level to which the (ink) bottom of superscript can be pushed to increase the
    /// gap between superscript and subscript, before subscript starts being moved down.
    /// Suggested: 4/5 x-height.
    pub fn superscript_bottom_max_with_subscript(&self) -> (r: MathValueRecord<'a>)
        ensures
            r@ == record_or_zero(self.data@, SUPERSCRIPT_BOTTOM_MAX_WITH_SUBSCRIPT_OFFSET as int),
    {
        self.record(SUPERSCRIPT_BOTTOM_MAX_WITH_SUBSCRIPT_OFFSET)
    }

    /// Extra white space to be added after each subscript and superscript. Suggested: 0.5 pt for
    /// a 12 pt font. (Note that, in some math layout implementations, a constant value, such as
    /// 0.5 pt, may be used for all text sizes. Some implementations may use a constant ratio of
    /// text size, such as 1/24 of em.)
    pub fn space_after_script(&self) -> (r: MathValueRecord<'a>)
        ensures
            r@ == record_or_zero(self.data@, SPACE_AFTER_SCRIPT_OFFSET as int),
    {
        self.record(SPACE_AFTER_SCRIPT_OFFSET)
    }

    /// Minimum gap between the (ink) bottom of the upper limit, and the (ink) top of the base
    /// operator.
    pub fn upper_limit_gap_min(&self) -> (r: MathValueRecord<'a>)
        ensures
            r@ == record_or_zero(self.data@, UPPER_LIMIT_GAP_MIN_OFFSET as int),
    {
        self.record(UPPER_LIMIT_GAP_MIN_OFFSET)
    }

    /// Minimum distance between baseline of upper limit and (ink) top of the base operator.
    pub fn upper_limit_baseline_rise_min(&self) -> (r: MathValueRecord<'a>)
        ensures
            r@ == record_or_zero(self.data@, UPPER_LIMIT_BASELINE_RISE_MIN_OFFSET as int),
    {
        self.record(UPPER_LIMIT_BASELINE_RISE_MIN_OFFSET)
    }

    /// Minimum gap between (ink) top of the lower limit, and (ink) bottom of the base operator.
    pub fn lower_limit_gap_min(&self) -> (r: MathValueRecord<'a>)
        ensures
            r@ == record_or_zero(self.data@, LOWER_LIMIT_GAP_MIN_OFFSET as int),
    {
        self.record(LOWER_LIMIT_GAP_MIN_OFFSET)
    }

    /// Minimum distance between baseline of the lower limit and (ink) bottom of the base
    /// operator.
    pub fn lower_limit_baseline_drop_min(&self) -> (r: MathValueRecord<'a>)
        ensures
            r@ == record_or_zero(self.data@, LOWER_LIMIT_BASELINE_DROP_MIN_OFFSET as int),
    {
        self.record(LOWER_LIMIT_BASELINE_DROP_MIN_OFFSET)
    }

    /// Standard shift up applied to the top element of a stack.
    pub fn stack_top_shift_up(&self) -> (r: MathValueRecord<'a>)
        ensures
            r@ == record_or_zero(self.data@, STACK_TOP_SHIFT_UP_OFFSET as int),
    {
        self.record(STACK_TOP_SHIFT_UP_OFFSET)
    }

    /// Standard shift up applied to the top element of a stack in display style.
    pub fn stack_top_display_style_shift_up(&self) -> (r: MathValueRecord<'a>)
        ensures
            r@ == record_or_zero(self.data@, STACK_TOP_DISPLAY_STYLE_SHIFT_UP_OFFSET as int),
    {
        self.record(STACK_TOP_DISPLAY_STYLE_SHIFT_UP_OFFSET)
    }

    /// Standard shift down applied to the bottom element of a stack. Positive for moving in the
    /// downward direction.
    pub fn stack_bottom_shift_down(&self) -> (r: MathValueRecord<'a>)
        ensures
            r@ == record_or_zero(self.data@, STACK_BOTTOM_SHIFT_DOWN_OFFSET as int),
    {
        self.record(STACK_BOTTOM_SHIFT_DOWN_OFFSET)
    }

    /// Standard shift down applied to the bottom element of a stack in display style. Positive
    /// for moving in the downward direction.
    pub fn stack_bottom_display_style_shift_down(&self) -> (r: MathValueRecord<'a>)
        ensures
            r@ == record_or_zero(self.data@, STACK_BOTTOM_DISPLAY_STYLE_SHIFT_DOWN_OFFSET as int),
    {
        self.record(STACK_BOTTOM_DISPLAY_STYLE_SHIFT_DOWN_OFFSET)
    }

    /// Minimum gap between (ink) bottom of the top element of a stack, and the (ink) top of the
    /// bottom element. Suggested: 3 × default rule thickness.
    pub fn stack_gap_min(&self) -> (r: MathValueRecord<'a>)
        ensures
            r@ == record_or_zero(self.data@, STACK_GAP_MIN_OFFSET as int),
    {
        self.record(STACK_GAP_MIN_OFFSET)
    }

    /// Minimum gap between (ink) bottom of the top element of a stack, and the (ink) top of the
    /// bottom element in display style. Suggested: 7 × default rule thickness.
    pub fn stack_display_style_gap_min(&self) -> (r: MathValueRecord<'a>)
        ensures
            r@ == record_or_zero(self.data@, STACK_DISPLAY_STYLE_GAP_MIN_OFFSET as int),
    {
        self.record(STACK_DISPLAY_STYLE_GAP_MIN_OFFSET)
    }

    /// Standard shift up applied to the top element of the stretch stack.
    pub fn stretch_stack_top_shift_up(&self) -> (r: MathValueRecord<'a>)
        ensures
            r@ == record_or_zero(self.data@, STRETCH_STACK_TOP_SHIFT_UP_OFFSET as int),
    {
        self.record(STRETCH_STACK_TOP_SHIFT_UP_OFFSET)
    }

    /// Standard shift down applied to the bottom element of the stretch stack. Positive for
    /// moving in the downward direction.
    pub fn stretch_stack_bottom_shift_down(&self) -> (r: MathValueRecord<'a>)
        ensures
            r@ == record_or_zero(self.data@, STRETCH_STACK_BOTTOM_SHIFT_DOWN_OFFSET as int),
    {
        self.record(STRETCH_STACK_BOTTOM_SHIFT_DOWN_OFFSET)
    }

    /// Minimum gap between the ink of the stretched element, and the (ink) bottom of the element
    /// above. Suggested: same value as [`MathConstants::upper_limit_gap_min`].
    pub fn stretch_stack_gap_above_min(&self) -> (r: MathValueRecord<'a>)
        ensures
            r@ == record_or_zero(self.data@, STRETCH_STACK_GAP_ABOVE_MIN_OFFSET as int),
    {
        self.record(STRETCH_STACK_GAP_ABOVE_MIN_OFFSET)
    }

    /// Minimum gap between the ink of the stretched element, and the (ink) top of the element
    /// below. Suggested: same value as [`MathConstants::lower_limit_gap_min`].
    pub fn stretch_stack_gap_below_min(&self) -> (r: MathValueRecord<'a>)
        ensures
            r@ == record_or_zero(self.data@, STRETCH_STACK_GAP_BELOW_MIN_OFFSET as int),
    {
        self.record(STRETCH_STACK_GAP_BELOW_MIN_OFFSET)
    }

    /// Standard shift up applied to the numerator.
    pub fn fraction_numerator_shift_up(&self) -> (r: MathValueRecord<'a>)
        ensures
            r@ == record_or_zero(self.data@, FRACTION_NUMERATOR_SHIFT_UP_OFFSET as int),
    {
        self.record(FRACTION_NUMERATOR_SHIFT_UP_OFFSET)
    }

    /// Standard shift up applied to the numerator in display style. Suggested: same value as
    /// [`MathConstants::stack_top_display_style_shift_up`].
    pub fn fraction_numerator_display_style_shift_up(&self) -> (r: MathValueRecord<'a>)
        ensures
            r@ == record_or_zero(self.data@, FRACTION_NUMERATOR_DISPLAY_STYLE_SHIFT_UP_OFFSET as int),
    {
        self.record(FRACTION_NUMERATOR_DISPLAY_STYLE_SHIFT_UP_OFFSET)
    }

    /// Standard shift down applied to the denominator. Positive for moving in the downward direction.
    pub fn fraction_denominator_shift_down(&self) -> (r: MathValueRecord<'a>)
        ensures
            r@ == record_or_zero(self.data@, FRACTION_DENOMINATOR_SHIFT_DOWN_OFFSET as int),
    {
        self.record(FRACTION_DENOMINATOR_SHIFT_DOWN_OFFSET)
    }

    /// Standard shift down applied to the denominator in display style. Positive for moving in the
    /// downward direction. Suggested: same value as [`MathConstants::stack_bottom_display_style_shift_down`].
    pub fn fraction_denominator_display_style_shift_down(&self) -> (r: MathValueRecord<'a>)
        ensures
            r@ == record_or_zero(self.data@, FRACTION_DENOMINATOR_DISPLAY_STYLE_SHIFT_DOWN_OFFSET as int),
    {
        self.record(FRACTION_DENOMINATOR_DISPLAY_STYLE_SHIFT_DOWN_OFFSET)
    }

    /// Minimum tolerated gap between the (ink) bottom of the numerator and the ink of the
    /// fraction bar. Suggested: default rule thickness.
    pub fn fraction_numerator_gap_min(&self) -> (r: MathValueRecord<'a>)
        ensures
            r@ == record_or_zero(self.data@, FRACTION_NUMERATOR_GAP_MIN_OFFSET as int),
    {
        self.record(FRACTION_NUMERATOR_GAP_MIN_OFFSET)
    }

    /// Minimum tolerated gap between the (ink) bottom of the numerator and the ink of the
    /// fraction bar in display style. Suggested: 3 × default rule thickness.
    pub fn fraction_num_display_style_gap_min(&self) -> (r: MathValueRecord<'a>)
        ensures
            r@ == record_or_zero(self.data@, FRACTION_NUM_DISPLAY_STYLE_GAP_MIN_OFFSET as int),
    {
        self.record(FRACTION_NUM_DISPLAY_STYLE_GAP_MIN_OFFSET)
    }

    /// Thickness of the fraction bar. Suggested: default rule thickness.
    pub fn fraction_rule_thickness(&self) -> (r: MathValueRecord<'a>)
        ensures
            r@ == record_or_zero(self.data@, FRACTION_RULE_THICKNESS_OFFSET as int),
    {
        self.record(FRACTION_RULE_THICKNESS_OFFSET)
    }

    /// Minimum tolerated gap between the (ink) top of the denominator and the ink of the fraction
    /// bar. Suggested: default rule thickness.
    pub fn fraction_denominator_gap_min(&self) -> (r: MathValueRecord<'a>)
        ensures
            r@ == record_or_zero(self.data@, FRACTION_DENOMINATOR_GAP_MIN_OFFSET as int),
    {
        self.record(FRACTION_DENOMINATOR_GAP_MIN_OFFSET)
    }

    /// Minimum tolerated gap between the (ink) top of the denominator and the ink of the fraction
    /// bar in display style. Suggested: 3 × default rule thickness.
    pub fn fraction_denom_display_style_gap_min(&self) -> (r: MathValueRecord<'a>)
        ensures
            r@ == record_or_zero(self.data@, FRACTION_DENOM_DISPLAY_STYLE_GAP_MIN_OFFSET as int),
    {
        self.record(FRACTION_DENOM_DISPLAY_STYLE_GAP_MIN_OFFSET)
    }

    /// Horizontal distance between the top and bottom elements of a skewed fraction.
    pub fn skewed_fraction_horizontal_gap(&self) -> (r: MathValueRecord<'a>)
        ensures
            r@ == record_or_zero(self.data@, SKEWED_FRACTION_HORIZONTAL_GAP_OFFSET as int),
    {
        self.record(SKEWED_FRACTION_HORIZONTAL_GAP_OFFSET)
    }

    /// Vertical distance between the ink of the top and bottom elements of a skewed fraction.
    pub fn skewed_fraction_vertical_gap(&self) -> (r: MathValueRecord<'a>)
        ensures
            r@ == record_or_zero(self.data@, SKEWED_FRACTION_VERTICAL_GAP_OFFSET as int),
    {
        self.record(SKEWED_FRACTION_VERTICAL_GAP_OFFSET)
    }

    /// Distance between the overbar and the (ink) top of he base. Suggested: 3 × default rule
    /// thickness.
    pub fn overbar_vertical_gap(&self) -> (r: MathValueRecord<'a>)
        ensures
            r@ == record_or_zero(self.data@, OVERBAR_VERTICAL_GAP_OFFSET as int),
    {
        self.record(OVERBAR_VERTICAL_GAP_OFFSET)
    }

    /// Thickness of overbar. Suggested: default rule thickness.
    pub fn overbar_rule_thickness(&self) -> (r: MathValueRecord<'a>)
        ensures
            r@ == record_or_zero(self.data@, OVERBAR_RULE_THICKNESS_OFFSET as int),
    {
        self.record(OVERBAR_RULE_THICKNESS_OFFSET)
    }

    /// Extra white space reserved above the overbar. Suggested: default rule thickness.
    pub fn overbar_extra_ascender(&self) -> (r: MathValueRecord<'a>)
        ensures
            r@ == record_or_zero(self.data@, OVERBAR_EXTRA_ASCENDER_OFFSET as int),
    {
        self.record(OVERBAR_EXTRA_ASCENDER_OFFSET)
    }

    /// Distance between underbar and (ink) bottom of the base. Suggested: 3 × default rule
    /// thickness.
    pub fn underbar_vertical_gap(&self) -> (r: MathValueRecord<'a>)
        ensures
            r@ == record_or_zero(self.data@, UNDERBAR_VERTICAL_GAP_OFFSET as int),
    {
        self.record(UNDERBAR_VERTICAL_GAP_OFFSET)
    }

    /// Thickness of underbar. Suggested: default rule thickness.
    pub fn underbar_rule_thickness(&self) -> (r: MathValueRecord<'a>)
        ensures
            r@ == record_or_zero(self.data@, UNDERBAR_RULE_THICKNESS_OFFSET as int),
    {
        self.record(UNDERBAR_RULE_THICKNESS_OFFSET)
    }

    /// Extra white space reserved below the underbar. Always positive. Suggested: default rule
    /// thickness.
    pub fn underbar_extra_descender(&self) -> (r: MathValueRecord<'a>)
        ensures
            r@ == record_or_zero(self.data@, UNDERBAR_EXTRA_DESCENDER_OFFSET as int),
    {
        self.record(UNDERBAR_EXTRA_DESCENDER_OFFSET)
    }

    /// Space between the (ink) top of the expression and the bar over it. Suggested: 1¼ default
    /// rule thickness.
    pub fn radical_vertical_gap(&self) -> (r: MathValueRecord<'a>)
        ensures
            r@ == record_or_zero(self.data@, RADICAL_VERTICAL_GAP_OFFSET as int),
    {
        self.record(RADICAL_VERTICAL_GAP_OFFSET)
    }

    /// Space between the (ink) top of the expression and the bar over it. Suggested: default rule
    /// thickness + ¼ x-height.
    pub fn radical_display_style_vertical_gap(&self) -> (r: MathValueRecord<'a>)
        ensures
            r@ == record_or_zero(self.data@, RADICAL_DISPLAY_STYLE_VERTICAL_GAP_OFFSET as int),
    {
        self.record(RADICAL_DISPLAY_STYLE_VERTICAL_GAP_OFFSET)
    }

    /// Thickness of the radical rule. This is the thickness of the rule in designed or
    /// constructed radical signs. Suggested: default rule thickness.
    pub fn radical_rule_thickness(&self) -> (r: MathValueRecord<'a>)
        ensures
            r@ == record_or_zero(self.data@, RADICAL_RULE_THICKNESS_OFFSET as int),
    {
        self.record(RADICAL_RULE_THICKNESS_OFFSET)
    }

    /// Extra white space reserved above the radical. Suggested: same value as
    /// [`MathConstants::radical_rule_thickness`].
    pub fn radical_extra_ascender(&self) -> (r: MathValueRecord<'a>)
        ensures
            r@ == record_or_zero(self.data@, RADICAL_EXTRA_ASCENDER_OFFSET as int),
    {
        self.record(RADICAL_EXTRA_ASCENDER_OFFSET)
    }

    /// Extra horizontal kern before the degree of a radical, if such is present. Suggested: 5/18
    /// of em.
    pub fn radical_kern_before_degree(&self) -> (r: MathValueRecord<'a>)
        ensures
            r@ == record_or_zero(self.data@, RADICAL_KERN_BEFORE_DEGREE_OFFSET as int),
    {
        self.record(RADICAL_KERN_BEFORE_DEGREE_OFFSET)
    }

    /// Negative kern after the degree of a radical, if such is present. Suggested: −10/18 of em.
    pub fn radical_kern_after_degree(&self) -> (r: MathValueRecord<'a>)
        ensures
            r@ == record_or_zero(self.data@, RADICAL_KERN_AFTER_DEGREE_OFFSET as int),
    {
        self.record(RADICAL_KERN_AFTER_DEGREE_OFFSET)
    }

    /// Height of the bottom of the radical degree, if such is present, in proportion to the
    /// ascender of the radical sign. Suggested: 60%.
    pub fn radical_degree_bottom_raise_percent(&self) -> (r: i16)
        ensures
            r == i16_or_zero(self.data@, RADICAL_DEGREE_BOTTOM_RAISE_PERCENT_OFFSET as int),
    {
        match read_i16_at(self.data, RADICAL_DEGREE_BOTTOM_RAISE_PERCENT_OFFSET) {
            Some(v) => v,
            None => 0,
        }
    }

    /// The record at `pos`, or a zero value without device table when it is
    /// not there.
    fn record(&self, pos: usize) -> (r: MathValueRecord<'a>)
        ensures
            r@ == record_or_zero(self.data@, pos as int),
    {
        match read_record(self.data, pos, self.data) {
            Some(v) => v,
            None => MathValueRecord { value: 0, device_correction: None },
        }
    }
}

/// The bytes hold a coverage offset, a record count and that many `size`-byte
/// records, and the offset leads to a valid coverage table.
pub open spec fn covered_ok(d: Seq<u8>, size: int) -> bool {
    &&& at_offset16(d, 0) matches Some(c) && coverage_ok(c)
    &&& in_bounds(d, 2, 2)
    &&& in_bounds(d, 4, size * u16_at(d, 2))
}

/// The records of a coverage-indexed table of `size`-byte records.
pub open spec fn covered_records(d: Seq<u8>, size: int) -> Seq<u8> {
    d.subrange(4, 4 + size * u16_at(d, 2))
}

fn parse_covered_records<'a>(data: &'a [u8], size: usize) -> (r: Option<(Coverage<'a>, &'a [u8])>)
    requires
        size == 4 || size == 8,
    ensures
        r is Some <==> covered_ok(data@, size as int),
        r matches Some((c, e)) ==> at_offset16(data@, 0) == Some(c.data@)
            && e@ == covered_records(data@, size as int),
{
    let cov = match read_at_offset16(data, 0) {
        Some(c) => c,
        None => return None,
    };
    let coverage = match Coverage::parse(cov) {
        Some(c) => c,
        None => return None,
    };
    let count = match read_u16_at(data, 2) {
        Some(v) => v,
        None => return None,
    };
    let entries = match bytes_at(data, 4, size * count as usize) {
        Some(e) => e,
        None => return None,
    };
    Some((coverage, entries))
}

/// Mapping from glyph to values.
#[derive(Clone, Copy, Debug)]
pub struct MathValueTable<'a> {
    /// The glyphs that have a value.
    pub coverage: Coverage<'a>,
    /// The value records, four bytes each, in coverage order.
    pub entries: &'a [u8],
    /// The whole table, which device offsets are relative to.
    pub data: &'a [u8],
}

/// `t` is what parsing the value table `d` gives.
pub open spec fn value_table_is<'a>(t: MathValueTable<'a>, d: Seq<u8>) -> bool {
    &&& at_offset16(d, 0) == Some(t.coverage.data@)
    &&& t.entries@ == covered_records(d, 4)
    &&& t.data@ == d
}

impl<'a> MathValueTable<'a> {
    /// Parses a value table.
    pub fn parse(data: &'a [u8]) -> (r: Option<MathValueTable<'a>>)
        ensures
            r is Some <==> covered_ok(data@, 4),
            r matches Some(t) ==> value_table_is(t, data@),
    {
        match parse_covered_records(data, 4) {
            Some((coverage, entries)) => Some(MathValueTable { coverage, entries, data }),
            None => None,
        }
    }

    /// Checks that glyph is present.
    pub fn contains(&self, glyph: GlyphId) -> (r: bool)
        ensures
            r == coverage_index(self.coverage.data@, glyph.0) is Some,
    {
        self.coverage.contains(glyph)
    }

    /// Returns the [`MathValueRecord`] of the glyph or `None` if it is not covered.
    pub fn get(&self, glyph: GlyphId) -> (r: Option<MathValueRecord<'a>>)
        ensures
            opt_record_view(r) == (match coverage_index(self.coverage.data@, glyph.0) {
                Some(i) => record_at(self.entries@, 4 * i, self.data@),
                None => None,
            }),
    {
        let index = match self.coverage.get(glyph) {
            Some(i) => i,
            None => return None,
        };
        read_record(self.entries, 4 * index as usize, self.data)
    }
}

/// The kern table bytes hold a height count below the 16-bit maximum, that
/// many correction heights and one kern value more.
pub open spec fn kern_ok(d: Seq<u8>) -> bool {
    &&& in_bounds(d, 0, 2)
    &&& u16_at(d, 0) < 0xFFFF
    &&& in_bounds(d, 2, 8 * u16_at(d, 0) + 4)
}

/// The MathKern table provides kerning amounts for different heights in a glyph's vertical extent.
///
/// An array of kerning values is provided, each of which applies to a height range. A
/// corresponding array of heights indicate the transition points between consecutive ranges.
#[derive(Clone, Copy, Debug)]
pub struct MathKern<'a> {
    /// The whole kern table, which device offsets are relative to.
    pub data: &'a [u8],
    /// The correction height records.
    pub correction_height: &'a [u8],
    /// The kern value records.
    pub kern_values: &'a [u8],
    /// Number of correction heights.
    pub heights: u16,
    /// Number of kern values.
    pub kerns: u16,
}

/// `k` is what parsing the kern table `d` gives.
pub open spec fn kern_is<'a>(k: MathKern<'a>, d: Seq<u8>) -> bool {
    let c = u16_at(d, 0);
    &&& k.data@ == d
    &&& k.heights == c
    &&& k.kerns == c + 1
    &&& k.correction_height@ == d.subrange(2, 2 + 4 * c)
    &&& k.kern_values@ == d.subrange(2 + 4 * c, 6 + 8 * c)
}

impl<'a> MathKern<'a> {
    /// Parses a kern table. A table that claims 65535 heights would need a
    /// 65536th kern value, which no 16-bit count can hold: it is refused.
    pub fn parse(data: &'a [u8]) -> (r: Option<MathKern<'a>>)
        ensures
            r is Some <==> kern_ok(data@),
            r matches Some(k) ==> kern_is(k, data@),
    {
        let count = match read_u16_at(data, 0) {
            Some(v) => v,
            None => return None,
        };
        if count == 0xFFFF {
            return None;
        }
        let correction_height = match bytes_at(data, 2, 4 * count as usize) {
            Some(b) => b,
            None => return None,
        };
        let kern_values = match bytes_at(data, 2 + 4 * count as usize, 4 * (count as usize + 1)) {
            Some(b) => b,
            None => return None,
        };
        Some(MathKern { data, correction_height, kern_values, heights: count, kerns: count + 1 })
    }

    /// Number of heights as split points.
    pub fn height_count(&self) -> (r: u16)
        ensures
            r == self.heights,
    {
        self.heights
    }

    /// Number of kern values. It is always greater than number of heights by one.
    pub fn kern_count(&self) -> (r: u16)
        ensures
            r == self.kerns,
    {
        self.kerns
    }

    /// Get the height value at some specific index.
    pub fn get_height(&self, index: u16) -> (r: Option<MathValueRecord<'a>>)
        ensures
            opt_record_view(r) == (if index < self.heights {
                record_at(self.correction_height@, 4 * index, self.data@)
            } else {
                None
            }),
    {
        if index >= self.heights {
            return None;
        }
        read_record(self.correction_height, 4 * index as usize, self.data)
    }

    /// Get the kern value at some specific index.
    pub fn get_kern_value(&self, index: u16) -> (r: Option<MathValueRecord<'a>>)
        ensures
            opt_record_view(r) == (if index < self.kerns {
                record_at(self.kern_values@, 4 * index, self.data@)
            } else {
                None
            }),
    {
        if index >= self.kerns {
            return None;
        }
        read_record(self.kern_values, 4 * index as usize, self.data)
    }
}

/// The kern table that a 16-bit offset into `parent` designates, when it parses.
pub open spec fn kern_from(parent: Seq<u8>, offset: u16) -> Option<Seq<u8>> {
    if offset == 0 || offset > parent.len() || !kern_ok(parent.subrange(offset as int, parent.len() as int)) {
        None
    } else {
        Some(parent.subrange(offset as int, parent.len() as int))
    }
}

/// `k` holds the kern table `s` designates.
pub open spec fn kern_matches<'a>(k: Option<MathKern<'a>>, s: Option<Seq<u8>>) -> bool {
    match k {
        Some(k) => s matches Some(b) && kern_is(k, b),
        None => s is None,
    }
}

fn kern_at<'a>(parent: &'a [u8], offset: u16) -> (r: Option<MathKern<'a>>)
    ensures
        kern_matches(r, kern_from(parent@, offset)),
{
    if offset == 0 {
        return None;
    }
    match tail_from(parent, offset as usize) {
        Some(t) => MathKern::parse(t),
        None => None,
    }
}

/// Each MathKernInfoRecord points to up to four kern tables for each of the corners around the
/// glyph. If no kern table is provided for a corner, a kerning amount of zero is assumed.
#[derive(Clone, Copy, Debug)]
pub struct MathKernInfoRecord<'a> {
    pub top_right: Option<MathKern<'a>>,
    pub top_left: Option<MathKern<'a>>,
    pub bottom_right: Option<MathKern<'a>>,
    pub bottom_left: Option<MathKern<'a>>,
}

/// `r` holds the four kern tables of the record at `pos` of `e`, whose
/// offsets are relative to `parent`.
pub open spec fn kern_record_is<'a>(r: MathKernInfoRecord<'a>, e: Seq<u8>, pos: int, parent: Seq<u8>) -> bool {
    &&& kern_matches(r.top_right, kern_from(parent, u16_at(e, pos)))
    &&& kern_matches(r.top_left, kern_from(parent, u16_at(e, pos + 2)))
    &&& kern_matches(r.bottom_right, kern_from(parent, u16_at(e, pos + 4)))
    &&& kern_matches(r.bottom_left, kern_from(parent, u16_at(e, pos + 6)))
}

/// See <https://docs.microsoft.com/en-us/typography/opentype/spec/math#mathkerninfo-table>.
#[derive(Clone, Copy, Debug)]
pub struct MathKernInfo<'a> {
    /// The glyphs that have kern information.
    pub coverage: Coverage<'a>,
    /// The kern info records, eight bytes each, in coverage order.
    pub entries: &'a [u8],
    /// The whole table, which kern table offsets are relative to.
    pub data: &'a [u8],
}

/// `t` is what parsing the kern info table `d` gives.
pub open spec fn kern_info_is<'a>(t: MathKernInfo<'a>, d: Seq<u8>) -> bool {
    &&& at_offset16(d, 0) == Some(t.coverage.data@)
    &&& t.entries@ == covered_records(d, 8)
    &&& t.data@ == d
}

impl<'a> MathKernInfo<'a> {
    /// Parses a kern info table.
    pub fn parse(data: &'a [u8]) -> (r: Option<MathKernInfo<'a>>)
        ensures
            r is Some <==> covered_ok(data@, 8),
            r matches Some(t) ==> kern_info_is(t, data@),
    {
        match parse_covered_records(data, 8) {
            Some((coverage, entries)) => Some(MathKernInfo { coverage, entries, data }),
            None => None,
        }
    }

    /// Checks that glyph is present.
    pub fn contains(&self, glyph: GlyphId) -> (r: bool)
        ensures
            r == coverage_index(self.coverage.data@, glyph.0) is Some,
    {
        self.coverage.contains(glyph)
    }

    /// Returns the [`MathKernInfoRecord`] of the glyph or `None` if it is not covered.
    pub fn get(&self, glyph: GlyphId) -> (r: Option<MathKernInfoRecord<'a>>)
        ensures
            match coverage_index(self.coverage.data@, glyph.0) {
                Some(i) => if in_bounds(self.entries@, 8 * i, 8) {
                    r matches Some(k) && kern_record_is(k, self.entries@, 8 * i, self.data@)
                } else {
                    r is None
                },
                None => r is None,
            },
    {
        let index = match self.coverage.get(glyph) {
            Some(i) => i,
            None => return None,
        };
        let e = self.entries;
        let p = 8 * index as usize;
        let top_right = match read_u16_at(e, p) {
            Some(v) => v,
            None => return None,
        };
        assert(e@.len() == e.len());
        let top_left = match read_u16_at(e, p + 2) {
            Some(v) => v,
            None => return None,
        };
        let bottom_right = match read_u16_at(e, p + 4) {
            Some(v) => v,
            None => return None,
        };
        let bottom_left = match read_u16_at(e, p + 6) {
            Some(v) => v,
            None => return None,
        };
        Some(MathKernInfoRecord {
            top_right: kern_at(self.data, top_right),
            top_left: kern_at(self.data, top_left),
            bottom_right: kern_at(self.data, bottom_right),
            bottom_left: kern_at(self.data, bottom_left),
        })
    }
}

/// Part qualifiers of a glyph part.
#[derive(Clone, Copy, Debug)]
pub struct PartFlags(pub u16);

impl PartFlags {
    /// If set, the part can be skipped or repeated.
    pub fn extender(self) -> (r: bool)
        ensures
            r == (self.0 % 2 == 1),
    {
        let v = self.0;
        assert(v & 1 != 0 <==> v % 2 == 1) by (bit_vector);
        v & 0x0001 != 0
    }
}

/// Description of glyph parts to be assembled.
#[derive(Clone, Copy, Debug)]
pub struct GlyphPartRecord {
    /// Glyph ID for the part.
    pub glyph_id: GlyphId,
    /// Lengths of the connectors on the start of the glyph.
    pub start_connector_length: u16,
    /// Lengths of the connectors on the end of the glyph.
    pub end_connector_length: u16,
    /// The full advance of the part. It is also used to determine the measurement of the result
    /// by using the following formula:
    ///
    /// _Size of Assembly = Offset of the Last Part + Full Advance of the Last Part_
    pub full_advance: u16,
    /// Part qualifiers.
    pub part_flags: PartFlags,
}

/// The part record stored at `p` of `d`.
pub open spec fn part_at(d: Seq<u8>, p: int) -> GlyphPartRecord {
    GlyphPartRecord {
        glyph_id: GlyphId(u16_at(d, p)),
        start_connector_length: u16_at(d, p + 2),
        end_connector_length: u16_at(d, p + 4),
        full_advance: u16_at(d, p + 6),
        part_flags: PartFlags(u16_at(d, p + 8)),
    }
}

/// The part records of a glyph assembly, ten bytes each.
#[derive(Clone, Copy, Debug)]
pub struct GlyphPartRecords<'a> {
    /// The records.
    pub data: &'a [u8],
    /// Number of records.
    pub count: u16,
}

impl<'a> GlyphPartRecords<'a> {
    /// Number of parts.
    pub fn len(&self) -> (r: u16)
        ensures
            r == self.count,
    {
        self.count
    }

    /// The part at `index`.
    pub fn get(&self, index: u16) -> (r: Option<GlyphPartRecord>)
        ensures
            r == (if index < self.count && in_bounds(self.data@, 10 * index, 10) {
                Some(part_at(self.data@, 10 * index))
            } else {
                None
            }),
    {
        if index >= self.count {
            return None;
        }
        let d = self.data;
        let p = 10 * index as usize;
        let glyph = match read_u16_at(d, p) {
            Some(v) => v,
            None => return None,
        };
        assert(d@.len() == d.len());
        let start_len = match read_u16_at(d, p + 2) {
            Some(v) => v,
            None => return None,
        };
        let end_len = match read_u16_at(d, p + 4) {
            Some(v) => v,
            None => return None,
        };
        let advance = match read_u16_at(d, p + 6) {
            Some(v) => v,
            None => return None,
        };
        let flags = match read_u16_at(d, p + 8) {
            Some(v) => v,
            None => return None,
        };
        Some(GlyphPartRecord {
            glyph_id: GlyphId(glyph),
            start_connector_length: start_len,
            end_connector_length: end_len,
            full_advance: advance,
            part_flags: PartFlags(flags),
        })
    }
}

/// How the shape for this glyph can be assembled from parts found in the glyph set of the font.
#[derive(Clone, Copy, Debug)]
pub struct GlyphAssembly<'a> {
    /// Italics correction of this GlyphAssembly. Should not depend on the assembly size.
    pub italics_correction: MathValueRecord<'a>,
    /// Array of part records, from left to right (for assemblies that extend horizontally) or
    /// bottom to top (for assemblies that extend vertically).
    pub glyph_parts: GlyphPartRecords<'a>,
}

/// The bytes hold an italics correction record, a part count and the parts.
pub open spec fn assembly_ok(d: Seq<u8>) -> bool {
    in_bounds(d, 0, 6) && in_bounds(d, 6, 10 * u16_at(d, 4))
}

/// `a` is what parsing the glyph assembly `d` gives.
pub open spec fn assembly_is<'a>(a: GlyphAssembly<'a>, d: Seq<u8>) -> bool {
    &&& record_at(d, 0, d) == Some(a.italics_correction@)
    &&& a.glyph_parts.count == u16_at(d, 4)
    &&& a.glyph_parts.data@ == d.subrange(6, 6 + 10 * u16_at(d, 4))
}

impl<'a> GlyphAssembly<'a> {
    /// Parses a glyph assembly.
    pub fn parse(data: &'a [u8]) -> (r: Option<GlyphAssembly<'a>>)
        ensures
            r is Some <==> assembly_ok(data@),
            r matches Some(a) ==> assembly_is(a, data@),
    {
        let italics_correction = match read_record(data, 0, data) {
            Some(v) => v,
            None => return None,
        };
        let count = match read_u16_at(data, 4) {
            Some(v) => v,
            None => return None,
        };
        let parts = match bytes_at(data, 6, 10 * count as usize) {
            Some(b) => b,
            None => return None,
        };
        Some(GlyphAssembly { italics_correction, glyph_parts: GlyphPartRecords { data: parts, count } })
    }
}

/// Description of math glyph variants.
#[derive(Clone, Copy, Debug)]
pub struct MathGlyphVariantRecord {
    /// Glyph ID for the variant.
    pub variant_glyph: GlyphId,
    /// Advance width/height, in design units, of the variant, in the direction of requested glyph
    /// extension.
    pub advance_measurement: u16,
}

/// The variant records of a glyph construction, four bytes each.
#[derive(Clone, Copy, Debug)]
pub struct MathGlyphVariantRecords<'a> {
    /// The records.
    pub data: &'a [u8],
    /// Number of records.
    pub count: u16,
}

impl<'a> MathGlyphVariantRecords<'a> {
    /// Number of variants.
    pub fn len(&self) -> (r: u16)
        ensures
            r == self.count,
    {
        self.count
    }

    /// The variant at `index`.
    pub fn get(&self, index: u16) -> (r: Option<MathGlyphVariantRecord>)
        ensures
            r == (if index < self.count && in_bounds(self.data@, 4 * index, 4) {
                Some(MathGlyphVariantRecord {
                    variant_glyph: GlyphId(u16_at(self.data@, 4 * index)),
                    advance_measurement: u16_at(self.data@, 4 * index + 2),
                })
            } else {
                None
            }),
    {
        if index >= self.count {
            return None;
        }
        let d = self.data;
        let p = 4 * index as usize;
        let glyph = match read_u16_at(d, p) {
            Some(v) => v,
            None => return None,
        };
        assert(d@.len() == d.len());
        let advance = match read_u16_at(d, p + 2) {
            Some(v) => v,
            None => return None,
        };
        Some(MathGlyphVariantRecord { variant_glyph: GlyphId(glyph), advance_measurement: advance })
    }
}

/// The `MathGlyphConstruction` table provides information on finding or assembling extended
/// variants for one particular glyph. It can be used for shapes that grow in either horizontal or
/// vertical directions.
#[derive(Clone, Copy, Debug)]
pub struct MathGlyphConstruction<'a> {
    pub glyph_assembly: Option<GlyphAssembly<'a>>,
    pub variants: MathGlyphVariantRecords<'a>,
}

/// The bytes hold a variant count and the variants.
pub open spec fn construction_ok(d: Seq<u8>) -> bool {
    in_bounds(d, 2, 2) && in_bounds(d, 4, 4 * u16_at(d, 2))
}

/// `a` holds the glyph assembly that `s` designates, when that parses.
pub open spec fn assembly_matches<'a>(a: Option<GlyphAssembly<'a>>, s: Option<Seq<u8>>) -> bool {
    match a {
        Some(a) => s matches Some(b) && assembly_ok(b) && assembly_is(a, b),
        None => !(s matches Some(b) && assembly_ok(b)),
    }
}

/// `c` is what parsing the glyph construction `d` gives.
pub open spec fn construction_is<'a>(c: MathGlyphConstruction<'a>, d: Seq<u8>) -> bool {
    &&& assembly_matches(c.glyph_assembly, at_offset16(d, 0))
    &&& c.variants.count == u16_at(d, 2)
    &&& c.variants.data@ == d.subrange(4, 4 + 4 * u16_at(d, 2))
}

impl<'a> MathGlyphConstruction<'a> {
    /// Parses a glyph construction.
    pub fn parse(data: &'a [u8]) -> (r: Option<MathGlyphConstruction<'a>>)
        ensures
            r is Some <==> construction_ok(data@),
            r matches Some(c) ==> construction_is(c, data@),
    {
        let glyph_assembly = match read_at_offset16(data, 0) {
            Some(t) => GlyphAssembly::parse(t),
            None => None,
        };
        let count = match read_u16_at(data, 2) {
            Some(v) => v,
            None => return None,
        };
        let variants = match bytes_at(data, 4, 4 * count as usize) {
            Some(b) => b,
            None => return None,
        };
        Some(MathGlyphConstruction { glyph_assembly, variants: MathGlyphVariantRecords { data: variants, count } })
    }
}

/// The construction that the offset at `index` of `offsets` designates.
pub open spec fn construction_from(data: Seq<u8>, offsets: Seq<u8>, count: u16, index: u16) -> Option<Seq<u8>> {
    if index < count && in_bounds(offsets, 2 * index, 2) {
        let off = u16_at(offsets, 2 * index);
        if off != 0 && off <= data.len() && construction_ok(data.subrange(off as int, data.len() as int)) {
            Some(data.subrange(off as int, data.len() as int))
        } else {
            None
        }
    } else {
        None
    }
}

/// Glyph constructions reached through 16-bit offsets into a parent table.
#[derive(Clone, Copy, Debug)]
pub struct MathGlyphConstructions<'a> {
    /// The parent table, which the offsets are relative to.
    pub data: &'a [u8],
    /// The offsets, two bytes each.
    pub offsets: &'a [u8],
    /// Number of offsets.
    pub count: u16,
}

impl<'a> MathGlyphConstructions<'a> {
    /// Number of constructions.
    pub fn len(&self) -> (r: u16)
        ensures
            r == self.count,
    {
        self.count
    }

    /// The construction at `index`; none for a null offset.
    pub fn get(&self, index: u16) -> (r: Option<MathGlyphConstruction<'a>>)
        ensures
            match construction_from(self.data@, self.offsets@, self.count, index) {
                Some(b) => r matches Some(c) && construction_is(c, b),
                None => r is None,
            },
    {
        if index >= self.count {
            return None;
        }
        let off = match read_u16_at(self.offsets, 2 * index as usize) {
            Some(v) => v,
            None => return None,
        };
        if off == 0 {
            return None;
        }
        match tail_from(self.data, off as usize) {
            Some(t) => MathGlyphConstruction::parse(t),
            None => None,
        }
    }
}

/// Used for selecting glyph variants at correct size, or constructing stretchable shapes.
#[derive(Clone, Copy, Debug)]
pub struct MathVariants<'a> {
    /// Minimum overlap of connecting glyphs during glyph construction, in design units.
    pub min_connector_overlap: u16,
    /// Coverage table for shapes growing in the vertical direction.
    pub vert_glyph_coverage: Coverage<'a>,
    /// Coverage table for shapes growing in the horizontal direction.
    pub horiz_glyph_coverage: Coverage<'a>,
    /// For shapes growing in the vertical direction.
    pub vert_glyph_construction: MathGlyphConstructions<'a>,
    /// For shapes growing in the horizontal direction.
    pub horiz_glyph_construction: MathGlyphConstructions<'a>,
}

/// The bytes hold the overlap, two valid coverage tables, two counts and that
/// many construction offsets.
pub open spec fn variants_ok(d: Seq<u8>) -> bool {
    &&& in_bounds(d, 0, 10)
    &&& at_offset16(d, 2) matches Some(c) && coverage_ok(c)
    &&& at_offset16(d, 4) matches Some(c) && coverage_ok(c)
    &&& in_bounds(d, 10, 2 * u16_at(d, 6) + 2 * u16_at(d, 8))
}

/// `v` is what parsing the variants table `d` gives.
pub open spec fn variants_is<'a>(v: MathVariants<'a>, d: Seq<u8>) -> bool {
    let vc = u16_at(d, 6);
    let hc = u16_at(d, 8);
    &&& v.min_connector_overlap == u16_at(d, 0)
    &&& at_offset16(d, 2) == Some(v.vert_glyph_coverage.data@)
    &&& at_offset16(d, 4) == Some(v.horiz_glyph_coverage.data@)
    &&& v.vert_glyph_construction.data@ == d
    &&& v.vert_glyph_construction.count == vc
    &&& v.vert_glyph_construction.offsets@ == d.subrange(10, 10 + 2 * vc)
    &&& v.horiz_glyph_construction.data@ == d
    &&& v.horiz_glyph_construction.count == hc
    &&& v.horiz_glyph_construction.offsets@ == d.subrange(10 + 2 * vc, 10 + 2 * vc + 2 * hc)
}

fn parse_coverage_at<'a>(data: &'a [u8], pos: usize) -> (r: Option<Coverage<'a>>)
    ensures
        r is Some <==> (at_offset16(data@, pos as int) matches Some(c) && coverage_ok(c)),
        r matches Some(c) ==> at_offset16(data@, pos as int) == Some(c.data@),
{
    match read_at_offset16(data, pos) {
        Some(t) => Coverage::parse(t),
        None => None,
    }
}

impl<'a> MathVariants<'a> {
    /// Parses a variants table.
    pub fn parse(data: &'a [u8]) -> (r: Option<MathVariants<'a>>)
        ensures
            r is Some <==> variants_ok(data@),
            r matches Some(v) ==> variants_is(v, data@),
    {
        let min_connector_overlap = match read_u16_at(data, 0) {
            Some(v) => v,
            None => return None,
        };
        let vert_glyph_coverage = match parse_coverage_at(data, 2) {
            Some(c) => c,
            None => return None,
        };
        let horiz_glyph_coverage = match parse_coverage_at(data, 4) {
            Some(c) => c,
            None => return None,
        };
        let vert_count = match read_u16_at(data, 6) {
            Some(v) => v,
            None => return None,
        };
        let horiz_count = match read_u16_at(data, 8) {
            Some(v) => v,
            None => return None,
        };
        let vert_offsets = match bytes_at(data, 10, 2 * vert_count as usize) {
            Some(b) => b,
            None => return None,
        };
        let horiz_offsets = match bytes_at(data, 10 + 2 * vert_count as usize, 2 * horiz_count as usize) {
            Some(b) => b,
            None => return None,
        };
        Some(MathVariants {
            min_connector_overlap,
            vert_glyph_coverage,
            horiz_glyph_coverage,
            vert_glyph_construction: MathGlyphConstructions { data, offsets: vert_offsets, count: vert_count },
            horiz_glyph_construction: MathGlyphConstructions { data, offsets: horiz_offsets, count: horiz_count },
        })
    }
}

/// The MathGlyphInfo table contains positioning information that is defined on per-glyph basis.
#[derive(Clone, Copy, Debug)]
pub struct MathGlyphInfo<'a> {
    /// Contains information on italics correction values.
    pub math_italics_correction_info: MathValueTable<'a>,
    /// Contains horizontal positions for attaching mathematical accents.
    pub math_top_accent_attachment: MathValueTable<'a>,
    /// The glyphs covered by this table are to be considered extended shapes.
    pub extended_shape_coverage: Option<Coverage<'a>>,
    /// Provides per-glyph information for mathematical kerning.
    pub math_kern_info: Option<MathKernInfo<'a>>,
}

/// The bytes lead, through the offsets at 0 and 2, to two valid value tables.
pub open spec fn glyph_info_ok(d: Seq<u8>) -> bool {
    &&& at_offset16(d, 0) matches Some(t) && covered_ok(t, 4)
    &&& at_offset16(d, 2) matches Some(t) && covered_ok(t, 4)
}

/// `g` is what parsing the glyph info table `d` gives.
pub open spec fn glyph_info_is<'a>(g: MathGlyphInfo<'a>, d: Seq<u8>) -> bool {
    &&& at_offset16(d, 0) matches Some(t) && value_table_is(g.math_italics_correction_info, t)
    &&& at_offset16(d, 2) matches Some(t) && value_table_is(g.math_top_accent_attachment, t)
    &&& match g.extended_shape_coverage {
        Some(c) => at_offset16(d, 4) == Some(c.data@) && coverage_ok(c.data@),
        None => !(at_offset16(d, 4) matches Some(t) && coverage_ok(t)),
    }
    &&& match g.math_kern_info {
        Some(k) => at_offset16(d, 6) matches Some(t) && covered_ok(t, 8) && kern_info_is(k, t),
        None => !(at_offset16(d, 6) matches Some(t) && covered_ok(t, 8)),
    }
}

fn parse_value_table_at<'a>(data: &'a [u8], pos: usize) -> (r: Option<MathValueTable<'a>>)
    ensures
        r is Some <==> (at_offset16(data@, pos as int) matches Some(t) && covered_ok(t, 4)),
        r matches Some(v) ==> (at_offset16(data@, pos as int) matches Some(t) && value_table_is(v, t)),
{
    match read_at_offset16(data, pos) {
        Some(t) => MathValueTable::parse(t),
        None => None,
    }
}

impl<'a> MathGlyphInfo<'a> {
    /// Parses a glyph info table.
    pub fn parse(data: &'a [u8]) -> (r: Option<MathGlyphInfo<'a>>)
        ensures
            r is Some <==> glyph_info_ok(data@),
            r matches Some(g) ==> glyph_info_is(g, data@),
    {
        let math_italics_correction_info = match parse_value_table_at(data, 0) {
            Some(t) => t,
            None => return None,
        };
        let math_top_accent_attachment = match parse_value_table_at(data, 2) {
            Some(t) => t,
            None => return None,
        };
        let extended_shape_coverage = parse_coverage_at(data, 4);
        let math_kern_info = match read_at_offset16(data, 6) {
            Some(t) => MathKernInfo::parse(t),
            None => None,
        };
        Some(MathGlyphInfo {
            math_italics_correction_info,
            math_top_accent_attachment,
            extended_shape_coverage,
            math_kern_info,
        })
    }
}

/// A [MATH Table](https://docs.microsoft.com/en-us/typography/opentype/spec/math).
#[derive(Clone, Copy, Debug)]
pub struct Table<'a> {
    /// MathConstants Table, math positioning constants.
    pub math_constants: MathConstants<'a>,
    /// MathGlyphInfo Table, per-glyph positioning information.
    pub math_glyph_info: MathGlyphInfo<'a>,
    /// MathVariants Table, glyph in different sizes and infinitely stretchable shapes.
    pub math_variants: MathVariants<'a>,
}

/// The table is of version 1.0 (each version number compared by its low
/// byte) and its three offsets lead to parsable subtables.
pub open spec fn table_ok(d: Seq<u8>) -> bool {
    &&& in_bounds(d, 0, 4)
    &&& u16_at(d, 0) % 256 == 1
    &&& u16_at(d, 2) % 256 == 0
    &&& at_offset16(d, 4) is Some
    &&& at_offset16(d, 6) matches Some(t) && glyph_info_ok(t)
    &&& at_offset16(d, 8) matches Some(t) && variants_ok(t)
}

impl<'a> Table<'a> {
    /// Parses a table from raw data.
    pub fn parse(data: &'a [u8]) -> (r: Option<Table<'a>>)
        ensures
            r is Some <==> table_ok(data@),
            r matches Some(t) ==> {
                &&& at_offset16(data@, 4) == Some(t.math_constants.data@)
                &&& at_offset16(data@, 6) matches Some(g) && glyph_info_is(t.math_glyph_info, g)
                &&& at_offset16(data@, 8) matches Some(v) && variants_is(t.math_variants, v)
            },
    {
        let major = match read_u16_at(data, 0) {
            Some(v) => v,
            None => return None,
        };
        let minor = match read_u16_at(data, 2) {
            Some(v) => v,
            None => return None,
        };
        // Only version 1.0 is recognized; the versions are compared by their low byte.
        if major % 256 != 1 || minor % 256 != 0 {
            return None;
        }
        let constants = match read_at_offset16(data, 4) {
            Some(t) => t,
            None => return None,
        };
        let math_glyph_info = match read_at_offset16(data, 6) {
            Some(t) => match MathGlyphInfo::parse(t) {
                Some(g) => g,
                None => return None,
            },
            None => return None,
        };
        let math_variants = match read_at_offset16(data, 8) {
            Some(t) => match MathVariants::parse(t) {
                Some(v) => v,
                None => return None,
            },
            None => return None,
        };
        Some(Table { math_constants: MathConstants { data: constants }, math_glyph_info, math_variants })
    }
}

} // verus!
