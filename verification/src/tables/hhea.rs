//! A [Horizontal Header Table](https://docs.microsoft.com/en-us/typography/opentype/spec/hhea).

use vstd::prelude::*;
use crate::parser::{in_bounds, u16_at, i16_or_zero, opt_u16_at, read_i16_at, read_u16_at};

verus! {

pub const TABLE_SIZE: usize = 36;
pub const ASCENDER_OFFSET: usize = 4;
pub const DESCENDER_OFFSET: usize = 6;
pub const LINE_GAP_OFFSET: usize = 8;
pub const NUMBER_OF_H_METRICS_OFFSET: usize = 34;

/// Accepts the table when it has exactly the size of a `hhea` table.
pub fn parse(data: &[u8]) -> (r: Option<&[u8]>)
    ensures
        r matches Some(t) ==> t@ == data@,
        r is Some <==> data@.len() == TABLE_SIZE,
{
    if data.len() == TABLE_SIZE {
        Some(data)
    } else {
        None
    }
}

/// The typographic ascender, or zero when the table is too short.
pub fn ascender(data: &[u8]) -> (r: i16)
    ensures
        r == i16_or_zero(data@, ASCENDER_OFFSET as int),
{
    match read_i16_at(data, ASCENDER_OFFSET) {
        Some(v) => v,
        None => 0,
    }
}

/// The typographic descender, or zero when the table is too short.
pub fn descender(data: &[u8]) -> (r: i16)
    ensures
        r == i16_or_zero(data@, DESCENDER_OFFSET as int),
{
    match read_i16_at(data, DESCENDER_OFFSET) {
        Some(v) => v,
        None => 0,
    }
}

/// The typographic line gap, or zero when the table is too short.
pub fn line_gap(data: &[u8]) -> (r: i16)
    ensures
        r == i16_or_zero(data@, LINE_GAP_OFFSET as int),
{
    match read_i16_at(data, LINE_GAP_OFFSET) {
        Some(v) => v,
        None => 0,
    }
}

/// The number of horizontal metrics, when it is readable and not zero.
pub fn number_of_h_metrics(data: &[u8]) -> (r: Option<u16>)
    ensures
        r == (match opt_u16_at(data@, NUMBER_OF_H_METRICS_OFFSET as int) {
            Some(n) => if n != 0 { Some(n) } else { None },
            None => None,
        }),
        r matches Some(n) ==> n != 0,
{
    match read_u16_at(data, NUMBER_OF_H_METRICS_OFFSET) {
        Some(n) => if n != 0 {
            Some(n)
        } else {
            None
        },
        None => None,
    }
}

} // verus!
