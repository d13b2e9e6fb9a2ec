//! The number of glyphs, from a
//! [Maximum Profile Table](https://docs.microsoft.com/en-us/typography/opentype/spec/maxp).

use vstd::prelude::*;
use crate::parser::{in_bounds, u16_at, u32_at, Stream};

verus! {

/// A `maxp` version this parser accepts: 0.5 or 1.0.
pub open spec fn is_known_version(v: u32) -> bool {
    v == 0x00005000 || v == 0x00010000
}

/// The number of glyphs a `maxp` table declares, when it is readable and non-zero.
pub open spec fn spec_num_glyphs(d: Seq<u8>) -> Option<u16> {
    if in_bounds(d, 0, 6) && is_known_version(u32_at(d, 0)) && u16_at(d, 4) != 0 {
        Some(u16_at(d, 4))
    } else {
        None
    }
}

/// Parses the number of glyphs; the result is never zero.
pub fn parse(data: &[u8]) -> (r: Option<u16>)
    ensures
        r == spec_num_glyphs(data@),
        r matches Some(n) ==> n != 0,
{
    let mut s = Stream::new(data);
    let version = match s.read_u32() {
        Some(v) => v,
        None => return None,
    };
    if !(version == 0x00005000 || version == 0x00010000) {
        return None;
    }
    let n = match s.read_u16() {
        Some(v) => v,
        None => return None,
    };
    if n != 0 {
        Some(n)
    } else {
        None
    }
}

} // verus!
