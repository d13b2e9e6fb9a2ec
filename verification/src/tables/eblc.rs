//! An [Embedded Bitmap Location Table](
//! https://docs.microsoft.com/en-us/typography/opentype/spec/eblc) implementation.
//!
//! CBLC is defined as a backward compatible extension to EBLC, so any valid
//! EBLC is also a valid CBLC: bitmaps are located as in a CBLC table.

use vstd::prelude::*;

verus! {

/// An [Embedded Bitmap Location Table](
/// https://docs.microsoft.com/en-us/typography/opentype/spec/eblc).
#[derive(Clone, Copy, Debug)]
pub struct Table<'a>(pub &'a [u8]);

impl<'a> Table<'a> {
    /// Parses a table from raw data.
    pub fn parse(data: &'a [u8]) -> (r: Option<Table<'a>>)
        ensures
            r matches Some(t) && t.0@ == data@,
    {
        Some(Table(data))
    }
}

} // verus!
