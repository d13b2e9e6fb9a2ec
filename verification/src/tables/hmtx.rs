//! A [Horizontal Metrics Table](https://docs.microsoft.com/en-us/typography/opentype/spec/hmtx).

use vstd::prelude::*;
use crate::GlyphId;
use crate::parser::{be_u16, in_bounds, u16_at, i16_at, read_u16_at, read_i16_at, bytes_at};

verus! {

/// A [Horizontal Metrics Table](https://docs.microsoft.com/en-us/typography/opentype/spec/hmtx).
#[derive(Clone, Copy, Debug)]
pub struct Table<'a> {
    /// The long metrics records: advance width and left side bearing, four bytes each.
    pub metrics: &'a [u8],
    /// The left side bearings of the glyphs past the long metrics, two bytes each.
    pub bearings: Option<&'a [u8]>,
    /// Number of long metrics.
    pub number_of_hmetrics: u16,
    /// Number of glyphs with metrics: long metrics plus bearings.
    pub number_of_metrics: u16,
}

/// The advance width of glyph `g`: its own, or that of the last long metric for
/// the glyphs past them, up to the number of glyphs with metrics.
pub open spec fn spec_advance(t: Table, g: u16) -> Option<u16> {
    if g >= t.number_of_metrics {
        None
    } else if g < t.number_of_hmetrics && in_bounds(t.metrics@, 4 * g, 4) {
        Some(u16_at(t.metrics@, 4 * g))
    } else if t.number_of_hmetrics > 0 && in_bounds(t.metrics@, 4 * (t.number_of_hmetrics - 1), 4) {
        Some(u16_at(t.metrics@, 4 * (t.number_of_hmetrics - 1)))
    } else {
        None
    }
}

/// The left side bearing of glyph `g`: from its long metric, or from the
/// bearings that follow the long metrics.
pub open spec fn spec_side_bearing(t: Table, g: u16) -> Option<i16> {
    if g < t.number_of_hmetrics && in_bounds(t.metrics@, 4 * g, 4) {
        Some(i16_at(t.metrics@, 4 * g + 2))
    } else {
        match t.bearings {
            Some(b) => if g >= t.number_of_hmetrics
                && in_bounds(b@, 2 * (g - t.number_of_hmetrics), 2) {
                Some(i16_at(b@, 2 * (g - t.number_of_hmetrics)))
            } else {
                None
            },
            None => None,
        }
    }
}

impl<'a> Table<'a> {
    /// Parses a table with `number_of_hmetrics` long metrics for `number_of_glyphs` glyphs;
    /// a table without long metrics is refused.
    pub fn parse(data: &'a [u8], number_of_hmetrics: u16, number_of_glyphs: u16) -> (r: Option<Table<'a>>)
        ensures
            r is Some <==> number_of_hmetrics != 0 && in_bounds(data@, 0, 4 * number_of_hmetrics),
            r matches Some(t) ==> {
                &&& t.metrics@ == data@.subrange(0, 4 * number_of_hmetrics)
                &&& t.number_of_hmetrics == number_of_hmetrics
                &&& if number_of_glyphs >= number_of_hmetrics {
                    let count = number_of_glyphs - number_of_hmetrics;
                    &&& t.number_of_metrics == number_of_glyphs
                    &&& if in_bounds(data@, 4 * number_of_hmetrics, 2 * count) {
                        t.bearings matches Some(b) && b@ == data@.subrange(
                            4 * number_of_hmetrics,
                            4 * number_of_hmetrics + 2 * count,
                        )
                    } else {
                        t.bearings is None
                    }
                } else {
                    t.number_of_metrics == number_of_hmetrics && t.bearings is None
                }
            },
    {
        let nh = number_of_hmetrics;
        if nh == 0 {
            return None;
        }
        let metrics = match bytes_at(data, 0, 4 * nh as usize) {
            Some(m) => m,
            None => return None,
        };
        let mut number_of_metrics = nh;
        // 'If the number_of_hmetrics is less than the total number of glyphs,
        // then that array is followed by an array for the left side bearing values
        // of the remaining glyphs.'
        let bearings = if number_of_glyphs >= nh {
            let count = number_of_glyphs - nh;
            number_of_metrics = number_of_metrics + count;
            bytes_at(data, 4 * nh as usize, 2 * count as usize)
        } else {
            None
        };
        Some(Table { metrics, bearings, number_of_hmetrics: nh, number_of_metrics })
    }

    /// Returns the advance width of the glyph. Glyphs past the long metrics
    /// take the advance of the last one.
    pub fn advance(&self, glyph_id: GlyphId) -> (r: Option<u16>)
        ensures
            r == spec_advance(*self, glyph_id.0),
    {
        let g = glyph_id.0;
        if g >= self.number_of_metrics {
            return None;
        }
        if g < self.number_of_hmetrics {
            if let Some(v) = read_advance(self.metrics, 4 * g as usize) {
                return Some(v);
            }
        }
        // 'As an optimization, the number of records can be less than the number of glyphs,
        // in which case the advance width value of the last record applies
        // to all remaining glyph IDs.'
        if self.number_of_hmetrics == 0 {
            return None;
        }
        read_advance(self.metrics, 4 * (self.number_of_hmetrics - 1) as usize)
    }

    /// Returns the left side bearing of the glyph.
    pub fn side_bearing(&self, glyph_id: GlyphId) -> (r: Option<i16>)
        ensures
            r == spec_side_bearing(*self, glyph_id.0),
    {
        let g = glyph_id.0;
        let m = self.metrics;
        assert(m@.len() == m.len());
        if g < self.number_of_hmetrics && 4 * g as usize <= m.len() && m.len() - 4 * g as usize >= 4 {
            return read_i16_at(m, 4 * g as usize + 2);
        }
        match self.bearings {
            Some(b) => {
                // Glyphs covered by the long metrics have no entry here.
                if g < self.number_of_hmetrics {
                    return None;
                }
                read_i16_at(b, 2 * (g - self.number_of_hmetrics) as usize)
            },
            None => None,
        }
    }
}

/// The advance width of the long metric record at `p`, when the record is there.
fn read_advance(metrics: &[u8], p: usize) -> (r: Option<u16>)
    ensures
        r == (if in_bounds(metrics@, p as int, 4) { Some(u16_at(metrics@, p as int)) } else { None }),
{
    assert(metrics@.len() == metrics.len());
    if p > metrics.len() || metrics.len() - p < 4 {
        return None;
    }
    read_u16_at(metrics, p)
}

/// Glyphs past the long metrics, up to the number of glyphs with metrics,
/// share the advance of the last long metric.
pub proof fn lemma_advance_past_long_metrics(t: Table, g: u16)
    requires
        t.number_of_hmetrics > 0,
        in_bounds(t.metrics@, 0, 4 * t.number_of_hmetrics),
        t.number_of_hmetrics <= g < t.number_of_metrics,
    ensures
        spec_advance(t, g) == spec_advance(t, (t.number_of_hmetrics - 1) as u16),
        spec_advance(t, g) == Some(u16_at(t.metrics@, 4 * (t.number_of_hmetrics - 1))),
{
}

/// A glyph with a long metric of its own (glyph `g` below the number of long
/// metrics) has the advance and the side bearing stored in its four bytes at
/// `4g`: an unsigned and a signed big-endian 16-bit number.
pub proof fn lemma_long_metric(t: Table, g: u16)
    requires
        g < t.number_of_hmetrics,
        g < t.number_of_metrics,
        4 * g + 4 <= t.metrics@.len(),
    ensures
        spec_advance(t, g) == Some(be_u16(t.metrics@, 4 * g) as u16),
        spec_side_bearing(t, g) == Some(
            (if be_u16(t.metrics@, 4 * g + 2) >= 0x8000 {
                be_u16(t.metrics@, 4 * g + 2) - 0x10000
            } else {
                be_u16(t.metrics@, 4 * g + 2)
            }) as i16,
        ),
{
}

} // verus!
