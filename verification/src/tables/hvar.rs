//! Delta-set index maps of a [Horizontal Metrics Variations Table](
//! https://docs.microsoft.com/en-us/typography/opentype/spec/hvar).

use vstd::prelude::*;
use vstd::arithmetic::power2::{pow2, lemma2_to64, lemma_pow2_strictly_increases};
use vstd::bits::{lemma_u32_shr_is_div, lemma_u32_shl_is_mul, lemma_u32_pow2_no_overflow,
    lemma_u32_low_bits_mask_is_mod, low_bits_mask};
use crate::GlyphId;
use crate::parser::{in_bounds, u16_at, key_at, read_u16_at, read_key, tail_from};

verus! {

/// The (outer, inner) delta-set index that the map `d` gives the glyph.
///
/// The format word holds the entry size, less one, in bits 4 and 5 and the
/// number of inner index bits, less one, in its low four bits. A glyph past
/// the last entry uses the last entry. The outer index must fit in 16 bits.
pub open spec fn spec_map(d: Seq<u8>, glyph: u16) -> Option<(u16, u16)> {
    if !in_bounds(d, 0, 4) || u16_at(d, 2) == 0 {
        None
    } else {
        let format = u16_at(d, 0);
        let count = u16_at(d, 2);
        let idx = if glyph >= count { count - 1 } else { glyph as int };
        let size = (format / 16) % 4 + 1;
        let bits = (format % 16 + 1) as nat;
        if !in_bounds(d, 4 + size * idx, size) {
            None
        } else {
            let n = key_at(d, 4, size, size, idx);
            let outer = n / pow2(bits) as int;
            let inner = n % pow2(bits) as int;
            if outer > 0xFFFF {
                None
            } else {
                Some((outer as u16, inner as u16))
            }
        }
    }
}

/// A [delta-set index mapping](
/// https://docs.microsoft.com/en-us/typography/opentype/spec/otvarcommonformats#associating-target-items-to-variation-data).
#[derive(Clone, Copy, Debug)]
pub struct DeltaSetIndexMap<'a> {
    /// The bytes of the map.
    pub data: &'a [u8],
}

impl<'a> DeltaSetIndexMap<'a> {
    /// Wraps the bytes of a map.
    pub fn new(data: &'a [u8]) -> (r: DeltaSetIndexMap<'a>)
        ensures
            r.data@ == data@,
    {
        DeltaSetIndexMap { data }
    }

    /// Returns the (outer, inner) delta-set index of the glyph.
    pub fn map(&self, glyph_id: GlyphId) -> (r: Option<(u16, u16)>)
        ensures
            r == spec_map(self.data@, glyph_id.0),
    {
        let data = self.data;
        let entry_format = match read_u16_at(data, 0) {
            Some(v) => v,
            None => return None,
        };
        let map_count = match read_u16_at(data, 2) {
            Some(v) => v,
            None => return None,
        };
        if map_count == 0 {
            return None;
        }
        // 'If a given glyph ID is greater than mapCount-1, then the last entry is used.'
        let mut idx = glyph_id.0;
        if idx >= map_count {
            idx = map_count - 1;
        }
        assert((entry_format >> 4) & 3 == (entry_format / 16) % 4) by (bit_vector);
        assert(entry_format & 0xF == entry_format % 16) by (bit_vector);
        let entry_size = ((entry_format >> 4) & 3) + 1;
        let inner_index_bit_count: u32 = ((entry_format & 0xF) + 1) as u32;
        let size = entry_size as usize;
        assert(data@.len() == data.len());
        assert(size * (idx as usize) <= 4 * 0xFFFF) by (nonlinear_arith)
            requires
                size <= 4,
                idx <= 0xFFFF,
        ;
        let pos = 4 + size * idx as usize;
        assert(size * (idx as usize) == (idx as int) * size) by (nonlinear_arith);
        if pos > data.len() || data.len() - pos < size {
            return None;
        }
        let n = read_key(data, pos, size);
        proof {
            let bits = inner_index_bit_count;
            lemma_u32_shr_is_div(n, bits);
            lemma_u32_pow2_no_overflow(bits as nat);
            lemma_u32_shl_is_mul(1, bits);
        }
        let outer_index = n >> inner_index_bit_count;
        let inner_index = n & ((1u32 << inner_index_bit_count) - 1);
        proof {
            let bits = inner_index_bit_count;
            assert(((1u32 << bits) - 1) as u32 == low_bits_mask(bits as nat) as u32);
            lemma_u32_low_bits_mask_is_mod(n, bits as nat);
            lemma2_to64();
            if bits < 16 {
                lemma_pow2_strictly_increases(bits as nat, 16);
            }
        }
        if outer_index > 0xFFFF {
            return None;
        }
        Some((outer_index as u16, inner_index as u16))
    }
}

/// The delta-set index of the glyph's advance: from the mapping at
/// `mapping_offset` in the table `d`, or, without a mapping, outer index zero
/// and the glyph ID as inner index.
pub open spec fn spec_advance_indices(d: Seq<u8>, mapping_offset: Option<u32>, glyph: u16) -> Option<(u16, u16)> {
    match mapping_offset {
        Some(o) => if o <= d.len() {
            spec_map(d.subrange(o as int, d.len() as int), glyph)
        } else {
            None
        },
        None => Some((0, glyph)),
    }
}

/// The delta-set index of the glyph's side bearing: only from the mapping at
/// `mapping_offset`; without one there is none.
pub open spec fn spec_side_bearing_indices(d: Seq<u8>, mapping_offset: Option<u32>, glyph: u16) -> Option<(u16, u16)> {
    match mapping_offset {
        Some(o) => spec_advance_indices(d, mapping_offset, glyph),
        None => None,
    }
}

/// Finds the delta-set index of a glyph's advance in the table `data`, whose
/// advance mapping stands at `advance_width_mapping_offset` (`None` when the
/// table has none).
pub fn advance_delta_set_index(
    data: &[u8],
    advance_width_mapping_offset: Option<u32>,
    glyph_id: GlyphId,
) -> (r: Option<(u16, u16)>)
    ensures
        r == spec_advance_indices(data@, advance_width_mapping_offset, glyph_id.0),
{
    match advance_width_mapping_offset {
        Some(offset) => {
            let set_data = match tail_from(data, offset as usize) {
                Some(t) => t,
                None => return None,
            };
            DeltaSetIndexMap::new(set_data).map(glyph_id)
        },
        // 'If there is no delta-set index mapping table for advance widths,
        // then glyph IDs implicitly provide the indices.'
        None => Some((0, glyph_id.0)),
    }
}

/// Finds the delta-set index of a glyph's side bearing in the table `data`,
/// whose side-bearing mapping stands at `lsb_mapping_offset`.
pub fn side_bearing_delta_set_index(
    data: &[u8],
    lsb_mapping_offset: Option<u32>,
    glyph_id: GlyphId,
) -> (r: Option<(u16, u16)>)
    ensures
        r == spec_side_bearing_indices(data@, lsb_mapping_offset, glyph_id.0),
{
    match lsb_mapping_offset {
        Some(_) => advance_delta_set_index(data, lsb_mapping_offset, glyph_id),
        None => None,
    }
}

} // verus!
