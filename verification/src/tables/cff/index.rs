//! CFF INDEX structures (Adobe Technical Note #5176, chapter 5).

use vstd::prelude::*;
use crate::parser::{in_bounds, key_at, read_key, bytes_at, lemma_record_in_bounds, Stream};

verus! {

/// The byte size of the offsets of an INDEX.
#[derive(Clone, Copy, PartialEq, Eq, Structural, Debug)]
pub enum OffsetSize {
    Size1,
    Size2,
    Size3,
    Size4,
}

impl OffsetSize {
    pub open spec fn size(self) -> int {
        match self {
            OffsetSize::Size1 => 1,
            OffsetSize::Size2 => 2,
            OffsetSize::Size3 => 3,
            OffsetSize::Size4 => 4,
        }
    }

    pub fn to_u32(self) -> (r: u32)
        ensures
            r == self.size(),
    {
        match self {
            OffsetSize::Size1 => 1,
            OffsetSize::Size2 => 2,
            OffsetSize::Size3 => 3,
            OffsetSize::Size4 => 4,
        }
    }

    pub fn to_usize(self) -> (r: usize)
        ensures
            r == self.size(),
    {
        match self {
            OffsetSize::Size1 => 1,
            OffsetSize::Size2 => 2,
            OffsetSize::Size3 => 3,
            OffsetSize::Size4 => 4,
        }
    }
}

/// The offset size a byte encodes: 1 to 4.
pub open spec fn spec_offset_size(b: u8) -> Option<OffsetSize> {
    if b == 1 {
        Some(OffsetSize::Size1)
    } else if b == 2 {
        Some(OffsetSize::Size2)
    } else if b == 3 {
        Some(OffsetSize::Size3)
    } else if b == 4 {
        Some(OffsetSize::Size4)
    } else {
        None
    }
}

/// Reads an offset size byte.
pub fn try_parse_offset_size(s: &mut Stream) -> (r: Option<OffsetSize>)
    ensures
        final(s).bytes() == old(s).bytes(),
        r is Some ==> in_bounds(old(s).bytes(), old(s).pos(), 1) && r == spec_offset_size(
            old(s).bytes()[old(s).pos()],
        ) && final(s).pos() == old(s).pos() + 1,
        r is None ==> !in_bounds(old(s).bytes(), old(s).pos(), 1) || spec_offset_size(
            old(s).bytes()[old(s).pos()],
        ) is None,
{
    match s.read_u8() {
        Some(1) => Some(OffsetSize::Size1),
        Some(2) => Some(OffsetSize::Size2),
        Some(3) => Some(OffsetSize::Size3),
        Some(4) => Some(OffsetSize::Size4),
        _ => None,
    }
}

/// An array of variable-size offsets.
#[derive(Clone, Copy, Debug)]
pub struct VarOffsets<'a> {
    pub data: &'a [u8],
    pub offset_size: OffsetSize,
}

/// The number of offsets in `v` with offsets of `sz` bytes (the byte count
/// is taken as a 32-bit number).
pub open spec fn offsets_len(v: Seq<u8>, sz: int) -> int {
    ((v.len() as u32) as int) / sz
}

/// Offset `i`, shifted back by one; `None` when it is out of range or zero.
pub open spec fn offset_get(v: Seq<u8>, sz: int, i: int) -> Option<u32> {
    if i < 0 || i >= offsets_len(v, sz) || !in_bounds(v, i * sz, sz) {
        None
    } else {
        let n = key_at(v, 0, sz, sz, i);
        if n == 0 {
            None
        } else {
            Some((n - 1) as u32)
        }
    }
}

proof fn lemma_index_past_end(i: int, sz: int, len: int)
    requires
        i >= len / sz,
        1 <= sz <= 4,
        0 <= len,
    ensures
        i * sz + sz > len,
{
    assert(i * sz + sz > len) by (nonlinear_arith)
        requires
            i >= len / sz,
            1 <= sz <= 4,
            0 <= len,
    ;
}

proof fn lemma_index_in_data(i: int, sz: int, len: int)
    requires
        0 <= i < len / sz,
        1 <= sz <= 4,
        0 <= len,
    ensures
        i * sz + sz <= len,
        0 <= i * sz,
{
    assert(i * sz + sz <= len) by (nonlinear_arith)
        requires
            0 <= i < len / sz,
            1 <= sz <= 4,
            0 <= len,
    ;
    assert(0 <= i * sz) by (nonlinear_arith)
        requires
            0 <= i,
            1 <= sz,
    ;
}

impl<'a> VarOffsets<'a> {
    /// Returns offset `index`; offsets are stored plus one, so zero is invalid.
    pub fn get(&self, index: u32) -> (r: Option<u32>)
        ensures
            r == offset_get(self.data@, self.offset_size.size(), index as int),
    {
        if index >= self.len() {
            return None;
        }
        let sz = self.offset_size.to_usize();
        if !((index as usize) < self.data.len() / sz) {
            proof {
                lemma_index_past_end(index as int, sz as int, self.data@.len() as int);
            }
            return None;
        }
        proof {
            lemma_index_in_data(index as int, sz as int, self.data@.len() as int);
        }
        let start = index as usize * sz;
        let n = read_key(self.data, start, sz);
        // Offset must be positive.
        if n == 0 {
            return None;
        }
        // Offsets are stored plus one.
        Some(n - 1)
    }

    /// Returns the last offset.
    pub fn last(&self) -> (r: Option<u32>)
        ensures
            r == (if offsets_len(self.data@, self.offset_size.size()) == 0 {
                None
            } else {
                offset_get(self.data@, self.offset_size.size(), offsets_len(self.data@, self.offset_size.size()) - 1)
            }),
    {
        if !self.is_empty() {
            self.get(self.len() - 1)
        } else {
            None
        }
    }

    /// The number of offsets.
    pub fn len(&self) -> (r: u32)
        ensures
            r == offsets_len(self.data@, self.offset_size.size()),
    {
        self.data.len() as u32 / self.offset_size.to_u32()
    }

    /// Checks that there are no offsets.
    pub fn is_empty(&self) -> (r: bool)
        ensures
            r == (offsets_len(self.data@, self.offset_size.size()) == 0),
    {
        self.len() == 0
    }
}

/// A CFF INDEX: object data and the offsets that delimit its objects.
#[derive(Clone, Copy, Debug)]
pub struct DataIndex<'a> {
    pub data: &'a [u8],
    pub offsets: VarOffsets<'a>,
}

/// Object `i` of an INDEX: the data between offsets `i` and `i + 1`.
pub open spec fn index_get(data: Seq<u8>, v: Seq<u8>, sz: int, i: int) -> Option<Seq<u8>> {
    if i >= u32::MAX || i + 1 >= offsets_len(v, sz) {
        None
    } else {
        match (offset_get(v, sz, i), offset_get(v, sz, i + 1)) {
            (Some(start), Some(end)) => if start <= end <= data.len() {
                Some(data.subrange(start as int, end as int))
            } else {
                None
            },
            _ => None,
        }
    }
}

impl<'a> DataIndex<'a> {
    /// An INDEX with no objects.
    pub fn empty() -> (r: DataIndex<'a>)
        ensures
            r.data@ == Seq::<u8>::empty(),
            r.offsets.data@ == Seq::<u8>::empty(),
            r.offsets.offset_size == OffsetSize::Size1,
    {
        let e: &[u8] = &[];
        assert(e@ =~= Seq::<u8>::empty());
        DataIndex { data: e, offsets: VarOffsets { data: e, offset_size: OffsetSize::Size1 } }
    }

    /// The number of objects: one less than the number of offsets.
    pub fn len(&self) -> (r: u32)
        ensures
            r == (if offsets_len(self.offsets.data@, self.offsets.offset_size.size()) != 0 {
                offsets_len(self.offsets.data@, self.offsets.offset_size.size()) - 1
            } else {
                0
            }),
    {
        if !self.offsets.is_empty() {
            // The last offset points past the object data.
            self.offsets.len() - 1
        } else {
            0
        }
    }

    /// Returns object `index`.
    pub fn get(&self, index: u32) -> (r: Option<&'a [u8]>)
        ensures
            r is Some <==> index_get(self.data@, self.offsets.data@, self.offsets.offset_size.size(), index as int) is Some,
            r matches Some(b) ==> Some(b@) == index_get(
                self.data@,
                self.offsets.data@,
                self.offsets.offset_size.size(),
                index as int,
            ),
    {
        // Check for overflow first.
        if index == u32::MAX {
            return None;
        }
        if !(index + 1 < self.offsets.len()) {
            return None;
        }
        let start = match self.offsets.get(index) {
            Some(v) => v,
            None => return None,
        };
        let end = match self.offsets.get(index + 1) {
            Some(v) => v,
            None => return None,
        };
        if start <= end && (end as usize) <= self.data.len() {
            bytes_at(self.data, start as usize, (end - start) as usize)
        } else {
            None
        }
    }

    /// An iterator over the objects.
    pub fn iter(&self) -> (r: DataIndexIter<'a>)
        ensures
            r.data == *self,
            r.offset_index == 0,
    {
        DataIndexIter { data: *self, offset_index: 0 }
    }
}

/// A cursor over the objects of an INDEX.
pub struct DataIndexIter<'a> {
    pub data: DataIndex<'a>,
    pub offset_index: u32,
}

impl<'a> DataIndexIter<'a> {
    /// Returns the next object.
    pub fn next(&mut self) -> (r: Option<&'a [u8]>)
        ensures
            final(self).data == old(self).data,
            r matches Some(b) ==> Some(b@) == index_get(
                old(self).data.data@,
                old(self).data.offsets.data@,
                old(self).data.offsets.offset_size.size(),
                old(self).offset_index as int,
            ),
            r is None ==> old(self).offset_index == old(self).data.len_spec() || index_get(
                old(self).data.data@,
                old(self).data.offsets.data@,
                old(self).data.offsets.offset_size.size(),
                old(self).offset_index as int,
            ) is None,
    {
        if self.offset_index == self.data.len() {
            return None;
        }
        let index = self.offset_index;
        if self.offset_index < u32::MAX {
            self.offset_index = self.offset_index + 1;
        }
        self.data.get(index)
    }
}

impl<'a> DataIndex<'a> {
    pub open spec fn len_spec(self) -> int {
        if offsets_len(self.offsets.data@, self.offsets.offset_size.size()) != 0 {
            offsets_len(self.offsets.data@, self.offsets.offset_size.size()) - 1
        } else {
            0
        }
    }
}

/// The shape of an INDEX with `count` objects whose offset size byte is at
/// `p`: `(size, Some(data_len))`, or `(size, None)` when its last offset is
/// invalid and it reads as empty; `None` when it cannot be read.
pub open spec fn index_shape(d: Seq<u8>, p: int, count: int) -> Option<(int, Option<int>)> {
    if !in_bounds(d, p, 1) {
        None
    } else {
        match spec_offset_size(d[p]) {
            None => None,
            Some(os) => {
                let sz = os.size();
                let ol = (count + 1) * sz;
                if ol > u32::MAX || !in_bounds(d, p + 1, ol) {
                    None
                } else {
                    let last = key_at(d, p + 1, sz, sz, count);
                    if last == 0 {
                        Some((sz, None))
                    } else if !in_bounds(d, p + 1 + ol, last - 1) {
                        None
                    } else {
                        Some((sz, Some(last - 1)))
                    }
                }
            },
        }
    }
}

/// What parsing an INDEX at `p` gives and where the stream ends up.
pub open spec fn index_result(d: Seq<u8>, p: int, count: int, idx: DataIndex, end: int) -> bool {
    match index_shape(d, p, count) {
        None => false,
        Some((sz, None)) => idx.data@ == Seq::<u8>::empty() && idx.offsets.data@ == Seq::<u8>::empty()
            && idx.offsets.offset_size == OffsetSize::Size1 && end == p + 1 + (count + 1) * sz,
        Some((sz, Some(len))) => {
            let ol = (count + 1) * sz;
            idx.offsets.offset_size.size() == sz && idx.offsets.data@ == d.subrange(p + 1, p + 1 + ol)
                && idx.data@ == d.subrange(p + 1 + ol, p + 1 + ol + len) && end == p + 1 + ol + len
        },
    }
}

proof fn lemma_last_offset(d: Seq<u8>, p: int, count: int, sz: int, v: Seq<u8>)
    requires
        1 <= sz <= 4,
        0 <= count,
        0 <= p,
        (count + 1) * sz <= u32::MAX,
        in_bounds(d, p + 1, (count + 1) * sz),
        v == d.subrange(p + 1, p + 1 + (count + 1) * sz),
    ensures
        offsets_len(v, sz) == count + 1,
        in_bounds(v, count * sz, sz),
        key_at(v, 0, sz, sz, count) == key_at(d, p + 1, sz, sz, count),
{
    assert(((count + 1) * sz) / sz == count + 1) by (nonlinear_arith)
        requires
            1 <= sz,
            0 <= count,
    ;
    assert(count * sz + sz == (count + 1) * sz) by (nonlinear_arith);
    assert(0 <= count * sz) by (nonlinear_arith)
        requires
            0 <= count,
            1 <= sz,
    ;
    assert(v.len() as u32 == v.len());
}

/// Parses an INDEX with `count` objects, from the offset size byte on.
pub fn parse_index_impl<'a>(count: u32, s: &mut Stream<'a>) -> (r: Option<DataIndex<'a>>)
    requires
        count < u32::MAX,
    ensures
        final(s).bytes() == old(s).bytes(),
        r is None <==> index_shape(old(s).bytes(), old(s).pos(), count as int) is None,
        r matches Some(idx) ==> index_result(old(s).bytes(), old(s).pos(), count as int, idx, final(s).pos()),
{
    let ghost d = s.bytes();
    let ghost p = s.pos();
    let offset_size = match try_parse_offset_size(s) {
        Some(v) => v,
        None => return None,
    };
    let offsets_len = match (count + 1).checked_mul(offset_size.to_u32()) {
        Some(v) => v,
        None => return None,
    };
    let offsets_data = match s.read_bytes(offsets_len as usize) {
        Some(b) => b,
        None => return None,
    };
    let offsets = VarOffsets { data: offsets_data, offset_size };
    proof {
        lemma_last_offset(d, p, count as int, offset_size.size(), offsets_data@);
    }
    // The last offset gives the size of the object data.
    match offsets.last() {
        Some(last_offset) => {
            let data = match s.read_bytes(last_offset as usize) {
                Some(b) => b,
                None => return None,
            };
            Some(DataIndex { data, offsets })
        },
        None => Some(DataIndex::empty()),
    }
}

/// An INDEX read at `p`: offsets bytes, offset size, object data, and the
/// position after it; an empty INDEX when the count is zero or the last
/// offset is invalid.
pub open spec fn index_at(d: Seq<u8>, p: int) -> Option<(Seq<u8>, int, Seq<u8>, int)> {
    if !in_bounds(d, p, 2) {
        None
    } else {
        let count = crate::parser::u16_at(d, p) as int;
        if count == 0 {
            Some((Seq::empty(), 1, Seq::empty(), p + 2))
        } else {
            match index_shape(d, p + 2, count) {
                None => None,
                Some((sz, None)) => Some((Seq::empty(), 1, Seq::empty(), p + 3 + (count + 1) * sz)),
                Some((sz, Some(len))) => {
                    let ol = (count + 1) * sz;
                    Some((d.subrange(p + 3, p + 3 + ol), sz, d.subrange(p + 3 + ol, p + 3 + ol + len), p + 3 + ol + len))
                },
            }
        }
    }
}

/// The INDEX `idx` holds what `v` describes.
pub open spec fn index_matches(idx: DataIndex, v: (Seq<u8>, int, Seq<u8>, int)) -> bool {
    idx.offsets.data@ == v.0 && idx.offsets.offset_size.size() == v.1 && idx.data@ == v.2
}

/// Object `i` of an INDEX that `v` describes.
pub open spec fn index_object(v: (Seq<u8>, int, Seq<u8>, int), i: int) -> Option<Seq<u8>> {
    index_get(v.2, v.0, v.1, i)
}

/// The number of objects of an INDEX that `v` describes.
pub open spec fn index_len(v: (Seq<u8>, int, Seq<u8>, int)) -> int {
    if offsets_len(v.0, v.1) != 0 {
        offsets_len(v.0, v.1) - 1
    } else {
        0
    }
}

/// Parses an INDEX: a 16-bit count and, unless it is zero, the rest.
pub fn parse_index<'a>(s: &mut Stream<'a>) -> (r: Option<DataIndex<'a>>)
    ensures
        final(s).bytes() == old(s).bytes(),
        r is None <==> !in_bounds(old(s).bytes(), old(s).pos(), 2) || (crate::parser::u16_at(
            old(s).bytes(),
            old(s).pos(),
        ) != 0 && index_shape(
            old(s).bytes(),
            old(s).pos() + 2,
            crate::parser::u16_at(old(s).bytes(), old(s).pos()) as int,
        ) is None),
        r matches Some(idx) ==> if crate::parser::u16_at(old(s).bytes(), old(s).pos()) == 0 {
            idx.data@ == Seq::<u8>::empty() && idx.offsets.data@ == Seq::<u8>::empty() && final(s).pos() == old(s).pos() + 2
        } else {
            index_result(
                old(s).bytes(),
                old(s).pos() + 2,
                crate::parser::u16_at(old(s).bytes(), old(s).pos()) as int,
                idx,
                final(s).pos(),
            )
        },
        r is None <==> index_at(old(s).bytes(), old(s).pos()) is None,
        r matches Some(idx) ==> index_matches(idx, index_at(old(s).bytes(), old(s).pos()).unwrap())
            && final(s).pos() == index_at(old(s).bytes(), old(s).pos()).unwrap().3,
{
    let count = match s.read_u16() {
        Some(v) => v,
        None => return None,
    };
    if count != 0 {
        parse_index_impl(count as u32, s)
    } else {
        Some(DataIndex::empty())
    }
}

/// Where skipping an INDEX at `p` ends, if it can be read.
pub open spec fn skip_index_end(d: Seq<u8>, p: int) -> Option<int> {
    if !in_bounds(d, p, 2) {
        None
    } else if crate::parser::u16_at(d, p) == 0 {
        Some(p + 2)
    } else {
        let count = crate::parser::u16_at(d, p) as int;
        let q = p + 2;
        if !in_bounds(d, q, 1) {
            None
        } else {
            match spec_offset_size(d[q]) {
                None => None,
                Some(os) => {
                    let sz = os.size();
                    let ol = (count + 1) * sz;
                    if !in_bounds(d, q + 1, ol) {
                        None
                    } else {
                        let last = key_at(d, q + 1, sz, sz, count);
                        if last == 0 {
                            Some(q + 1 + ol)
                        } else {
                            let e = q + 1 + ol + last - 1;
                            Some(if e <= usize::MAX { e } else { usize::MAX as int })
                        }
                    }
                },
            }
        }
    }
}

/// Skips an INDEX without checking that its object data is present.
pub fn skip_index(s: &mut Stream) -> (r: Option<()>)
    ensures
        final(s).bytes() == old(s).bytes(),
        r is Some <==> skip_index_end(old(s).bytes(), old(s).pos()) is Some,
        r is Some ==> Some(final(s).pos()) == skip_index_end(old(s).bytes(), old(s).pos()),
{
    let ghost d = s.bytes();
    let ghost p = s.pos();
    let count = match s.read_u16() {
        Some(v) => v,
        None => return None,
    };
    if count != 0 {
        let offset_size = match try_parse_offset_size(s) {
            Some(v) => v,
            None => return None,
        };
        let offsets_len: u32 = (count as u32 + 1) * offset_size.to_u32();
        let offsets_data = match s.read_bytes(offsets_len as usize) {
            Some(b) => b,
            None => return None,
        };
        let offsets = VarOffsets { data: offsets_data, offset_size };
        proof {
            lemma_last_offset(d, p + 2, count as int, offset_size.size(), offsets_data@);
        }
        match offsets.last() {
            Some(last_offset) => s.advance(last_offset as usize),
            None => {},
        }
    }
    Some(())
}

} // verus!
