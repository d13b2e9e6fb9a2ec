//! Big-endian binary reading primitives.
//!
//! All multi-byte values in OpenType are stored in big-endian order. The spec
//! functions here define what a value "at offset `i` of the byte sequence `d`"
//! is; every reader in the crate is stated in their terms.

use vstd::prelude::*;
use vstd::slice::slice_subrange;

verus! {

/// `len` bytes starting at `off` lie inside `d`.
pub open spec fn in_bounds(d: Seq<u8>, off: int, len: int) -> bool {
    0 <= off && 0 <= len && off + len <= d.len()
}

pub open spec fn u8_at(d: Seq<u8>, i: int) -> u8 {
    d[i]
}

pub open spec fn i8_at(d: Seq<u8>, i: int) -> i8 {
    if d[i] >= 0x80 {
        (d[i] as int - 0x100) as i8
    } else {
        d[i] as i8
    }
}

/// The big-endian number that the two bytes at `i` spell, as an integer.
pub open spec fn be_u16(d: Seq<u8>, i: int) -> int {
    d[i] * 256 + d[i + 1]
}

/// The big-endian number that the four bytes at `i` spell, as an integer.
pub open spec fn be_u32(d: Seq<u8>, i: int) -> int {
    d[i] * 16777216 + d[i + 1] * 65536 + d[i + 2] * 256 + d[i + 3]
}

pub open spec fn u16_at(d: Seq<u8>, i: int) -> u16 {
    (d[i] as int * 0x100 + d[i + 1] as int) as u16
}

/// Two's complement reinterpretation of a 16-bit value.
pub open spec fn to_i16(u: u16) -> i16 {
    if u >= 0x8000 {
        (u as int - 0x10000) as i16
    } else {
        u as i16
    }
}

pub open spec fn i16_at(d: Seq<u8>, i: int) -> i16 {
    to_i16(u16_at(d, i))
}

pub open spec fn u24_at(d: Seq<u8>, i: int) -> u32 {
    (d[i] as int * 0x10000 + d[i + 1] as int * 0x100 + d[i + 2] as int) as u32
}

pub open spec fn u32_at(d: Seq<u8>, i: int) -> u32 {
    (d[i] as int * 0x1000000 + d[i + 1] as int * 0x10000 + d[i + 2] as int * 0x100
        + d[i + 3] as int) as u32
}

pub open spec fn i32_at(d: Seq<u8>, i: int) -> i32 {
    let u = u32_at(d, i) as int;
    if u >= 0x8000_0000 {
        (u - 0x1_0000_0000) as i32
    } else {
        u as i32
    }
}

/// The value read at `off`, or `None` when the bytes are not there.
pub open spec fn opt_u16_at(d: Seq<u8>, off: int) -> Option<u16> {
    if in_bounds(d, off, 2) {
        Some(u16_at(d, off))
    } else {
        None
    }
}

pub open spec fn opt_i16_at(d: Seq<u8>, off: int) -> Option<i16> {
    if in_bounds(d, off, 2) {
        Some(i16_at(d, off))
    } else {
        None
    }
}

pub open spec fn opt_u32_at(d: Seq<u8>, off: int) -> Option<u32> {
    if in_bounds(d, off, 4) {
        Some(u32_at(d, off))
    } else {
        None
    }
}

/// The value read at `off`, or zero when the bytes are not there.
pub open spec fn i16_or_zero(d: Seq<u8>, off: int) -> i16 {
    if in_bounds(d, off, 2) {
        i16_at(d, off)
    } else {
        0
    }
}

pub open spec fn u16_or_zero(d: Seq<u8>, off: int) -> u16 {
    if in_bounds(d, off, 2) {
        u16_at(d, off)
    } else {
        0
    }
}

/// Reinterprets a 16-bit value as signed.
pub fn u16_to_i16(u: u16) -> (r: i16)
    ensures
        r == to_i16(u),
{
    if u >= 0x8000 {
        (u as i32 - 0x10000) as i16
    } else {
        u as i16
    }
}

/// Reads a `u8` at an absolute offset.
pub fn read_u8_at(data: &[u8], off: usize) -> (r: Option<u8>)
    ensures
        r == (if in_bounds(data@, off as int, 1) { Some(u8_at(data@, off as int)) } else { None }),
{
    if off < data.len() {
        Some(data[off])
    } else {
        None
    }
}

/// Reads a big-endian `u16` at an absolute offset.
pub fn read_u16_at(data: &[u8], off: usize) -> (r: Option<u16>)
    ensures
        r == opt_u16_at(data@, off as int),
{
    if off < data.len() && data.len() - off >= 2 {
        let b0 = data[off];
        let b1 = data[off + 1];
        Some(b0 as u16 * 0x100 + b1 as u16)
    } else {
        None
    }
}

/// Reads a big-endian `i16` at an absolute offset.
pub fn read_i16_at(data: &[u8], off: usize) -> (r: Option<i16>)
    ensures
        r == opt_i16_at(data@, off as int),
{
    match read_u16_at(data, off) {
        Some(u) => Some(u16_to_i16(u)),
        None => None,
    }
}

/// Reads a big-endian `i32` at an absolute offset.
pub fn read_i32_at(data: &[u8], off: usize) -> (r: Option<i32>)
    ensures
        r == (if in_bounds(data@, off as int, 4) { Some(i32_at(data@, off as int)) } else { None }),
{
    match read_u32_at(data, off) {
        Some(u) => if u >= 0x8000_0000 {
            Some((u as i64 - 0x1_0000_0000) as i32)
        } else {
            Some(u as i32)
        },
        None => None,
    }
}

/// Reads a big-endian 24-bit number at an absolute offset.
pub fn read_u24_at(data: &[u8], off: usize) -> (r: Option<u32>)
    ensures
        r == (if in_bounds(data@, off as int, 3) { Some(u24_at(data@, off as int)) } else { None }),
{
    if off < data.len() && data.len() - off >= 3 {
        let b0 = data[off];
        let b1 = data[off + 1];
        let b2 = data[off + 2];
        Some(b0 as u32 * 0x10000 + b1 as u32 * 0x100 + b2 as u32)
    } else {
        None
    }
}

/// Reads a big-endian `u32` at an absolute offset.
pub fn read_u32_at(data: &[u8], off: usize) -> (r: Option<u32>)
    ensures
        r == opt_u32_at(data@, off as int),
{
    if off < data.len() && data.len() - off >= 4 {
        let b0 = data[off];
        let b1 = data[off + 1];
        let b2 = data[off + 2];
        let b3 = data[off + 3];
        Some(b0 as u32 * 0x1000000 + b1 as u32 * 0x10000 + b2 as u32 * 0x100 + b3 as u32)
    } else {
        None
    }
}

/// Returns the bytes of `data` from `start` to its end.
pub fn tail_from<'a>(data: &'a [u8], start: usize) -> (r: Option<&'a [u8]>)
    ensures
        r matches Some(t) ==> start <= data@.len() && t@ == data@.subrange(start as int, data@.len() as int),
        r is None <==> start > data@.len(),
{
    if start <= data.len() {
        Some(slice_subrange(data, start, data.len()))
    } else {
        None
    }
}

/// The bytes that a 16-bit offset stored at `pos` points to: from the offset
/// to the end of `d`.
pub open spec fn at_offset16(d: Seq<u8>, pos: int) -> Option<Seq<u8>> {
    if in_bounds(d, pos, 2) && u16_at(d, pos) <= d.len() {
        Some(d.subrange(u16_at(d, pos) as int, d.len() as int))
    } else {
        None
    }
}

/// Follows the 16-bit offset stored at `pos` of `data`.
pub fn read_at_offset16<'a>(data: &'a [u8], pos: usize) -> (r: Option<&'a [u8]>)
    ensures
        r matches Some(t) ==> at_offset16(data@, pos as int) == Some(t@),
        r is None <==> at_offset16(data@, pos as int) is None,
{
    match read_u16_at(data, pos) {
        Some(off) => tail_from(data, off as usize),
        None => None,
    }
}

/// Returns `len` bytes of `data` from `start`.
pub fn bytes_at<'a>(data: &'a [u8], start: usize, len: usize) -> (r: Option<&'a [u8]>)
    ensures
        r matches Some(t) ==> in_bounds(data@, start as int, len as int) && t@ == data@.subrange(start as int, start + len),
        r is None <==> !in_bounds(data@, start as int, len as int),
{
    if start <= data.len() && len <= data.len() - start {
        Some(slice_subrange(data, start, start + len))
    } else {
        None
    }
}

/// The key of entry `i` of a table of `stride`-byte records starting at `off`,
/// read as a big-endian number of `width` bytes at the start of the record.
pub open spec fn key_at(d: Seq<u8>, off: int, stride: int, width: int, i: int) -> int {
    let p = off + i * stride;
    if width == 1 {
        d[p] as int
    } else if width == 2 {
        u16_at(d, p) as int
    } else if width == 3 {
        u24_at(d, p) as int
    } else {
        u32_at(d, p) as int
    }
}

/// The halving loop of a binary search: `base` and `size` delimit the candidates.
pub open spec fn bs_loop(
    d: Seq<u8>,
    off: int,
    stride: int,
    width: int,
    needle: int,
    base: int,
    size: int,
) -> int
    decreases size,
{
    if size <= 1 {
        base
    } else {
        let half = size / 2;
        let mid = base + half;
        let next = if key_at(d, off, stride, width, mid) > needle {
            base
        } else {
            mid
        };
        bs_loop(d, off, stride, width, needle, next, size - half)
    }
}

/// The index a binary search over `count` records finds for `needle`, if any.
pub open spec fn bsearch(d: Seq<u8>, off: int, count: int, stride: int, width: int, needle: int) -> Option<int> {
    if count <= 0 {
        None
    } else {
        let b = bs_loop(d, off, stride, width, needle, 0, count);
        if key_at(d, off, stride, width, b) == needle {
            Some(b)
        } else {
            None
        }
    }
}

/// The records' keys are strictly ascending.
pub open spec fn keys_sorted(d: Seq<u8>, off: int, count: int, stride: int, width: int) -> bool {
    forall|i: int, j: int|
        0 <= i < j < count ==> #[trigger] key_at(d, off, stride, width, i) < #[trigger] key_at(
            d,
            off,
            stride,
            width,
            j,
        )
}

pub proof fn lemma_record_in_bounds(off: int, count: int, stride: int, i: int, len: int)
    requires
        0 <= i < count,
        0 <= stride,
        0 <= off,
        off + count * stride <= len,
    ensures
        off + i * stride + stride <= len,
        0 <= i * stride,
{
    assert(i * stride + stride <= count * stride) by (nonlinear_arith)
        requires
            0 <= i < count,
            0 <= stride,
    ;
    assert(0 <= i * stride) by (nonlinear_arith)
        requires
            0 <= i,
            0 <= stride,
    ;
}

/// Reads a `width`-byte big-endian key at `pos`.
pub fn read_key(data: &[u8], pos: usize, width: usize) -> (r: u32)
    requires
        1 <= width <= 4,
        in_bounds(data@, pos as int, width as int),
    ensures
        r as int == (if width == 1 {
            data@[pos as int] as int
        } else if width == 2 {
            u16_at(data@, pos as int) as int
        } else if width == 3 {
            u24_at(data@, pos as int) as int
        } else {
            u32_at(data@, pos as int) as int
        }),
{
    if width == 1 {
        data[pos] as u32
    } else if width == 2 {
        let b0 = data[pos];
        let b1 = data[pos + 1];
        b0 as u32 * 0x100 + b1 as u32
    } else if width == 3 {
        let b0 = data[pos];
        let b1 = data[pos + 1];
        let b2 = data[pos + 2];
        b0 as u32 * 0x10000 + b1 as u32 * 0x100 + b2 as u32
    } else {
        let b0 = data[pos];
        let b1 = data[pos + 1];
        let b2 = data[pos + 2];
        let b3 = data[pos + 3];
        b0 as u32 * 0x1000000 + b1 as u32 * 0x10000 + b2 as u32 * 0x100 + b3 as u32
    }
}

/// Binary search over `count` records of `stride` bytes at `off`, comparing the
/// record's leading `width`-byte key with `needle`.
pub fn binary_search(
    data: &[u8],
    off: usize,
    count: u32,
    stride: usize,
    width: usize,
    needle: u32,
) -> (r: Option<u32>)
    requires
        2 <= width <= 4,
        width <= stride,
        in_bounds(data@, off as int, count * stride),
    ensures
        r == (match bsearch(data@, off as int, count as int, stride as int, width as int, needle as int) {
            Some(i) => Some(i as u32),
            None => None,
        }),
        r matches Some(i) ==> i < count,
        bsearch(data@, off as int, count as int, stride as int, width as int, needle as int) matches Some(i)
            ==> 0 <= i < count,
{
    if count == 0 {
        return None;
    }
    proof {
        lemma_bs_loop_range(data@, off as int, stride as int, width as int, needle as int, 0, count as int);
    }
    let mut size: u32 = count;
    let mut base: u32 = 0;
    while size > 1
        invariant
            2 <= width <= 4,
            width <= stride,
            in_bounds(data@, off as int, count * stride),
            1 <= size,
            base + size <= count,
            bs_loop(data@, off as int, stride as int, width as int, needle as int, 0, count as int)
                == bs_loop(data@, off as int, stride as int, width as int, needle as int, base as int, size as int),
        decreases size,
    {
        let half = size / 2;
        let mid = base + half;
        proof {
            lemma_record_in_bounds(off as int, count as int, stride as int, mid as int, data@.len() as int);
            assert(data@.len() == data.len());
        }
        let pos = off + mid as usize * stride;
        let k = read_key(data, pos, width);
        if k > needle {
            size = size - half;
        } else {
            base = mid;
            size = size - half;
        }
    }
    proof {
        lemma_record_in_bounds(off as int, count as int, stride as int, base as int, data@.len() as int);
        assert(data@.len() == data.len());
    }
    let pos = off + base as usize * stride;
    let k = read_key(data, pos, width);
    if k == needle {
        Some(base)
    } else {
        None
    }
}

/// Over keys sorted in strictly ascending order, a binary search for the key
/// of entry `t` reports entry `t`.
pub proof fn lemma_bsearch_finds(d: Seq<u8>, off: int, count: int, stride: int, width: int, t: int)
    requires
        keys_sorted(d, off, count, stride, width),
        0 <= t < count,
    ensures
        bsearch(d, off, count, stride, width, key_at(d, off, stride, width, t)) == Some(t),
{
    lemma_bs_loop_finds(d, off, count, stride, width, key_at(d, off, stride, width, t), 0, count, t);
}

/// A binary search only reports an entry inside the table.
pub proof fn lemma_bsearch_range(d: Seq<u8>, off: int, count: int, stride: int, width: int, needle: int)
    ensures
        bsearch(d, off, count, stride, width, needle) matches Some(i) ==> 0 <= i < count,
{
    if count > 0 {
        lemma_bs_loop_range(d, off, stride, width, needle, 0, count);
    }
}

/// Whatever the data, a binary search only reports an entry whose key is the needle.
pub proof fn lemma_bsearch_sound(d: Seq<u8>, off: int, count: int, stride: int, width: int, needle: int)
    ensures
        bsearch(d, off, count, stride, width, needle) matches Some(i) ==> key_at(d, off, stride, width, i) == needle,
{
}

proof fn lemma_bs_loop_range(d: Seq<u8>, off: int, stride: int, width: int, needle: int, base: int, size: int)
    requires
        1 <= size,
        0 <= base,
    ensures
        base <= bs_loop(d, off, stride, width, needle, base, size) < base + size,
    decreases size,
{
    if size > 1 {
        let half = size / 2;
        let mid = base + half;
        let next = if key_at(d, off, stride, width, mid) > needle { base } else { mid };
        lemma_bs_loop_range(d, off, stride, width, needle, next, size - half);
    }
}

proof fn lemma_bs_loop_finds(
    d: Seq<u8>,
    off: int,
    count: int,
    stride: int,
    width: int,
    needle: int,
    base: int,
    size: int,
    t: int,
)
    requires
        keys_sorted(d, off, count, stride, width),
        1 <= size,
        0 <= base,
        base + size <= count,
        base <= t < base + size,
        key_at(d, off, stride, width, t) == needle,
    ensures
        bs_loop(d, off, stride, width, needle, base, size) == t,
    decreases size,
{
    if size > 1 {
        let half = size / 2;
        let mid = base + half;
        if key_at(d, off, stride, width, mid) > needle {
            if t >= mid {
                if t > mid {
                    assert(key_at(d, off, stride, width, mid) < key_at(d, off, stride, width, t));
                }
            }
            lemma_bs_loop_finds(d, off, count, stride, width, needle, base, size - half, t);
        } else {
            if t < mid {
                assert(key_at(d, off, stride, width, t) < key_at(d, off, stride, width, mid));
            }
            lemma_bs_loop_finds(d, off, count, stride, width, needle, mid, size - half, t);
        }
    }
}

/// On records with strictly ascending keys, the binary search finds every key
/// that is present: it agrees with a linear scan.
pub proof fn lemma_bsearch_complete(d: Seq<u8>, off: int, count: int, stride: int, width: int, needle: int)
    requires
        keys_sorted(d, off, count, stride, width),
    ensures
        bsearch(d, off, count, stride, width, needle) is Some <==> exists|t: int|
            0 <= t < count && #[trigger] key_at(d, off, stride, width, t) == needle,
{
    if exists|t: int| 0 <= t < count && #[trigger] key_at(d, off, stride, width, t) == needle {
        let t = choose|t: int| 0 <= t < count && #[trigger] key_at(d, off, stride, width, t) == needle;
        lemma_bs_loop_finds(d, off, count, stride, width, needle, 0, count, t);
    }
    if count > 0 {
        lemma_bs_loop_range(d, off, stride, width, needle, 0, count);
    }
}

/// A forward reading cursor over a byte slice.
#[derive(Clone, Copy)]
pub struct Stream<'a> {
    pub data: &'a [u8],
    pub offset: usize,
}

impl<'a> Stream<'a> {
    /// The bytes this stream reads from.
    pub open spec fn bytes(&self) -> Seq<u8> {
        self.data@
    }

    /// The current position.
    pub open spec fn pos(&self) -> int {
        self.offset as int
    }

    /// Creates a stream at the start of `data`.
    pub fn new(data: &'a [u8]) -> (s: Stream<'a>)
        ensures
            s.bytes() == data@,
            s.pos() == 0,
    {
        Stream { data, offset: 0 }
    }

    /// Creates a stream at `offset`; fails when the offset lies past the end.
    pub fn new_at(data: &'a [u8], offset: usize) -> (r: Option<Stream<'a>>)
        ensures
            r matches Some(s) ==> s.bytes() == data@ && s.pos() == offset,
            r is None <==> offset > data@.len(),
    {
        if offset <= data.len() {
            Some(Stream { data, offset })
        } else {
            None
        }
    }

    /// The current position.
    pub fn offset(&self) -> (r: usize)
        ensures
            r == self.pos(),
    {
        self.offset
    }

    /// Checks that the position reached the end of the data.
    pub fn at_end(&self) -> (r: bool)
        ensures
            r == (self.pos() >= self.bytes().len()),
    {
        self.offset >= self.data.len()
    }

    /// Moves the position forward; it saturates instead of wrapping around.
    pub fn advance(&mut self, len: usize)
        ensures
            final(self).bytes() == old(self).bytes(),
            final(self).pos() == (if old(self).pos() + len <= usize::MAX {
                old(self).pos() + len
            } else {
                usize::MAX as int
            }),
    {
        self.offset = self.offset.saturating_add(len);
    }

    /// Moves the position forward when the result stays inside the data.
    pub fn advance_checked(&mut self, len: usize) -> (r: Option<()>)
        ensures
            final(self).bytes() == old(self).bytes(),
            r is Some <==> in_bounds(old(self).bytes(), old(self).pos(), len as int),
            r is Some ==> final(self).pos() == old(self).pos() + len,
            r is None ==> final(self).pos() == old(self).pos(),
    {
        if self.offset <= self.data.len() && len <= self.data.len() - self.offset {
            self.offset = self.offset + len;
            Some(())
        } else {
            None
        }
    }

    /// The rest of the data, from the current position.
    pub fn tail(&self) -> (r: Option<&'a [u8]>)
        ensures
            r matches Some(t) ==> self.pos() <= self.bytes().len() && t@ == self.bytes().subrange(
                self.pos(),
                self.bytes().len() as int,
            ),
            r is None <==> self.pos() > self.bytes().len(),
    {
        tail_from(self.data, self.offset)
    }

    /// Reads `len` raw bytes.
    pub fn read_bytes(&mut self, len: usize) -> (r: Option<&'a [u8]>)
        ensures
            final(self).bytes() == old(self).bytes(),
            r is Some <==> in_bounds(old(self).bytes(), old(self).pos(), len as int),
            r matches Some(t) ==> t@ == old(self).bytes().subrange(
                old(self).pos(),
                old(self).pos() + len,
            ) && final(self).pos() == old(self).pos() + len,
            r is None ==> final(self).pos() == old(self).pos(),
    {
        match bytes_at(self.data, self.offset, len) {
            Some(b) => {
                assert(self.data@.len() == self.data.len());
                self.offset = self.offset + len;
                Some(b)
            },
            None => None,
        }
    }


    /// Reads `count` records of `size` bytes as raw bytes.
    pub fn read_array(&mut self, count: u32, size: usize) -> (r: Option<&'a [u8]>)
        ensures
            final(self).bytes() == old(self).bytes(),
            r is Some <==> in_bounds(old(self).bytes(), old(self).pos(), count * size),
            r matches Some(t) ==> t@ == old(self).bytes().subrange(
                old(self).pos(),
                old(self).pos() + count * size,
            ) && final(self).pos() == old(self).pos() + count * size,
            r is None ==> final(self).pos() == old(self).pos(),
    {
        match (count as usize).checked_mul(size) {
            Some(len) => self.read_bytes(len),
            None => {
                assert(self.data@.len() == self.data.len());
                None
            },
        }
    }

    /// Reads a `u8`.
    pub fn read_u8(&mut self) -> (r: Option<u8>)
        ensures
            final(self).bytes() == old(self).bytes(),
            r is Some <==> in_bounds(old(self).bytes(), old(self).pos(), 1),
            r matches Some(v) ==> v == u8_at(old(self).bytes(), old(self).pos())
                && final(self).pos() == old(self).pos() + 1,
            r is None ==> final(self).pos() == old(self).pos(),
    {
        match read_u8_at(self.data, self.offset) {
            Some(v) => {
                assert(self.data@.len() == self.data.len());
                self.offset = self.offset + 1;
                Some(v)
            },
            None => None,
        }
    }

    /// Reads an `i8`.
    pub fn read_i8(&mut self) -> (r: Option<i8>)
        ensures
            final(self).bytes() == old(self).bytes(),
            r is Some <==> in_bounds(old(self).bytes(), old(self).pos(), 1),
            r matches Some(v) ==> v == i8_at(old(self).bytes(), old(self).pos())
                && final(self).pos() == old(self).pos() + 1,
            r is None ==> final(self).pos() == old(self).pos(),
    {
        match self.read_u8() {
            Some(v) => {
                if v >= 0x80 {
                    Some((v as i16 - 0x100) as i8)
                } else {
                    Some(v as i8)
                }
            },
            None => None,
        }
    }

    /// Reads a big-endian `u16`.
    pub fn read_u16(&mut self) -> (r: Option<u16>)
        ensures
            final(self).bytes() == old(self).bytes(),
            r is Some <==> in_bounds(old(self).bytes(), old(self).pos(), 2),
            r matches Some(v) ==> v == u16_at(old(self).bytes(), old(self).pos())
                && final(self).pos() == old(self).pos() + 2,
            r is None ==> final(self).pos() == old(self).pos(),
    {
        match read_u16_at(self.data, self.offset) {
            Some(v) => {
                assert(self.data@.len() == self.data.len());
                self.offset = self.offset + 2;
                Some(v)
            },
            None => None,
        }
    }

    /// Reads a big-endian `i16`.
    pub fn read_i16(&mut self) -> (r: Option<i16>)
        ensures
            final(self).bytes() == old(self).bytes(),
            r is Some <==> in_bounds(old(self).bytes(), old(self).pos(), 2),
            r matches Some(v) ==> v == i16_at(old(self).bytes(), old(self).pos())
                && final(self).pos() == old(self).pos() + 2,
            r is None ==> final(self).pos() == old(self).pos(),
    {
        match self.read_u16() {
            Some(v) => Some(u16_to_i16(v)),
            None => None,
        }
    }

    /// Reads a big-endian 24-bit unsigned value.
    pub fn read_u24(&mut self) -> (r: Option<u32>)
        ensures
            final(self).bytes() == old(self).bytes(),
            r is Some <==> in_bounds(old(self).bytes(), old(self).pos(), 3),
            r matches Some(v) ==> v == u24_at(old(self).bytes(), old(self).pos())
                && final(self).pos() == old(self).pos() + 3,
            r is None ==> final(self).pos() == old(self).pos(),
    {
        if self.offset < self.data.len() && self.data.len() - self.offset >= 3 {
            let b0 = self.data[self.offset];
            let b1 = self.data[self.offset + 1];
            let b2 = self.data[self.offset + 2];
            self.offset = self.offset + 3;
            Some(b0 as u32 * 0x10000 + b1 as u32 * 0x100 + b2 as u32)
        } else {
            None
        }
    }

    /// Reads a big-endian `u32`.
    pub fn read_u32(&mut self) -> (r: Option<u32>)
        ensures
            final(self).bytes() == old(self).bytes(),
            r is Some <==> in_bounds(old(self).bytes(), old(self).pos(), 4),
            r matches Some(v) ==> v == u32_at(old(self).bytes(), old(self).pos())
                && final(self).pos() == old(self).pos() + 4,
            r is None ==> final(self).pos() == old(self).pos(),
    {
        match read_u32_at(self.data, self.offset) {
            Some(v) => {
                assert(self.data@.len() == self.data.len());
                self.offset = self.offset + 4;
                Some(v)
            },
            None => None,
        }
    }

    /// Reads a big-endian `i32`.
    pub fn read_i32(&mut self) -> (r: Option<i32>)
        ensures
            final(self).bytes() == old(self).bytes(),
            r is Some <==> in_bounds(old(self).bytes(), old(self).pos(), 4),
            r matches Some(v) ==> v == i32_at(old(self).bytes(), old(self).pos())
                && final(self).pos() == old(self).pos() + 4,
            r is None ==> final(self).pos() == old(self).pos(),
    {
        match self.read_u32() {
            Some(v) => {
                if v >= 0x8000_0000 {
                    Some((v as i64 - 0x1_0000_0000) as i32)
                } else {
                    Some(v as i32)
                }
            },
            None => None,
        }
    }
}

} // verus!
