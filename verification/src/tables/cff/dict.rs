//! CFF DICT data: operands and operators (Adobe Technical Note #5176,
//! chapter 4 and appendix H).

use vstd::prelude::*;
use crate::parser::{in_bounds, i16_at, i32_at, Stream};

verus! {

/// A DICT operator; two-byte operators `12 x` are numbered `1200 + x`.
#[derive(Clone, Copy, PartialEq, Eq, Structural, Debug)]
pub struct Operator(pub u16);

impl Operator {
    /// The operator number.
    pub fn get(self) -> (r: u16)
        ensures
            r == self.0,
    {
        self.0
    }
}

/// The bytes that are operators (or reserved) rather than operand starts.
pub open spec fn spec_is_op(b: u8) -> bool {
    b <= 27 || b == 31 || b == 255
}

/// Checks that a byte is a one-byte DICT operator (or reserved).
pub fn is_dict_one_byte_op(b: u8) -> (r: bool)
    ensures
        r == spec_is_op(b),
{
    match b {
        0..=27 => true,
        28..=30 => false, // numbers
        31 => true, // reserved
        32..=254 => false, // numbers
        255 => true, // reserved
    }
}

/// A position moved forward, saturating at the largest `usize`.
pub open spec fn sat(x: int) -> int {
    if x <= usize::MAX {
        x
    } else {
        usize::MAX as int
    }
}

/// A byte ends a real number when one of its nibbles is 0xF.
pub open spec fn ends_real(b: u8) -> bool {
    b / 16 == 15 || b % 16 == 15
}

/// The position after a real number's nibbles starting at `pos`.
pub open spec fn real_end(d: Seq<u8>, pos: int) -> int
    decreases d.len() - pos,
{
    if pos >= d.len() || pos < 0 {
        pos
    } else if ends_real(d[pos]) {
        pos + 1
    } else {
        real_end(d, pos + 1)
    }
}

proof fn lemma_real_end(d: Seq<u8>, pos: int)
    requires
        0 <= pos,
    ensures
        pos <= real_end(d, pos),
        pos <= d.len() ==> real_end(d, pos) <= d.len(),
    decreases d.len() - pos,
{
    if pos < d.len() && !ends_real(d[pos]) {
        lemma_real_end(d, pos + 1);
    }
}

/// Skips a real number's nibbles (its value is not needed).
fn skip_real(s: &mut Stream)
    ensures
        final(s).bytes() == old(s).bytes(),
        final(s).pos() == real_end(old(s).bytes(), old(s).pos()),
{
    let ghost d = s.bytes();
    let ghost p0 = s.pos();
    while !s.at_end()
        invariant
            s.bytes() == d,
            d == old(s).bytes(),
            p0 == old(s).pos(),
            p0 <= s.pos(),
            s.pos() <= d.len() || s.pos() == p0,
            real_end(d, p0) == real_end(d, s.pos()),
        decreases d.len() - s.pos(),
    {
        let b1 = match s.read_u8() {
            Some(v) => v,
            None => return,
        };
        if b1 / 16 == 15 || b1 % 16 == 15 {
            return;
        }
    }
}

/// Where the operand starting with `b0` ends, its first byte at `pos - 1`.
pub open spec fn spec_skip_number(b0: u8, d: Seq<u8>, pos: int) -> Option<int> {
    if b0 == 28 {
        Some(sat(pos + 2))
    } else if b0 == 29 {
        Some(sat(pos + 4))
    } else if b0 == 30 {
        Some(real_end(d, pos))
    } else if 32 <= b0 <= 246 {
        Some(pos)
    } else if 247 <= b0 <= 254 {
        Some(sat(pos + 1))
    } else {
        None
    }
}

/// The value of the operand starting with `b0` and where it ends
/// (Adobe Technical Note #5177, table 3). Real numbers read as 0.
pub open spec fn spec_number(b0: u8, d: Seq<u8>, pos: int) -> Option<(i32, int)> {
    if b0 == 28 {
        if in_bounds(d, pos, 2) {
            Some((i16_at(d, pos) as i32, pos + 2))
        } else {
            None
        }
    } else if b0 == 29 {
        if in_bounds(d, pos, 4) {
            Some((i32_at(d, pos), pos + 4))
        } else {
            None
        }
    } else if b0 == 30 {
        Some((0, real_end(d, pos)))
    } else if 32 <= b0 <= 246 {
        Some(((b0 - 139) as i32, pos))
    } else if 247 <= b0 <= 250 {
        if in_bounds(d, pos, 1) {
            Some((((b0 - 247) * 256 + d[pos] + 108) as i32, pos + 1))
        } else {
            None
        }
    } else if 251 <= b0 <= 254 {
        if in_bounds(d, pos, 1) {
            Some((((251 - b0) * 256 - d[pos] - 108) as i32, pos + 1))
        } else {
            None
        }
    } else {
        None
    }
}

/// Skipping an operand ends where parsing it does whenever parsing succeeds,
/// and skipping fails exactly on the first bytes that start no operand.
pub proof fn lemma_skip_agrees_with_parse(b0: u8, d: Seq<u8>, pos: int)
    requires
        d.len() <= usize::MAX,
    ensures
        spec_number(b0, d, pos) matches Some((_, q)) ==> spec_skip_number(b0, d, pos) == Some(q),
        spec_skip_number(b0, d, pos) is None <==> !(b0 == 28 || b0 == 29 || b0 == 30 || (32 <= b0
            && b0 <= 254)),
{
}

/// Parses an operand whose first byte `b0` was already read.
pub fn parse_number(b0: u8, s: &mut Stream) -> (r: Option<i32>)
    ensures
        final(s).bytes() == old(s).bytes(),
        r is Some <==> spec_number(b0, old(s).bytes(), old(s).pos()) is Some,
        r matches Some(v) ==> spec_number(b0, old(s).bytes(), old(s).pos()) == Some((v, final(s).pos())),
{
    match b0 {
        28 => {
            match s.read_i16() {
                Some(n) => Some(n as i32),
                None => None,
            }
        },
        29 => s.read_i32(),
        30 => {
            // Real numbers are skipped, their value is not used.
            skip_real(s);
            Some(0)
        },
        32..=246 => Some(b0 as i32 - 139),
        247..=250 => {
            match s.read_u8() {
                Some(b1) => Some((b0 as i32 - 247) * 256 + b1 as i32 + 108),
                None => None,
            }
        },
        251..=254 => {
            match s.read_u8() {
                Some(b1) => Some(-(b0 as i32 - 251) * 256 - b1 as i32 - 108),
                None => None,
            }
        },
        _ => None,
    }
}

/// Skips an operand whose first byte `b0` was already read.
pub fn skip_number(b0: u8, s: &mut Stream) -> (r: Option<()>)
    ensures
        final(s).bytes() == old(s).bytes(),
        r is Some <==> spec_skip_number(b0, old(s).bytes(), old(s).pos()) is Some,
        r is Some ==> spec_skip_number(b0, old(s).bytes(), old(s).pos()) == Some(final(s).pos()),
{
    match b0 {
        28 => s.advance(2),
        29 => s.advance(4),
        30 => skip_real(s),
        32..=246 => {},
        247..=250 => s.advance(1),
        251..=254 => s.advance(1),
        _ => return None,
    }
    Some(())
}

/// The next operator from `pos` on, skipping operands: the operator and the
/// position after it.
pub open spec fn scan_op(d: Seq<u8>, pos: int) -> Option<(u16, int)>
    decreases d.len() - pos,
{
    if pos < 0 || pos >= d.len() {
        None
    } else {
        let b = d[pos];
        if spec_is_op(b) {
            if b == 12 {
                if pos + 1 < d.len() {
                    Some(((1200 + d[pos + 1]) as u16, pos + 2))
                } else {
                    None
                }
            } else {
                Some((b as u16, pos + 1))
            }
        } else {
            match spec_skip_number(b, d, pos + 1) {
                None => None,
                Some(q) => if q >= d.len() || q <= pos {
                    None
                } else {
                    scan_op(d, q)
                },
            }
        }
    }
}

/// The operands from `pos` on, appended to `acc`: up to the next operator,
/// the end of the data, or 48 operands.
pub open spec fn operands_from(d: Seq<u8>, pos: int, acc: Seq<i32>) -> Option<Seq<i32>>
    decreases d.len() - pos,
{
    if pos < 0 || pos >= d.len() {
        Some(acc)
    } else {
        let b = d[pos];
        if spec_is_op(b) {
            Some(acc)
        } else {
            match spec_number(b, d, pos + 1) {
                None => None,
                Some((v, q)) => {
                    let acc2 = acc.push(v);
                    if acc2.len() >= 48 || q >= d.len() || q <= pos {
                        Some(acc2)
                    } else {
                        operands_from(d, q, acc2)
                    }
                },
            }
        }
    }
}

/// The operands of an operator whose operands start at `pos`.
pub open spec fn spec_operands(d: Seq<u8>, pos: int) -> Option<Seq<i32>> {
    if pos > d.len() {
        None
    } else {
        operands_from(d, pos, Seq::empty())
    }
}

/// A single non-negative operand, as an offset.
pub open spec fn offset_of(ops: Option<Seq<i32>>) -> Option<usize> {
    match ops {
        Some(v) => if v.len() == 1 && v[0] >= 0 {
            Some(v[0] as usize)
        } else {
            None
        },
        None => None,
    }
}

/// Two non-negative operands, size then offset, as a byte range.
pub open spec fn range_of(ops: Option<Seq<i32>>) -> Option<(usize, usize)> {
    match ops {
        Some(v) => if v.len() == 2 && v[0] >= 0 && v[1] >= 0 && v[1] + v[0] <= usize::MAX {
            Some((v[1] as usize, (v[1] + v[0]) as usize))
        } else {
            None
        },
        None => None,
    }
}

/// A DICT parser that finds operators first and parses their operands on demand.
pub struct DictionaryParser<'a> {
    pub data: &'a [u8],
    /// The current offset.
    pub offset: usize,
    /// Where the operands of the last operator start.
    pub operands_offset: usize,
    /// The parsed operands.
    pub operands: Vec<i32>,
}

impl<'a> DictionaryParser<'a> {
    pub fn new(data: &'a [u8]) -> (r: DictionaryParser<'a>)
        ensures
            r.data == data,
            r.offset == 0,
            r.operands_offset == 0,
            r.operands@.len() == 0,
    {
        DictionaryParser { data, offset: 0, operands_offset: 0, operands: Vec::new() }
    }

    /// Finds the next operator.
    pub fn parse_next(&mut self) -> (r: Option<Operator>)
        ensures
            final(self).data == old(self).data,
            old(self).offset > old(self).data@.len() ==> r is None && final(self).offset == old(self).offset
                && final(self).operands_offset == old(self).operands_offset,
            old(self).offset <= old(self).data@.len() ==> final(self).operands_offset == old(self).offset
                && match scan_op(old(self).data@, old(self).offset as int) {
                Some((op, q)) => r == Some(Operator(op)) && final(self).offset == q,
                None => r is None && final(self).offset == old(self).offset,
            },
    {
        let ghost d = self.data@;
        let mut s = match Stream::new_at(self.data, self.offset) {
            Some(s) => s,
            None => return None,
        };
        self.operands_offset = self.offset;
        let ghost start = self.offset as int;
        while !s.at_end()
            invariant
                s.bytes() == d,
                d == self.data@,
                self.data == old(self).data,
                old(self).offset as int == start,
                start <= d.len(),
                self.operands_offset as int == start,
                self.offset as int == start,
                start <= s.pos() <= d.len(),
                scan_op(d, start) == scan_op(d, s.pos()),
            decreases d.len() - s.pos(),
        {
            let p = s.offset();
            let b = match s.read_u8() {
                Some(v) => v,
                None => return None,
            };
            if is_dict_one_byte_op(b) {
                let mut operator = b as u16;
                // Two-byte operators get a 1200 prefix: 12 3 => 1203.
                if b == 12 {
                    let b1 = match s.read_u8() {
                        Some(v) => v,
                        None => return None,
                    };
                    operator = 1200 + b1 as u16;
                }
                self.offset = s.offset();
                return Some(Operator(operator));
            } else {
                match skip_number(b, &mut s) {
                    Some(_) => {},
                    None => return None,
                }
                if s.offset() <= p || s.offset() >= self.data.len() {
                    return None;
                }
            }
        }
        None
    }

    /// Parses the operands of the current operator.
    pub fn parse_operands(&mut self) -> (r: Option<()>)
        ensures
            final(self).data == old(self).data,
            final(self).offset == old(self).offset,
            final(self).operands_offset == old(self).operands_offset,
            r is Some <==> spec_operands(old(self).data@, old(self).operands_offset as int) is Some,
            r is Some ==> spec_operands(old(self).data@, old(self).operands_offset as int) == Some(
                final(self).operands@,
            ),
    {
        let ghost d = self.data@;
        let mut s = match Stream::new_at(self.data, self.operands_offset) {
            Some(s) => s,
            None => return None,
        };
        self.operands = Vec::new();
        let ghost start = self.operands_offset as int;
        assert(self.operands@ =~= Seq::<i32>::empty());
        while !s.at_end()
            invariant
                s.bytes() == d,
                d == self.data@,
                self.data == old(self).data,
                self.offset == old(self).offset,
                self.operands_offset == old(self).operands_offset,
                start == old(self).operands_offset as int,
                start <= d.len(),
                0 <= s.pos() <= d.len(),
                self.operands@.len() < 48,
                operands_from(d, start, Seq::empty()) == operands_from(d, s.pos(), self.operands@),
            decreases d.len() - s.pos(),
        {
            let p = s.offset();
            let b = match s.read_u8() {
                Some(v) => v,
                None => return None,
            };
            if is_dict_one_byte_op(b) {
                return Some(());
            } else {
                let ghost before = self.operands@;
                let op = match parse_number(b, &mut s) {
                    Some(v) => v,
                    None => return None,
                };
                self.operands.push(op);
                assert(self.operands@ == before.push(op));
                if self.operands.len() >= 48 || s.offset() <= p || s.offset() >= self.data.len() {
                    assert(operands_from(d, p as int, before) == Some(self.operands@));
                    return Some(());
                }
            }
        }
        Some(())
    }

    /// The current operands as an offset.
    pub fn parse_offset(&mut self) -> (r: Option<usize>)
        ensures
            final(self).data == old(self).data,
            final(self).offset == old(self).offset,
            r == offset_of(spec_operands(old(self).data@, old(self).operands_offset as int)),
    {
        match self.parse_operands() {
            Some(_) => {},
            None => return None,
        }
        if self.operands.len() == 1 && self.operands[0] >= 0 {
            Some(self.operands[0] as usize)
        } else {
            None
        }
    }

    /// The current operands as a byte range: size then offset.
    pub fn parse_range(&mut self) -> (r: Option<(usize, usize)>)
        ensures
            final(self).data == old(self).data,
            final(self).offset == old(self).offset,
            r == range_of(spec_operands(old(self).data@, old(self).operands_offset as int)),
    {
        match self.parse_operands() {
            Some(_) => {},
            None => return None,
        }
        if self.operands.len() == 2 && self.operands[0] >= 0 && self.operands[1] >= 0 {
            let len = self.operands[0] as usize;
            let start = self.operands[1] as usize;
            match start.checked_add(len) {
                Some(end) => Some((start, end)),
                None => None,
            }
        } else {
            None
        }
    }
}

} // verus!
