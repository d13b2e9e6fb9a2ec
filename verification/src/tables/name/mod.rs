//! A [Naming Table](https://docs.microsoft.com/en-us/typography/opentype/spec/name) implementation.

pub mod name_id;

use vstd::prelude::*;
use crate::parser::{in_bounds, u16_at, read_u16_at, bytes_at, Stream};

verus! {

/// A [platform ID](https://docs.microsoft.com/en-us/typography/opentype/spec/name#platform-ids).
#[derive(Clone, Copy, PartialEq, Eq, Structural, Debug)]
pub enum PlatformId {
    Unicode,
    Macintosh,
    Iso,
    Windows,
    Custom,
}

impl PlatformId {
    /// The numeric ID of the platform.
    pub open spec fn code(self) -> u16 {
        match self {
            PlatformId::Unicode => 0,
            PlatformId::Macintosh => 1,
            PlatformId::Iso => 2,
            PlatformId::Windows => 3,
            PlatformId::Custom => 4,
        }
    }

    /// The platform with the numeric ID `v`, if it is one of the five known.
    pub open spec fn spec_from(v: u16) -> Option<PlatformId> {
        if v == 0 {
            Some(PlatformId::Unicode)
        } else if v == 1 {
            Some(PlatformId::Macintosh)
        } else if v == 2 {
            Some(PlatformId::Iso)
        } else if v == 3 {
            Some(PlatformId::Windows)
        } else if v == 4 {
            Some(PlatformId::Custom)
        } else {
            None
        }
    }

    /// Converts a numeric platform ID.
    pub fn parse(v: u16) -> (r: Option<PlatformId>)
        ensures
            r == PlatformId::spec_from(v),
            r matches Some(p) ==> p.code() == v,
    {
        match v {
            0 => Some(PlatformId::Unicode),
            1 => Some(PlatformId::Macintosh),
            2 => Some(PlatformId::Iso),
            3 => Some(PlatformId::Windows),
            4 => Some(PlatformId::Custom),
            _ => None,
        }
    }
}

/// Unicode names: the Unicode platform, or Windows with the Symbol or the
/// Unicode BMP encoding.
pub open spec fn spec_is_unicode_encoding(platform_id: PlatformId, encoding_id: u16) -> bool {
    match platform_id {
        PlatformId::Unicode => true,
        PlatformId::Windows => encoding_id == 0 || encoding_id == 1,
        _ => false,
    }
}

// https://docs.microsoft.com/en-us/typography/opentype/spec/name#windows-encoding-ids
const WINDOWS_SYMBOL_ENCODING_ID: u16 = 0;
const WINDOWS_UNICODE_BMP_ENCODING_ID: u16 = 1;

fn is_unicode_encoding(platform_id: PlatformId, encoding_id: u16) -> (r: bool)
    ensures
        r == spec_is_unicode_encoding(platform_id, encoding_id),
{
    match platform_id {
        PlatformId::Unicode => true,
        PlatformId::Windows => encoding_id == WINDOWS_SYMBOL_ENCODING_ID || encoding_id
            == WINDOWS_UNICODE_BMP_ENCODING_ID,
        _ => false,
    }
}

/// A name record as stored in the table.
#[derive(Clone, Copy)]
pub struct NameRecord {
    pub platform_id: PlatformId,
    pub encoding_id: u16,
    pub language_id: u16,
    pub name_id: u16,
    pub length: u16,
    pub offset: u16,
}

/// The record stored in the 12 bytes at `off`, if its platform is known.
pub open spec fn spec_record(d: Seq<u8>, off: int) -> Option<NameRecord> {
    if !in_bounds(d, off, 12) {
        None
    } else {
        match PlatformId::spec_from(u16_at(d, off)) {
            None => None,
            Some(p) => Some(
                NameRecord {
                    platform_id: p,
                    encoding_id: u16_at(d, off + 2),
                    language_id: u16_at(d, off + 4),
                    name_id: u16_at(d, off + 6),
                    length: u16_at(d, off + 8),
                    offset: u16_at(d, off + 10),
                },
            ),
        }
    }
}

impl NameRecord {
    /// Parses a record at `off`.
    pub fn parse_at(data: &[u8], off: usize) -> (r: Option<NameRecord>)
        ensures
            r == spec_record(data@, off as int),
    {
        let mut s = match Stream::new_at(data, off) {
            Some(s) => s,
            None => return None,
        };
        let p = match s.read_u16() {
            Some(v) => v,
            None => return None,
        };
        let platform_id = match PlatformId::parse(p) {
            Some(v) => v,
            None => return None,
        };
        let encoding_id = match s.read_u16() {
            Some(v) => v,
            None => return None,
        };
        let language_id = match s.read_u16() {
            Some(v) => v,
            None => return None,
        };
        let name_id = match s.read_u16() {
            Some(v) => v,
            None => return None,
        };
        let length = match s.read_u16() {
            Some(v) => v,
            None => return None,
        };
        let offset = match s.read_u16() {
            Some(v) => v,
            None => return None,
        };
        Some(NameRecord { platform_id, encoding_id, language_id, name_id, length, offset })
    }
}

/// UTF-16 decoding: units outside the surrogate range are characters, a high
/// surrogate followed by a low one forms one character, and any other
/// surrogate is an error.
pub open spec fn decode_utf16(u: Seq<u16>) -> Option<Seq<char>>
    decreases u.len(),
{
    if u.len() == 0 {
        Some(Seq::empty())
    } else {
        let a = u[0] as int;
        if a < 0xD800 || a > 0xDFFF {
            match decode_utf16(u.subrange(1, u.len() as int)) {
                Some(rest) => Some(seq![a as char] + rest),
                None => None,
            }
        } else if a <= 0xDBFF && u.len() >= 2 && 0xDC00 <= u[1] <= 0xDFFF {
            let c = 0x10000 + (a - 0xD800) * 0x400 + (u[1] - 0xDC00);
            match decode_utf16(u.subrange(2, u.len() as int)) {
                Some(rest) => Some(seq![c as char] + rest),
                None => None,
            }
        } else {
            None
        }
    }
}

/// Calls `String::from_utf16`: its documentation promises the decoded string,
/// or an error when the input holds an unpaired surrogate. The contract states
/// that decoding as `decode_utf16`.
#[verifier::external_body]
fn string_from_utf16(units: &[u16]) -> (r: Option<String>)
    ensures
        r is Some <==> decode_utf16(units@) is Some,
        r matches Some(s) ==> s@ == decode_utf16(units@).unwrap(),
{
    String::from_utf16(units).ok()
}

/// The big-endian 16-bit units of `b`, ignoring a trailing odd byte.
pub open spec fn units_of(b: Seq<u8>) -> Seq<u16> {
    Seq::new((b.len() / 2) as nat, |i: int| u16_at(b, 2 * i))
}

/// A [Name Record](https://docs.microsoft.com/en-us/typography/opentype/spec/name#name-records).
#[derive(Clone, Copy)]
pub struct Name<'a> {
    pub data: NameRecord,
    pub strings: &'a [u8],
}

/// Every name of the Unicode platform is Unicode, and so is every Windows
/// name in the Symbol (0) or Unicode BMP (1) encoding: `to_string` decodes
/// their UTF-16BE bytes. Names of the other platforms and Windows names in
/// other encodings are not, and `to_string` gives nothing for them.
pub proof fn lemma_unicode_names(n: Name)
    ensures
        n.data.platform_id == PlatformId::Unicode ==> spec_is_unicode_encoding(
            n.data.platform_id,
            n.data.encoding_id,
        ),
        n.data.platform_id == PlatformId::Windows && (n.data.encoding_id == 0 || n.data.encoding_id
            == 1) ==> spec_is_unicode_encoding(n.data.platform_id, n.data.encoding_id),
        n.data.platform_id == PlatformId::Windows && n.data.encoding_id != 0 && n.data.encoding_id
            != 1 ==> !spec_is_unicode_encoding(n.data.platform_id, n.data.encoding_id),
        n.data.platform_id == PlatformId::Macintosh || n.data.platform_id == PlatformId::Iso
            || n.data.platform_id == PlatformId::Custom ==> !spec_is_unicode_encoding(
            n.data.platform_id,
            n.data.encoding_id,
        ),
{
}


/// The bytes of a name: `length` bytes at `offset` of the string storage,
/// or nothing when they are not all there.
pub open spec fn spec_name_bytes(rec: NameRecord, strings: Seq<u8>) -> Seq<u8> {
    if in_bounds(strings, rec.offset as int, rec.length as int) {
        strings.subrange(rec.offset as int, rec.offset + rec.length)
    } else {
        Seq::empty()
    }
}

impl<'a> Name<'a> {
    /// Returns the platform ID.
    pub fn platform_id(&self) -> (r: PlatformId)
        ensures
            r == self.data.platform_id,
    {
        self.data.platform_id
    }

    /// Returns the platform-specific encoding ID.
    pub fn encoding_id(&self) -> (r: u16)
        ensures
            r == self.data.encoding_id,
    {
        self.data.encoding_id
    }

    /// Returns the language ID.
    pub fn language_id(&self) -> (r: u16)
        ensures
            r == self.data.language_id,
    {
        self.data.language_id
    }

    /// Returns the [Name ID](https://docs.microsoft.com/en-us/typography/opentype/spec/name#name-ids).
    pub fn name_id(&self) -> (r: u16)
        ensures
            r == self.data.name_id,
    {
        self.data.name_id
    }

    /// Returns the name's data as bytes; empty when it lies outside the storage.
    pub fn name(&self) -> (r: &'a [u8])
        ensures
            r@ == spec_name_bytes(self.data, self.strings@),
    {
        match bytes_at(self.strings, self.data.offset as usize, self.data.length as usize) {
            Some(b) => b,
            None => {
                let empty: &[u8] = &[];
                assert(empty@ =~= Seq::<u8>::empty());
                empty
            },
        }
    }

    /// Checks that the name has a Unicode encoding.
    pub fn is_unicode(&self) -> (r: bool)
        ensures
            r == spec_is_unicode_encoding(self.data.platform_id, self.data.encoding_id),
    {
        is_unicode_encoding(self.platform_id(), self.encoding_id())
    }

    /// Returns the name as a string: only Unicode names, stored as UTF-16BE,
    /// are supported.
    pub fn to_string(&self) -> (r: Option<String>)
        ensures
            r is Some <==> spec_is_unicode_encoding(self.data.platform_id, self.data.encoding_id)
                && decode_utf16(units_of(spec_name_bytes(self.data, self.strings@))) is Some,
            r matches Some(s) ==> s@ == decode_utf16(
                units_of(spec_name_bytes(self.data, self.strings@)),
            ).unwrap(),
    {
        if self.is_unicode() {
            self.name_from_utf16_be()
        } else {
            None
        }
    }

    fn name_from_utf16_be(&self) -> (r: Option<String>)
        ensures
            r is Some <==> decode_utf16(units_of(spec_name_bytes(self.data, self.strings@))) is Some,
            r matches Some(s) ==> s@ == decode_utf16(
                units_of(spec_name_bytes(self.data, self.strings@)),
            ).unwrap(),
    {
        let bytes = self.name();
        let mut name: Vec<u16> = Vec::new();
        let n = bytes.len() / 2;
        let mut i: usize = 0;
        while i < n
            invariant
                n == bytes@.len() / 2,
                bytes@.len() == bytes.len(),
                0 <= i <= n,
                name@ == units_of(bytes@).subrange(0, i as int),
            decreases n - i,
        {
            let v = match read_u16_at(bytes, 2 * i) {
                Some(v) => v,
                None => return None,
            };
            name.push(v);
            i = i + 1;
            assert(name@ =~= units_of(bytes@).subrange(0, i as int));
        }
        assert(name@ =~= units_of(bytes@));
        string_from_utf16(name.as_slice())
    }
}

/// A cursor over the table's names.
#[derive(Clone, Copy)]
pub struct Names<'a> {
    pub names: &'a [u8],
    pub storage: &'a [u8],
    pub index: u16,
    pub total: u16,
}

impl<'a> Names<'a> {
    fn new(names: &'a [u8], storage: &'a [u8], total: u16) -> (r: Names<'a>)
        ensures
            r.names == names,
            r.storage == storage,
            r.index == 0,
            r.total == total,
    {
        Names { names, storage, index: 0, total }
    }

    /// Returns the next name; `None` once all are listed, or when a record
    /// is missing or has an unknown platform.
    pub fn next(&mut self) -> (r: Option<Name<'a>>)
        ensures
            final(self).names == old(self).names,
            final(self).storage == old(self).storage,
            final(self).total == old(self).total,
            old(self).index >= old(self).total ==> r is None && final(self).index == old(self).index,
            old(self).index < old(self).total ==> final(self).index == old(self).index + 1 && r == (
            match spec_record(old(self).names@, 12 * old(self).index) {
                Some(rec) => Some(Name { data: rec, strings: old(self).storage }),
                None => None,
            }),
    {
        if self.index < self.total {
            let index = self.index as usize;
            self.index = self.index + 1;
            match NameRecord::parse_at(self.names, 12 * index) {
                Some(rec) => Some(Name { data: rec, strings: self.storage }),
                None => None,
            }
        } else {
            None
        }
    }

    /// The number of names.
    pub fn count(&self) -> (r: usize)
        ensures
            r == self.total,
    {
        self.total as usize
    }
}

/// The name records and string storage of a `name` table: format 0, or
/// format 1 with its language tag records skipped.
pub open spec fn spec_parse(d: Seq<u8>) -> Option<(Seq<u8>, Seq<u8>, u16)> {
    let format = u16_at(d, 0);
    let count = u16_at(d, 2) as int;
    if !in_bounds(d, 0, 6) {
        None
    } else if format == 0 {
        if in_bounds(d, 6, 12 * count) {
            Some((d.subrange(6, 6 + 12 * count), d.subrange(6 + 12 * count, d.len() as int), count as u16))
        } else {
            None
        }
    } else if format == 1 {
        let tag_len = 4 * u16_at(d, 6) as int;
        if !in_bounds(d, 6, 2) || tag_len > 0xFFFF {
            None
        } else if in_bounds(d, 8 + tag_len, 12 * count) {
            Some((
                d.subrange(8 + tag_len, 8 + tag_len + 12 * count),
                d.subrange(8 + tag_len + 12 * count, d.len() as int),
                count as u16,
            ))
        } else {
            None
        }
    } else {
        None
    }
}

/// Parses the table's header; the names are read one by one through `Names::next`.
pub fn parse<'a>(data: &'a [u8]) -> (r: Option<Names<'a>>)
    ensures
        r matches Some(n) ==> spec_parse(data@) == Some((n.names@, n.storage@, n.total)) && n.index == 0,
        r is None <==> spec_parse(data@) is None,
{
    // https://docs.microsoft.com/en-us/typography/opentype/spec/name#naming-table-format-1
    let mut s = Stream::new(data);
    let format = match s.read_u16() {
        Some(v) => v,
        None => return None,
    };
    let count = match s.read_u16() {
        Some(v) => v,
        None => return None,
    };
    s.advance(2); // offset
    if format == 0 {
        if !(data.len() >= 6) {
            return None;
        }
        let names_data = match s.read_bytes(12 * count as usize) {
            Some(b) => b,
            None => return None,
        };
        let tail = match s.tail() {
            Some(t) => t,
            None => return None,
        };
        Some(Names::new(names_data, tail, count))
    } else if format == 1 {
        let lang_tag_count = match s.read_u16() {
            Some(v) => v,
            None => return None,
        };
        let lang_tag_len: u32 = lang_tag_count as u32 * 4;
        if lang_tag_len > 0xFFFF {
            return None;
        }
        s.advance(lang_tag_len as usize); // langTagRecords
        let names_data = match s.read_bytes(12 * count as usize) {
            Some(b) => b,
            None => return None,
        };
        let tail = match s.tail() {
            Some(t) => t,
            None => return None,
        };
        Some(Names::new(names_data, tail, count))
    } else {
        if !(data.len() >= 6) {
            return None;
        }
        None
    }
}

} // verus!
