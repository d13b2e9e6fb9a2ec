use ttf_tables::GlyphId;
use ttf_tables::parser::Stream;
use ttf_tables::tables::name::{self, PlatformId};
use ttf_tables::tables::os2::{self, Weight, Width};
use ttf_tables::tables::cff::{self, calc_subroutine_bias, IsEven};
use ttf_tables::tables::cff::index::parse_index;
use ttf_tables::tables::cff::charset::{Charset, StringId};

fn name_table() -> Vec<u8> {
    let mut d = vec![
        0x00, 0x00, // format 0
        0x00, 0x02, // two records
        0x00, 0x1E, // strings at 30
        // Windows, Unicode BMP, en-US, family name: 4 bytes at 0
        0x00, 0x03, 0x00, 0x01, 0x04, 0x09, 0x00, 0x01, 0x00, 0x04, 0x00, 0x00,
        // Macintosh, Roman, English, subfamily: 3 bytes at 4
        0x00, 0x01, 0x00, 0x00, 0x00, 0x00, 0x00, 0x02, 0x00, 0x03, 0x00, 0x04,
    ];
    d.extend_from_slice(&[0x00, b'H', 0x00, b'i']);
    d.extend_from_slice(b"Bld");
    d
}

#[test]
fn name_records_and_strings() {
    let data = name_table();
    let mut names = name::parse(&data).unwrap();
    assert_eq!(names.count(), 2);
    let n = names.next().unwrap();
    assert_eq!(n.platform_id(), PlatformId::Windows);
    assert_eq!(n.encoding_id(), 1);
    assert_eq!(n.language_id(), 0x0409);
    assert_eq!(n.name_id(), 1);
    assert!(n.is_unicode());
    assert_eq!(n.name(), &[0x00, b'H', 0x00, b'i'][..]);
    assert_eq!(n.to_string(), Some(String::from("Hi")));
    let m = names.next().unwrap();
    assert_eq!(m.platform_id(), PlatformId::Macintosh);
    assert!(!m.is_unicode());
    assert_eq!(m.to_string(), None);
    assert_eq!(m.name(), &b"Bld"[..]);
    assert!(names.next().is_none());
}

#[test]
fn platform_ids() {
    assert_eq!(PlatformId::parse(0), Some(PlatformId::Unicode));
    assert_eq!(PlatformId::parse(4), Some(PlatformId::Custom));
    assert_eq!(PlatformId::parse(5), None);
}

fn os2_table() -> Vec<u8> {
    let mut d = vec![0u8; 96];
    d[0..2].copy_from_slice(&4u16.to_be_bytes()); // version 4
    d[4..6].copy_from_slice(&700u16.to_be_bytes()); // weight
    d[6..8].copy_from_slice(&3u16.to_be_bytes()); // width: condensed
    d[62..64].copy_from_slice(&0x0221u16.to_be_bytes()); // italic, bold, oblique
    d[68..70].copy_from_slice(&800i16.to_be_bytes());
    d[70..72].copy_from_slice(&(-200i16).to_be_bytes());
    d[72..74].copy_from_slice(&100i16.to_be_bytes());
    d[74..76].copy_from_slice(&900u16.to_be_bytes());
    d[76..78].copy_from_slice(&300u16.to_be_bytes());
    d[86..88].copy_from_slice(&500i16.to_be_bytes());
    d[88..90].copy_from_slice(&700i16.to_be_bytes());
    d
}

#[test]
fn os2_values() {
    let data = os2_table();
    let t = os2::Table::parse(&data).unwrap();
    assert_eq!(t.weight(), Weight::Bold);
    assert_eq!(t.weight().to_number(), 700);
    assert_eq!(t.width(), Width::Condensed);
    assert_eq!(t.width().to_number(), 3);
    assert!(t.is_italic());
    assert!(t.is_bold());
    assert!(t.is_oblique());
    assert!(!t.is_regular());
    assert_eq!(t.typo_ascender(), 800);
    assert_eq!(t.typo_descender(), -200);
    assert_eq!(t.typo_line_gap(), 100);
    assert_eq!(t.windows_ascender(), 900);
    assert_eq!(t.windows_descender(), -300);
    assert_eq!(t.x_height(), Some(500));
    assert_eq!(t.cap_height(), Some(700));
    assert_eq!(Weight::from(450), Weight::Other(450));
    assert_eq!(Weight::from(400), Weight::Normal);
}

#[test]
fn cff_index_and_bias() {
    // count 2, offset size 1, offsets 1, 3, 4: objects "ab" and "c".
    let data = [0x00, 0x02, 0x01, 0x01, 0x03, 0x04, b'a', b'b', b'c'];
    let mut s = Stream::new(&data);
    let index = parse_index(&mut s).unwrap();
    assert_eq!(index.len(), 2);
    assert_eq!(index.get(0), Some(&b"ab"[..]));
    assert_eq!(index.get(1), Some(&b"c"[..]));
    assert_eq!(index.get(2), None);
    assert_eq!(s.offset(), data.len());
    assert_eq!(calc_subroutine_bias(100), 107);
    assert_eq!(calc_subroutine_bias(1240), 1131);
    assert_eq!(calc_subroutine_bias(33900), 32768);
    assert!(4usize.is_even());
    assert!(7usize.is_odd());
}

#[test]
fn cff_charsets() {
    // Predefined charsets map only SID 0.
    assert_eq!(Charset::ISOAdobe.sid_to_gid(StringId(0)), Some(GlyphId(0)));
    assert_eq!(Charset::ISOAdobe.sid_to_gid(StringId(5)), None);
    // Format 0 charset: glyph 1 is SID 10, glyph 2 is SID 20.
    let f0 = [0x00, 0x0A, 0x00, 0x14];
    let cs = Charset::Format0(&f0);
    assert_eq!(cs.sid_to_gid(StringId(0)), Some(GlyphId(0)));
    assert_eq!(cs.sid_to_gid(StringId(20)), Some(GlyphId(2)));
    assert_eq!(cs.sid_to_gid(StringId(11)), None);
    assert!(cff::parse_metadata(&[]).is_none());
}
