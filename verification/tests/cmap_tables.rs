use ttf_tables::GlyphId;
use ttf_tables::tables::cmap::{self, Format};
use ttf_tables::tables::cmap::{format6, format10, format12, format13, format14};
use ttf_tables::tables::cmap::format14::GlyphVariationResult;
use ttf_tables::tables::name::PlatformId;

#[test]
fn format6_trimmed_table() {
    let d = [0x00, 0x06, 0x00, 0x10, 0x00, 0x00, 0x00, 0x41, 0x00, 0x03, 0x00, 0x05, 0x00, 0x06, 0x00, 0x07];
    assert_eq!(format6::parse(&d, 0x41), Some(5));
    assert_eq!(format6::parse(&d, 0x43), Some(7));
    assert_eq!(format6::parse(&d, 0x44), None);
    assert_eq!(format6::parse(&d, 0x40), None);
    assert_eq!(format6::codepoints(&d), vec![0x41, 0x42, 0x43]);
}

#[test]
fn format10_trimmed_array() {
    let mut d = vec![0x00, 0x0A, 0x00, 0x00, 0x00, 0x00, 0x00, 0x18, 0x00, 0x00, 0x00, 0x00];
    d.extend_from_slice(&0x10000u32.to_be_bytes());
    d.extend_from_slice(&2u32.to_be_bytes());
    d.extend_from_slice(&[0x00, 0x09, 0x00, 0x0B]);
    assert_eq!(format10::parse(&d, 0x10001), Some(11));
    assert_eq!(format10::parse(&d, 0x10002), None);
    assert_eq!(format10::codepoints(&d), vec![0x10000, 0x10001]);
}

fn groups(format: u16, groups: &[(u32, u32, u32)]) -> Vec<u8> {
    let mut d = format.to_be_bytes().to_vec();
    d.extend_from_slice(&[0, 0, 0, 0, 0, 0, 0, 0, 0, 0]);
    d.extend_from_slice(&(groups.len() as u32).to_be_bytes());
    for (s, e, g) in groups {
        d.extend_from_slice(&s.to_be_bytes());
        d.extend_from_slice(&e.to_be_bytes());
        d.extend_from_slice(&g.to_be_bytes());
    }
    d
}

#[test]
fn format12_segmented_coverage() {
    let d = groups(12, &[(0x20, 0x22, 1), (0x1F600, 0x1F601, 50)]);
    assert_eq!(format12::parse(&d, 0x21), Some(2));
    assert_eq!(format12::parse(&d, 0x1F601), Some(51));
    assert_eq!(format12::parse(&d, 0x23), None);
    assert_eq!(format12::codepoints(&d), vec![0x20, 0x21, 0x22, 0x1F600, 0x1F601]);
}

#[test]
fn format13_many_to_one() {
    let d = groups(13, &[(0x30, 0x39, 7)]);
    assert_eq!(format13::parse(&d, 0x30), Some(7));
    assert_eq!(format13::parse(&d, 0x39), Some(7));
    assert_eq!(format13::parse(&d, 0x3A), None);
    assert_eq!(format13::codepoints(&d).len(), 10);
}

#[test]
fn format14_variation_sequences() {
    let mut d = vec![0x00, 0x0E, 0x00, 0x00, 0x00, 0x30, 0x00, 0x00, 0x00, 0x01];
    d.extend_from_slice(&[0x00, 0xFE, 0x0F]); // selector U+FE0F
    d.extend_from_slice(&21u32.to_be_bytes()); // default UVS at 21
    d.extend_from_slice(&30u32.to_be_bytes()); // non-default UVS at 30
    // default UVS at 21: one range starting at U+2764, one more code point
    d.extend_from_slice(&[0x00, 0x00, 0x00, 0x01, 0x00, 0x27, 0x64, 0x01, 0x00]);
    // non-default UVS at 30: U+2800 -> glyph 99
    d.extend_from_slice(&[0x00, 0x00, 0x00, 0x01, 0x00, 0x28, 0x00, 0x00, 0x63]);
    assert_eq!(format14::parse(&d, 0x2800, 0xFE0F), Some(GlyphVariationResult::Found(GlyphId(99))));
    assert_eq!(format14::parse(&d, 0x2764, 0xFE0F), Some(GlyphVariationResult::UseDefault));
    assert_eq!(format14::parse(&d, 0x2765, 0xFE0F), Some(GlyphVariationResult::UseDefault));
    assert_eq!(format14::parse(&d, 0x2763, 0xFE0F), None);
    assert_eq!(format14::parse(&d, 0x2766, 0xFE0F), None);
    assert_eq!(format14::parse(&d, 0x2801, 0xFE0F), None);
    assert_eq!(format14::parse(&d, 0x2800, 0xFE0E), None);
}

fn cmap_with_format6() -> Vec<u8> {
    let mut d = vec![
        0x00, 0x00, // version
        0x00, 0x01, // one subtable
        0x00, 0x03, 0x00, 0x01, 0x00, 0x00, 0x00, 0x0C, // Windows, Unicode BMP, at 12
    ];
    d.extend_from_slice(&[0x00, 0x06, 0x00, 0x0E, 0x00, 0x00, 0x00, 0x61, 0x00, 0x02, 0x00, 0x2A, 0x00, 0x2B]);
    d
}

#[test]
fn cmap_subtables_and_lookup() {
    let data = cmap_with_format6();
    let mut subtables = cmap::parse(&data).unwrap();
    assert_eq!(subtables.count(), 1);
    let s = subtables.next().unwrap();
    assert_eq!(s.platform_id(), PlatformId::Windows);
    assert_eq!(s.encoding_id(), 1);
    assert_eq!(s.format(), Format::TrimmedTableMapping);
    assert!(s.is_unicode());
    assert_eq!(s.glyph_index(0x62), Some(GlyphId(43)));
    assert_eq!(s.codepoints(), vec![0x61, 0x62]);
    assert!(s.glyph_variation_index('a', '\u{FE0F}').is_none());
    assert!(subtables.next().is_none());

    let table = cmap::Table::parse(&data).unwrap();
    assert_eq!(cmap::glyph_index(&table, 'a'), Some(GlyphId(42)));
    assert_eq!(cmap::glyph_index(&table, 'c'), None);
    assert_eq!(cmap::glyph_variation_index(&table, 'a', '\u{FE0F}'), None);
}

#[test]
fn cmap_formats_roundtrip() {
    for code in [0u16, 2, 4, 6, 8, 10, 12, 13, 14] {
        assert!(Format::parse(code).is_some());
    }
    assert!(Format::parse(1).is_none());
    assert!(cmap::parse(&[0x00, 0x00]).is_none());
}

#[test]
fn cmap_glyph_zero_is_no_match() {
    let mut data = vec![0, 0, 0, 1, 0, 0, 0, 3, 0, 0, 0, 12];
    data.extend_from_slice(&[
        0, 4, 0, 32, 0, 0, 0, 4, 0, 2, 0, 0, 0, 2, // format 4 header, two segments
        0, 0x41, 0xFF, 0xFF, 0, 0, // end codes, reserved pad
        0, 0x41, 0xFF, 0xFF, // start codes
        0xFF, 0xC0, 0, 1, // deltas -64 and 1
        0, 0, 0, 0, // no range offsets
    ]);
    let sub = cmap::parse(&data).unwrap().next().unwrap();
    assert_eq!(sub.glyph_index(0x41), Some(GlyphId(1)));
    // 0xFFFF + 1 wraps to glyph 0, the missing glyph.
    assert_eq!(sub.glyph_index(0xFFFF), None);
    let table = cmap::Table::parse(&data).unwrap();
    assert_eq!(cmap::glyph_index(&table, 'A'), Some(GlyphId(1)));
    // The table-wide lookup answers with the subtable's glyph, 0 included.
    assert_eq!(cmap::glyph_index(&table, '\u{FFFF}'), Some(GlyphId(0)));
}

#[test]
fn cmap_table_lookup_reads_format0_below_its_length() {
    let mut data = vec![0, 0, 0, 1, 0, 0, 0, 3, 0, 0, 0, 12];
    // Format 0 with a stored length of 0x46: only code points below it are read.
    data.extend_from_slice(&[0, 0, 0, 0x46, 0, 0]);
    let mut glyphs = vec![0u8; 256];
    glyphs[0x41] = 7;
    glyphs[0x50] = 9;
    data.extend_from_slice(&glyphs);
    let table = cmap::Table::parse(&data).unwrap();
    assert_eq!(cmap::glyph_index(&table, 'A'), Some(GlyphId(7)));
    assert_eq!(cmap::glyph_index(&table, 'B'), Some(GlyphId(0)));
    assert_eq!(cmap::glyph_index(&table, 'P'), None);
    let sub = cmap::parse(&data).unwrap().next().unwrap();
    assert_eq!(sub.glyph_index(0x50), Some(GlyphId(9)));
    assert_eq!(sub.glyph_index(0x42), None);
}

#[test]
fn cmap_variation_to_glyph_zero_is_no_match() {
    let mut data = vec![0, 0, 0, 1, 0, 0, 0, 5, 0, 0, 0, 12];
    data.extend_from_slice(&[0x00, 0x0E, 0x00, 0x00, 0x00, 0x30, 0x00, 0x00, 0x00, 0x01]);
    data.extend_from_slice(&[0x00, 0xFE, 0x0F]); // selector U+FE0F
    data.extend_from_slice(&0u32.to_be_bytes()); // no default UVS
    data.extend_from_slice(&21u32.to_be_bytes()); // non-default UVS at 21
    // U+2800 -> glyph 0, U+2801 -> glyph 7
    data.extend_from_slice(&[0x00, 0x00, 0x00, 0x02, 0x00, 0x28, 0x00, 0x00, 0x00, 0x00, 0x28, 0x01, 0x00, 0x07]);
    let sub = cmap::parse(&data).unwrap().next().unwrap();
    assert_eq!(sub.glyph_variation_index('\u{2800}', '\u{FE0F}'), None);
    assert_eq!(
        sub.glyph_variation_index('\u{2801}', '\u{FE0F}'),
        Some(GlyphVariationResult::Found(GlyphId(7)))
    );
}
