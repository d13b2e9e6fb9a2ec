use ttf_tables::GlyphId;
use ttf_tables::font::Font;
use ttf_tables::tables::{hmtx, post};

fn post_data() -> Vec<u8> {
    let mut d = vec![0u8; 32];
    d[0..4].copy_from_slice(&0x00020000u32.to_be_bytes());
    d[4..8].copy_from_slice(&(-12i32 << 16).to_be_bytes());
    d[8..10].copy_from_slice(&(-100i16).to_be_bytes());
    d[10..12].copy_from_slice(&50i16.to_be_bytes());
    d[12..16].copy_from_slice(&1u32.to_be_bytes());
    d.extend_from_slice(&[0x00, 0x04]); // four glyphs
    d.extend_from_slice(&[0x00, 0x00, 0x00, 0x24, 0x01, 0x03, 0x01, 0x02]); // .notdef, A, 259, 258
    d.extend_from_slice(&[0x03, b'f', b'o', b'o', 0x02, 0xC3, 0xA9]); // "foo", "é"
    d
}

#[test]
fn post_table_and_glyph_names() {
    let d = post_data();
    let t = post::Table::parse(&d).unwrap();
    assert_eq!(t.italic_angle, -12 << 16);
    assert_eq!(t.underline_metrics.position, -100);
    assert_eq!(t.underline_metrics.thickness, 50);
    assert!(t.is_monospaced);
    assert_eq!(t.names.len(), 4);
    assert_eq!(t.names.get(GlyphId(0)), Some(".notdef"));
    assert_eq!(t.names.get(GlyphId(1)), Some("A"));
    assert_eq!(t.names.get(GlyphId(2)), Some("\u{e9}"));
    assert_eq!(t.names.get(GlyphId(3)), Some("foo"));
    assert_eq!(t.names.get(GlyphId(4)), None);
}

#[test]
fn post_versions() {
    let mut d = post_data();
    d[1] = 0x03; // version 3.0: no names
    let t = post::Table::parse(&d).unwrap();
    assert_eq!(t.names.len(), 0);
    d[1] = 0x07;
    assert!(post::Table::parse(&d).is_none());
    assert!(post::Table::parse(&d[..31]).is_none());
    assert_eq!(post::macintosh_name(257), "dcroat");
}

#[test]
fn post_rejects_invalid_utf8_and_empty_names() {
    let mut d = post_data();
    d[47] = 0xFF; // break the "é"
    let t = post::Table::parse(&d).unwrap();
    assert_eq!(t.names.get(GlyphId(2)), None);
}

#[test]
fn vertical_metrics() {
    let mut vhea = vec![0u8; 36];
    vhea[4..6].copy_from_slice(&500i16.to_be_bytes());
    vhea[6..8].copy_from_slice(&(-500i16).to_be_bytes());
    vhea[8..10].copy_from_slice(&12i16.to_be_bytes());
    let vmtx_data = [0x03, 0xE8, 0x00, 0x0A];
    let vmtx = hmtx::Table::parse(&vmtx_data, 1, 1).unwrap();
    let font = Font { vhea: Some(&vhea), vmtx: Some(vmtx) };
    assert_eq!(font.vertical_ascender(), Some(500));
    assert_eq!(font.vertical_descender(), Some(-500));
    assert_eq!(font.vertical_height(), Some(1000));
    assert_eq!(font.vertical_line_gap(), Some(12));
    assert_eq!(font.glyph_ver_advance(GlyphId(0)), Some(1000));
    assert_eq!(font.glyph_ver_side_bearing(GlyphId(0)), Some(10));
    let empty = Font { vhea: None, vmtx: None };
    assert_eq!(empty.vertical_height(), None);
    assert_eq!(empty.glyph_ver_advance(GlyphId(0)), None);
}
