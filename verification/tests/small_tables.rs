use ttf_tables::{GlyphId, Rect};
use ttf_tables::tables::{head, hhea, kern, loca, vorg, cpal, svg, wasm, eblc};
use ttf_tables::tables::head::IndexToLocationFormat;

fn head_data(units_per_em: u16, loca_format: u16) -> Vec<u8> {
    let mut d = vec![0u8; 54];
    d[18..20].copy_from_slice(&units_per_em.to_be_bytes());
    d[36..38].copy_from_slice(&(-10i16).to_be_bytes());
    d[38..40].copy_from_slice(&(-20i16).to_be_bytes());
    d[40..42].copy_from_slice(&(300i16).to_be_bytes());
    d[42..44].copy_from_slice(&(400i16).to_be_bytes());
    d[50..52].copy_from_slice(&loca_format.to_be_bytes());
    d
}

#[test]
fn head_parses_units_bbox_and_format() {
    let t = head::Table::parse(&head_data(1000, 1)).unwrap();
    assert_eq!(t.units_per_em, 1000);
    assert_eq!(t.global_bbox, Rect { x_min: -10, y_min: -20, x_max: 300, y_max: 400 });
    assert_eq!(t.index_to_location_format, IndexToLocationFormat::Long);
    let t = head::Table::parse(&head_data(16, 0)).unwrap();
    assert_eq!(t.index_to_location_format, IndexToLocationFormat::Short);
}

#[test]
fn head_rejects_bad_units_format_and_size() {
    assert!(head::Table::parse(&head_data(15, 0)).is_none());
    assert!(head::Table::parse(&head_data(16385, 0)).is_none());
    assert!(head::Table::parse(&head_data(16384, 0)).is_some());
    assert!(head::Table::parse(&head_data(1000, 2)).is_none());
    let mut long = head_data(1000, 0);
    long.push(0);
    assert!(head::Table::parse(&long).is_none());
}

#[test]
fn hhea_metrics() {
    let mut d = vec![0u8; 36];
    d[4..6].copy_from_slice(&800i16.to_be_bytes());
    d[6..8].copy_from_slice(&(-200i16).to_be_bytes());
    d[8..10].copy_from_slice(&90i16.to_be_bytes());
    d[34..36].copy_from_slice(&5u16.to_be_bytes());
    assert!(hhea::parse(&d).is_some());
    assert!(hhea::parse(&d[..35]).is_none());
    assert_eq!(hhea::ascender(&d), 800);
    assert_eq!(hhea::descender(&d), -200);
    assert_eq!(hhea::line_gap(&d), 90);
    assert_eq!(hhea::number_of_h_metrics(&d), Some(5));
    d[34..36].copy_from_slice(&0u16.to_be_bytes());
    assert_eq!(hhea::number_of_h_metrics(&d), None);
    assert_eq!(hhea::ascender(&d[..5]), 0);
}

fn kern_data(pairs: &[(u16, u16, i16)], coverage: u8) -> Vec<u8> {
    let mut d = vec![0x00, 0x00, 0x00, 0x01, 0x00, 0x00, 0x00, 0x00, 0x00, coverage];
    d.extend_from_slice(&(pairs.len() as u16).to_be_bytes());
    d.extend_from_slice(&[0, 0, 0, 0, 0, 0]);
    for (l, r, v) in pairs {
        d.extend_from_slice(&l.to_be_bytes());
        d.extend_from_slice(&r.to_be_bytes());
        d.extend_from_slice(&v.to_be_bytes());
    }
    d
}

#[test]
fn kern_finds_pairs() {
    let d = kern_data(&[(1, 2, -50), (1, 7, 20), (3, 1, 5), (9, 9, -1)], 1);
    assert_eq!(kern::glyphs_kerning(&d, GlyphId(1), GlyphId(2)), Some(-50));
    assert_eq!(kern::glyphs_kerning(&d, GlyphId(1), GlyphId(7)), Some(20));
    assert_eq!(kern::glyphs_kerning(&d, GlyphId(3), GlyphId(1)), Some(5));
    assert_eq!(kern::glyphs_kerning(&d, GlyphId(9), GlyphId(9)), Some(-1));
    assert_eq!(kern::glyphs_kerning(&d, GlyphId(2), GlyphId(1)), None);
}

#[test]
fn kern_needs_horizontal_format_0() {
    let d = kern_data(&[(1, 2, -50)], 0);
    assert_eq!(kern::glyphs_kerning(&d, GlyphId(1), GlyphId(2)), None);
    let mut d = kern_data(&[(1, 2, -50)], 1);
    d[8] = 2; // format 2
    assert_eq!(kern::glyphs_kerning(&d, GlyphId(1), GlyphId(2)), None);
    let mut d = kern_data(&[(1, 2, -50)], 1);
    d[1] = 1; // version 1
    assert_eq!(kern::glyphs_kerning(&d, GlyphId(1), GlyphId(2)), None);
}

#[test]
fn loca_short_and_long_ranges() {
    let short = [0x00, 0x00, 0x00, 0x05, 0x00, 0x05, 0x00, 0x08];
    let t = loca::Table::parse(&short, 3, IndexToLocationFormat::Short).unwrap();
    assert_eq!(t.glyph_range(GlyphId(0)), Some(0..10));
    assert_eq!(t.glyph_range(GlyphId(1)), None); // empty range
    assert_eq!(t.glyph_range(GlyphId(2)), Some(10..16));
    assert_eq!(t.glyph_range(GlyphId(3)), None);
    let long = [0, 0, 0, 4, 0, 0, 0, 2];
    let t = loca::Table::parse(&long, 1, IndexToLocationFormat::Long).unwrap();
    assert_eq!(t.glyph_range(GlyphId(0)), None); // descending
    assert!(loca::Table::parse(&long, 2, IndexToLocationFormat::Long).is_none());
}

#[test]
fn vorg_origins() {
    let d = [
        0x00, 0x01, 0x00, 0x00, // version 1.0
        0x03, 0x70, // default origin: 880
        0x00, 0x02, // two records
        0x00, 0x05, 0x03, 0x84, // glyph 5: 900
        0x00, 0x0A, 0xFF, 0xF6, // glyph 10: -10
    ];
    let t = vorg::Table::parse(&d).unwrap();
    assert_eq!(t.glyph_y_origin(GlyphId(5)), 900);
    assert_eq!(t.glyph_y_origin(GlyphId(10)), -10);
    assert_eq!(t.glyph_y_origin(GlyphId(7)), 880);
    assert!(vorg::Table::parse(&d[..15]).is_none());
}

#[test]
fn cpal_colors() {
    let d = [
        0x00, 0x00, // version 0
        0x00, 0x02, // entries per palette
        0x00, 0x02, // two palettes
        0x00, 0x03, // three colors
        0x00, 0x00, 0x00, 0x10, // color records at 16
        0x00, 0x00, 0x00, 0x01, // palette starts: 0, 1
        0x01, 0x02, 0x03, 0x04, // BGRA
        0x05, 0x06, 0x07, 0x08,
        0x09, 0x0A, 0x0B, 0x0C,
    ];
    let t = cpal::Table::parse(&d).unwrap();
    assert_eq!(t.get(0, 0), Some(cpal::Color { blue: 1, green: 2, red: 3, alpha: 4 }));
    assert_eq!(t.get(1, 1), Some(cpal::Color { blue: 9, green: 10, red: 11, alpha: 12 }));
    assert_eq!(t.get(1, 2), None);
    assert_eq!(t.get(2, 0), None);
    let mut v2 = d;
    v2[1] = 2;
    assert!(cpal::Table::parse(&v2).is_none());
}

#[test]
fn svg_documents() {
    let d = [
        0x00, 0x00, // version
        0x00, 0x00, 0x00, 0x0A, // document list at 10
        0x00, 0x00, 0x00, 0x00, // reserved
        0x00, 0x02, // two records
        0x00, 0x01, 0x00, 0x03, 0x00, 0x00, 0x00, 0x1A, 0x00, 0x00, 0x00, 0x02, // 1..=3
        0x00, 0x05, 0x00, 0x05, 0x00, 0x00, 0x00, 0x00, 0x00, 0x00, 0x00, 0x01, // 5, null offset
        0xAA, 0xBB, 0xCC,
    ];
    assert_eq!(svg::parse(&d, GlyphId(2)), Some(&[0xAA, 0xBB][..]));
    assert_eq!(svg::parse(&d, GlyphId(4)), None);
    assert_eq!(svg::parse(&d, GlyphId(5)), None);
}

#[test]
fn trivial_tables_keep_their_data() {
    let d = [1u8, 2, 3];
    assert_eq!(wasm::Table::parse(&d).unwrap().wasm_data, &d[..]);
    assert_eq!(eblc::Table::parse(&d).unwrap().0, &d[..]);
}

#[test]
fn vorg_short_records_give_the_default() {
    let t = vorg::Table { default_y: 880, origins: &[0x00, 0x05, 0x03, 0x20], count: 2 };
    assert_eq!(t.glyph_y_origin(GlyphId(5)), 880);
    let t = vorg::Table { default_y: 880, origins: &[0x00, 0x05, 0x03, 0x20], count: 1 };
    assert_eq!(t.glyph_y_origin(GlyphId(5)), 800);
}
