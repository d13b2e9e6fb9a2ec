use ttf_tables::GlyphId;
use ttf_tables::tables::hmtx::Table;

#[test]
fn hmtx_simple_case() {
    let data = &[
        0x00, 0x01, // advance width [0]: 1
        0x00, 0x02, // side bearing [0]: 2
    ];

    let table = Table::parse(data, 1, 1).unwrap();
    assert_eq!(table.advance(GlyphId(0)), Some(1));
    assert_eq!(table.side_bearing(GlyphId(0)), Some(2));
}

#[test]
fn hmtx_empty() {
    assert!(Table::parse(&[], 1, 1).is_none());
}

#[test]
fn zero_metrics() {
    let data = &[
        0x00, 0x01, // advance width [0]: 1
        0x00, 0x02, // side bearing [0]: 2
    ];

    assert!(Table::parse(data, 0, 1).is_none());
}

#[test]
fn hmtx_smaller_than_glyphs_count() {
    let data = &[
        0x00, 0x01, // advance width [0]: 1
        0x00, 0x02, // side bearing [0]: 2

        0x00, 0x03, // side bearing [1]: 3
    ];

    let table = Table::parse(data, 1, 2).unwrap();
    assert_eq!(table.advance(GlyphId(0)), Some(1));
    assert_eq!(table.side_bearing(GlyphId(0)), Some(2));
    assert_eq!(table.advance(GlyphId(1)), Some(1));
    assert_eq!(table.side_bearing(GlyphId(1)), Some(3));
}

#[test]
fn hmtx_less_metrics_than_glyphs() {
    let data = &[
        0x00, 0x01, // advance width [0]: 1
        0x00, 0x02, // side bearing [0]: 2

        0x00, 0x03, // advance width [1]: 3
        0x00, 0x04, // side bearing [1]: 4

        0x00, 0x05, // side bearing [2]: 5
    ];

    let table = Table::parse(data, 2, 1).unwrap();
    assert_eq!(table.side_bearing(GlyphId(0)), Some(2));
    assert_eq!(table.side_bearing(GlyphId(1)), Some(4));
    assert_eq!(table.side_bearing(GlyphId(2)), None);
}

#[test]
fn hmtx_glyph_out_of_bounds_0() {
    let data = &[
        0x00, 0x01, // advance width [0]: 1
        0x00, 0x02, // side bearing [0]: 2
    ];

    let table = Table::parse(data, 1, 1).unwrap();
    assert_eq!(table.advance(GlyphId(0)), Some(1));
    assert_eq!(table.side_bearing(GlyphId(0)), Some(2));
    assert_eq!(table.advance(GlyphId(1)), None);
    assert_eq!(table.side_bearing(GlyphId(1)), None);
}

#[test]
fn hmtx_glyph_out_of_bounds_1() {
    let data = &[
        0x00, 0x01, // advance width [0]: 1
        0x00, 0x02, // side bearing [0]: 2

        0x00, 0x03, // side bearing [1]: 3
    ];

    let table = Table::parse(data, 1, 2).unwrap();
    assert_eq!(table.advance(GlyphId(1)), Some(1));
    assert_eq!(table.side_bearing(GlyphId(1)), Some(3));
    assert_eq!(table.advance(GlyphId(2)), None);
    assert_eq!(table.side_bearing(GlyphId(2)), None);
}

#[test]
fn hmtx_advance_of_last_metric_applies_to_bearing_glyphs() {
    let data = &[
        0x00, 0x0A, 0xFF, 0xFE, // advance 10, lsb -2
        0x00, 0x14, 0x00, 0x05, // advance 20, lsb 5
        0xFF, 0xFF, // lsb -1
        0x00, 0x07, // lsb 7
    ];
    let table = Table::parse(data, 2, 4).unwrap();
    assert_eq!(table.advance(GlyphId(0)), Some(10));
    assert_eq!(table.side_bearing(GlyphId(0)), Some(-2));
    assert_eq!(table.advance(GlyphId(2)), Some(20));
    assert_eq!(table.advance(GlyphId(3)), Some(20));
    assert_eq!(table.side_bearing(GlyphId(2)), Some(-1));
    assert_eq!(table.side_bearing(GlyphId(3)), Some(7));
    assert_eq!(table.advance(GlyphId(4)), None);
}
