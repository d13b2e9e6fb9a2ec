use ttf_tables::GlyphId;
use ttf_tables::opentype_layout::Coverage;
use ttf_tables::tables::math;

fn constants() -> Vec<u8> {
    let mut d = vec![0u8; 214];
    d[0..2].copy_from_slice(&80i16.to_be_bytes()); // script percent scale down
    d[2..4].copy_from_slice(&60i16.to_be_bytes());
    d[4..6].copy_from_slice(&1500u16.to_be_bytes());
    d[6..8].copy_from_slice(&1300u16.to_be_bytes());
    d[8..10].copy_from_slice(&150i16.to_be_bytes()); // math leading value
    d[12..14].copy_from_slice(&250i16.to_be_bytes()); // axis height value
    d[14..16].copy_from_slice(&210u16.to_be_bytes()); // axis height device offset
    d[212..214].copy_from_slice(&60i16.to_be_bytes()); // radical degree bottom raise
    d
}

#[test]
fn math_constants() {
    let data = constants();
    let c = math::MathConstants { data: &data };
    assert_eq!(c.script_percent_scale_down(), 80);
    assert_eq!(c.script_script_percent_scale_down(), 60);
    assert_eq!(c.delimited_sub_formula_min_height(), 1500);
    assert_eq!(c.display_operator_min_height(), 1300);
    assert_eq!(c.math_leading().value, 150);
    assert!(c.math_leading().device_correction.is_none());
    let axis = c.axis_height();
    assert_eq!(axis.value, 250);
    assert_eq!(axis.device_correction.unwrap().data, &data[210..]);
    assert_eq!(c.radical_degree_bottom_raise_percent(), 60);
    // Values past the end of the data are zero.
    let short = math::MathConstants { data: &data[..10] };
    assert_eq!(short.axis_height().value, 0);
    assert_eq!(short.radical_degree_bottom_raise_percent(), 0);
}

#[test]
fn coverage_formats() {
    let f1 = [0x00, 0x01, 0x00, 0x03, 0x00, 0x02, 0x00, 0x05, 0x00, 0x09];
    let c = Coverage::parse(&f1).unwrap();
    assert_eq!(c.get(GlyphId(5)), Some(1));
    assert_eq!(c.get(GlyphId(9)), Some(2));
    assert_eq!(c.get(GlyphId(4)), None);
    assert!(c.contains(GlyphId(2)));
    let f2 = [0x00, 0x02, 0x00, 0x02, 0x00, 0x0A, 0x00, 0x0C, 0x00, 0x00, 0x00, 0x14, 0x00, 0x14, 0x00, 0x03];
    let c = Coverage::parse(&f2).unwrap();
    assert_eq!(c.get(GlyphId(11)), Some(1));
    assert_eq!(c.get(GlyphId(20)), Some(3));
    assert_eq!(c.get(GlyphId(13)), None);
    assert!(Coverage::parse(&[0x00, 0x03, 0x00, 0x00]).is_none());
    assert!(Coverage::parse(&f1[..9]).is_none());
}

#[test]
fn value_table_and_kern_info() {
    // A value table covering glyphs 3 and 4.
    let vt = [
        0x00, 0x0C, // coverage at 12
        0x00, 0x02, // two records
        0x00, 0x0A, 0x00, 0x00, // 10, no device
        0xFF, 0xF6, 0x00, 0x00, // -10
        0x00, 0x01, 0x00, 0x02, 0x00, 0x03, 0x00, 0x04, // coverage: 3, 4
    ];
    let t = math::MathValueTable::parse(&vt).unwrap();
    assert!(t.contains(GlyphId(3)));
    assert_eq!(t.get(GlyphId(4)).unwrap().value, -10);
    assert!(t.get(GlyphId(5)).is_none());

    // A kern table with one height and two kern values.
    let kern = [0x00, 0x01, 0x00, 0x64, 0x00, 0x00, 0x00, 0x05, 0x00, 0x00, 0xFF, 0xFB, 0x00, 0x00];
    let k = math::MathKern::parse(&kern).unwrap();
    assert_eq!(k.height_count(), 1);
    assert_eq!(k.kern_count(), 2);
    assert_eq!(k.get_height(0).unwrap().value, 100);
    assert_eq!(k.get_kern_value(1).unwrap().value, -5);
    assert!(k.get_height(1).is_none());
    assert!(math::MathKern::parse(&[0xFF, 0xFF]).is_none());
}

#[test]
fn glyph_assembly_and_part_flags() {
    let a = [
        0x00, 0x07, 0x00, 0x00, // italics correction 7
        0x00, 0x01, // one part
        0x00, 0x2A, 0x00, 0x01, 0x00, 0x02, 0x00, 0x64, 0x00, 0x01,
    ];
    let assembly = math::GlyphAssembly::parse(&a).unwrap();
    assert_eq!(assembly.italics_correction.value, 7);
    assert_eq!(assembly.glyph_parts.len(), 1);
    let part = assembly.glyph_parts.get(0).unwrap();
    assert_eq!(part.glyph_id, GlyphId(42));
    assert_eq!(part.full_advance, 100);
    assert!(part.part_flags.extender());
    assert!(!math::PartFlags(2).extender());
}

#[test]
fn math_table_version() {
    let mut d = vec![0x00, 0x01, 0x00, 0x00, 0x00, 0x0A, 0x00, 0x0A, 0x00, 0x0A];
    d.extend_from_slice(&[0u8; 16]);
    // The glyph info at 10 needs two value tables; these offsets fail.
    assert!(math::Table::parse(&d).is_none());
    d[1] = 2;
    assert!(math::Table::parse(&d).is_none());
}
