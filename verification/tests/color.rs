use ttf_tables::{GlyphId, RgbaColor, RasterImageFormat};
use ttf_tables::tables::{cbdt, cblc, colr, cpal};
use ttf_tables::tables::colr::{CompositeMode, GradientExtend, Paint};

fn palettes() -> Vec<u8> {
    vec![
        0x00, 0x00, 0x00, 0x02, 0x00, 0x01, 0x00, 0x02, // version, entries, 1 palette, 2 colors
        0x00, 0x00, 0x00, 0x0E, // colors at 14
        0x00, 0x00, // palette 0 starts at color 0
        0x10, 0x20, 0x30, 0xFF, // BGRA
        0x01, 0x02, 0x03, 0x04,
    ]
}

fn colr_v0() -> Vec<u8> {
    vec![
        0x00, 0x00, // version 0
        0x00, 0x01, // one base glyph
        0x00, 0x00, 0x00, 0x0E, // base glyphs at 14
        0x00, 0x00, 0x00, 0x14, // layers at 20
        0x00, 0x02, // two layers
        0x00, 0x05, 0x00, 0x00, 0x00, 0x02, // glyph 5: layers 0..2
        0x00, 0x07, 0xFF, 0xFF, // glyph 7 in the foreground color
        0x00, 0x08, 0x00, 0x01, // glyph 8 in palette entry 1
    ]
}

#[test]
fn colr_version_0_layers() {
    let pal = palettes();
    let p = cpal::Table::parse(&pal).unwrap();
    let data = colr_v0();
    let t = colr::Table::parse(p, &data).unwrap();
    assert!(t.is_simple());
    assert!(t.contains(GlyphId(5)));
    assert!(!t.contains(GlyphId(6)));
    let base = t.get_v0(GlyphId(5)).unwrap();
    assert_eq!(t.layer_range(base), Some((0, 2)));
    let l0 = t.layer(0).unwrap();
    assert_eq!(l0.glyph_id, GlyphId(7));
    assert_eq!(l0.palette_index, 0xFFFF);
    let l1 = t.layer(1).unwrap();
    assert_eq!(t.palette_color(0, l1.palette_index), Some(RgbaColor::new(3, 2, 1, 4)));
    assert!(t.layer(2).is_none());
}

#[test]
fn colr_version_1_paints() {
    let pal = palettes();
    let p = cpal::Table::parse(&pal).unwrap();
    let mut data = vec![
        0x00, 0x01, // version 1
        0x00, 0x00, 0x00, 0x00, 0x00, 0x00, 0x00, 0x00, 0x00, 0x00, 0x00, 0x00, // no v0 data
        0x00, 0x00, 0x00, 0x1A, // base glyph list at 26
        0x00, 0x00, 0x00, 0x00, // no layer list
        0x00, 0x00, 0x00, 0x00, // no clip list
        // base glyph list at 26: one record
        0x00, 0x00, 0x00, 0x01,
        0x00, 0x03, 0x00, 0x00, 0x00, 0x0A, // glyph 3: paint at 26 + 10 = 36
        // PaintGlyph at 36: child at 36 + 6 = 42, glyph 9
        0x0A, 0x00, 0x00, 0x06, 0x00, 0x09,
        // PaintSolid at 42: palette entry 0, alpha 1.0
        0x02, 0x00, 0x00, 0x40, 0x00,
        // PaintComposite at 47: source at 47 + 9 = 56, mode xor, backdrop at 47 + 9
        0x20, 0x00, 0x00, 0x09, 0x0B, 0x00, 0x00, 0x09, 0x00,
        // PaintLinearGradient at 56: color line at 56 + 16 = 72
        0x04, 0x00, 0x00, 0x10, 0x00, 0x01, 0x00, 0x02, 0x00, 0x03, 0x00, 0x04, 0x00, 0x05, 0x00, 0x06,
        // color line at 72: repeat, one stop
        0x01, 0x00, 0x01, 0x20, 0x00, 0xFF, 0xFF, 0x40, 0x00,
    ];
    data.extend_from_slice(&[0xFF]); // an unknown paint format at 81
    let t = colr::Table::parse(p, &data).unwrap();
    assert!(!t.is_simple());
    let base = t.get_v1(GlyphId(3)).unwrap();
    let offset = t.base_paint_offset(base).unwrap();
    assert_eq!(offset, 36);
    match t.paint_node(offset, 0) {
        Some(Paint::Glyph { glyph_id, paint }) => {
            assert_eq!(glyph_id, GlyphId(9));
            assert_eq!(paint, 42);
        }
        _ => panic!("expected a glyph paint"),
    }
    match t.paint_node(42, 0) {
        Some(Paint::Solid { color, alpha }) => {
            assert_eq!(color, RgbaColor::new(0x30, 0x20, 0x10, 0xFF));
            assert_eq!(alpha, 0x4000);
        }
        _ => panic!("expected a solid paint"),
    }
    match t.paint_node(47, 0) {
        Some(Paint::Composite { source, mode, backdrop }) => {
            assert_eq!(source, 56);
            assert_eq!(mode, CompositeMode::Xor);
            assert_eq!(backdrop, 56);
        }
        _ => panic!("expected a composite paint"),
    }
    match t.paint_node(56, 0) {
        Some(Paint::LinearGradient(g)) => {
            assert_eq!((g.x0, g.y0, g.x1, g.y1, g.x2, g.y2), (1, 2, 3, 4, 5, 6));
            assert_eq!(g.extend, GradientExtend::Repeat);
            let fg = RgbaColor::new(9, 9, 9, 9);
            let mut stops = g.stops(0, fg);
            let s = stops.next().unwrap();
            assert_eq!(s.stop_offset, 0x2000);
            assert_eq!(s.color, fg);
            assert_eq!(s.alpha, 0x4000);
            assert!(stops.next().is_none());
        }
        _ => panic!("expected a linear gradient"),
    }
    assert!(matches!(t.paint_node(81, 0), Some(Paint::Unknown)));
    assert!(t.paint_node(82, 0).is_none());
}

#[test]
fn composite_modes_and_extends() {
    assert_eq!(CompositeMode::parse(0), Some(CompositeMode::Clear));
    assert_eq!(CompositeMode::parse(27), Some(CompositeMode::Luminosity));
    assert_eq!(CompositeMode::parse(28), None);
    assert_eq!(GradientExtend::parse(2), Some(GradientExtend::Reflect));
    assert_eq!(GradientExtend::parse(3), None);
}

fn cblc_data() -> Vec<u8> {
    let mut d = vec![0x00, 0x03, 0x00, 0x00, 0x00, 0x00, 0x00, 0x01]; // version, one size
    // BitmapSize record at 8 (48 bytes)
    d.extend_from_slice(&[0x00, 0x00, 0x00, 0x38]); // index subtable array at 56
    d.extend_from_slice(&[0x00, 0x00, 0x00, 0x00]); // index tables size
    d.extend_from_slice(&[0x00, 0x00, 0x00, 0x01]); // one index subtable
    d.extend_from_slice(&[0u8; 28]); // color ref, line metrics
    d.extend_from_slice(&[0x00, 0x01, 0x00, 0x03, 0x14, 0x14, 0x20, 0x01]); // glyphs 1..=3, 20 ppem
    // index subtable array at 56
    d.extend_from_slice(&[0x00, 0x01, 0x00, 0x03, 0x00, 0x00, 0x00, 0x08]); // glyphs 1..=3 at +8
    // index subtable (format 1, image format 17) at 64
    d.extend_from_slice(&[0x00, 0x01, 0x00, 0x11, 0x00, 0x00, 0x00, 0x04]); // image data at 4
    d.extend_from_slice(&[0x00, 0x00, 0x00, 0x00, 0x00, 0x00, 0x00, 0x0E, 0x00, 0x00, 0x00, 0x20]);
    d
}

#[test]
fn cblc_and_cbdt() {
    let loc = cblc_data();
    let l = cblc::find_location(&loc, GlyphId(2), 20).unwrap();
    assert_eq!(l.format, cblc::BitmapFormat::Format17);
    assert_eq!(l.offset, 4 + 14);
    assert_eq!(l.ppem, 20);
    assert!(cblc::find_location(&loc, GlyphId(4), 20).is_none());

    let mut data = vec![0u8; 18];
    data.extend_from_slice(&[0x05, 0x06, 0xFF, 0x02, 0x07, 0x00, 0x00, 0x00, 0x03, 0xAA, 0xBB, 0xCC]);
    let t = cbdt::Table::parse(&loc, &data).unwrap();
    let img = t.get(GlyphId(2), 20).unwrap();
    assert_eq!(img.x, -1);
    assert_eq!(img.y, 2 - 5);
    assert_eq!(img.width, 6);
    assert_eq!(img.height, 5);
    assert_eq!(img.pixels_per_em, 20);
    assert_eq!(img.format, RasterImageFormat::PNG);
    assert_eq!(img.data, &[0xAA, 0xBB, 0xCC][..]);
}

/// A palette entry as an RGBA color.
fn rgba(c: cpal::Color) -> RgbaColor {
    RgbaColor::new(c.red, c.green, c.blue, c.alpha)
}

/// The outlines and colors that a version 0 glyph is painted with, layer by
/// layer, in palette 0; `None` when the glyph has no layers.
fn v0_layers(t: &colr::Table, id: u16) -> Option<Vec<(GlyphId, RgbaColor)>> {
    let base = t.get_v0(GlyphId(id))?;
    let (start, end) = t.layer_range(base)?;
    let mut out = Vec::new();
    for i in start..end {
        let layer = t.layer(i)?;
        out.push((layer.glyph_id, t.palette_color(0, layer.palette_index)?));
    }
    Some(out)
}

#[test]
fn colr_basic() {
    let cpal_data = vec![
        0x00, 0x00, // version
        0x00, 0x03, // number of palette entries
        0x00, 0x01, // number of palettes
        0x00, 0x03, // number of colors
        0x00, 0x00, 0x00, 0x0E, // offset to colors
        0x00, 0x00, // index of palette 0's first color
        10, 15, 20, 25, // color 0
        30, 35, 40, 45, // color 1
        50, 55, 60, 65, // color 2
    ];

    let colr_data = vec![
        0x00, 0x00, // version
        0x00, 0x03, // number of base glyphs
        0x00, 0x00, 0x00, 0x0E, // offset to base glyphs
        0x00, 0x00, 0x00, 0x20, // offset to layers
        0x00, 0x04, // number of layers
        0x00, 0x02, 0x00, 0x02, 0x00, 0x02, // base glyph 0 (id 2)
        0x00, 0x03, 0x00, 0x00, 0x00, 0x03, // base glyph 1 (id 3)
        0x00, 0x07, 0x00, 0x01, 0x00, 0x01, // base glyph 2 (id 7)
        0x00, 0x0A, 0x00, 0x02, // layer 0
        0x00, 0x0B, 0x00, 0x01, // layer 1
        0x00, 0x0C, 0x00, 0x02, // layer 2
        0x00, 0x0D, 0x00, 0x00, // layer 3
    ];

    let cpal = cpal::Table::parse(&cpal_data).unwrap();
    let colr = colr::Table::parse(cpal, &colr_data).unwrap();

    let a = RgbaColor::new(20, 15, 10, 25);
    let b = RgbaColor::new(40, 35, 30, 45);
    let c = RgbaColor::new(60, 55, 50, 65);

    assert_eq!(cpal.get(0, 0).map(rgba), Some(a));
    assert_eq!(cpal.get(0, 1).map(rgba), Some(b));
    assert_eq!(cpal.get(0, 2).map(rgba), Some(c));
    assert_eq!(cpal.get(0, 3).map(rgba), None);
    assert_eq!(cpal.get(1, 0).map(rgba), None);

    assert!(!colr.contains(GlyphId(1)));
    assert!(colr.contains(GlyphId(2)));
    assert!(colr.contains(GlyphId(3)));
    assert!(!colr.contains(GlyphId(4)));
    assert!(!colr.contains(GlyphId(5)));
    assert!(!colr.contains(GlyphId(6)));
    assert!(colr.contains(GlyphId(7)));

    assert_eq!(v0_layers(&colr, 1), None);
    assert_eq!(v0_layers(&colr, 2).unwrap(), vec![(GlyphId(12), c), (GlyphId(13), a)]);
    assert_eq!(
        v0_layers(&colr, 3).unwrap(),
        vec![(GlyphId(10), c), (GlyphId(11), b), (GlyphId(12), c)]
    );
    assert_eq!(v0_layers(&colr, 7).unwrap(), vec![(GlyphId(11), b)]);
}

/// A 48-byte BitmapSize record.
fn bitmap_size(array_offset: u32, subtables: u32, first: u16, last: u16, ppem: u8) -> Vec<u8> {
    let mut r = Vec::new();
    r.extend_from_slice(&array_offset.to_be_bytes());
    r.extend_from_slice(&[0, 0, 0, 0]); // index tables size
    r.extend_from_slice(&subtables.to_be_bytes());
    r.extend_from_slice(&[0u8; 28]); // color ref, line metrics
    r.extend_from_slice(&first.to_be_bytes());
    r.extend_from_slice(&last.to_be_bytes());
    r.extend_from_slice(&[ppem, ppem, 0x20, 0x01]);
    r
}

#[test]
fn cblc_steps_over_whole_size_records() {
    let mut d = vec![0x00, 0x03, 0x00, 0x00, 0x00, 0x00, 0x00, 0x02]; // version, two sizes
    d.extend(bitmap_size(0, 0, 10, 12, 20)); // at 8: other glyphs
    d.extend(bitmap_size(104, 1, 1, 3, 20)); // at 56: glyphs 1..=3
    // index subtable array at 104
    d.extend_from_slice(&[0x00, 0x01, 0x00, 0x03, 0x00, 0x00, 0x00, 0x08]);
    // index subtable (format 1, image format 17) at 112
    d.extend_from_slice(&[0x00, 0x01, 0x00, 0x11, 0x00, 0x00, 0x00, 0x04]);
    d.extend_from_slice(&[0x00, 0x00, 0x00, 0x00, 0x00, 0x00, 0x00, 0x0E, 0x00, 0x00, 0x00, 0x20]);
    let l = cblc::find_location(&d, GlyphId(2), 20).unwrap();
    assert_eq!(l.format, cblc::BitmapFormat::Format17);
    assert_eq!(l.offset, 4 + 14);
    assert_eq!(l.ppem, 20);
    assert!(cblc::find_location(&d, GlyphId(11), 20).is_none());
}
