use ttf_tables::{GlyphId, RasterImageFormat};
use ttf_tables::tables::sbix;

#[test]
fn sbix_single_glyph() {
    let data = &[
        0x00, 0x01, // version: 1
        0x00, 0x00, // flags
        0x00, 0x00, 0x00, 0x01, // number of strikes: 1
        0x00, 0x00, 0x00, 0x0C, // strike offset [0]: 12

        // Strike [0]
        0x00, 0x14, // pixels_per_em: 20
        0x00, 0x48, // ppi: 72
        0x00, 0x00, 0x00, 0x0C, // glyph data offset [0]: 12
        0x00, 0x00, 0x00, 0x2C, // glyph data offset [1]: 44

        // Glyph Data [0]
        0x00, 0x01, // x: 1
        0x00, 0x02, // y: 2
        0x70, 0x6E, 0x67, 0x20, // type tag: PNG
        // PNG data, just the part we need
        0x89, 0x50, 0x4E, 0x47,
        0x0D, 0x0A, 0x1A, 0x0A,
        0x00, 0x00, 0x00, 0x0D,
        0x49, 0x48, 0x44, 0x52,
        0x00, 0x00, 0x00, 0x14, // width: 20
        0x00, 0x00, 0x00, 0x1E, // height: 30
    ];

    let glyph_data = sbix::parse(data, 1, GlyphId(0), 20, 0).unwrap();
    assert_eq!(glyph_data.x, 1);
    assert_eq!(glyph_data.y, 2);
    assert_eq!(glyph_data.width, 20);
    assert_eq!(glyph_data.height, 30);
    assert_eq!(glyph_data.pixels_per_em, 20);
    assert_eq!(glyph_data.format, RasterImageFormat::PNG);
    assert_eq!(glyph_data.data.len(), 24);
}

#[test]
fn duplicate_glyph() {
    let data = &[
        0x00, 0x01, // version: 1
        0x00, 0x00, // flags
        0x00, 0x00, 0x00, 0x01, // number of strikes: 1
        0x00, 0x00, 0x00, 0x0C, // strike offset [0]: 12

        // Strike [0]
        0x00, 0x14, // pixels_per_em: 20
        0x00, 0x48, // ppi: 72
        0x00, 0x00, 0x00, 0x10, // glyph data offset [0]: 16
        0x00, 0x00, 0x00, 0x30, // glyph data offset [1]: 48
        0x00, 0x00, 0x00, 0x3A, // glyph data offset [2]: 58

        // Glyph Data [0]
        0x00, 0x01, // x: 1
        0x00, 0x02, // y: 2
        0x70, 0x6E, 0x67, 0x20, // type tag: png
        // PNG data, just the part we need
        0x89, 0x50, 0x4E, 0x47,
        0x0D, 0x0A, 0x1A, 0x0A,
        0x00, 0x00, 0x00, 0x0D,
        0x49, 0x48, 0x44, 0x52,
        0x00, 0x00, 0x00, 0x14, // width: 20
        0x00, 0x00, 0x00, 0x1E, // height: 30

        // Glyph Data [1]
        0x00, 0x01, // x: 3
        0x00, 0x02, // y: 4
        0x64, 0x75, 0x70, 0x65, // type tag: dupe
        0x00, 0x00, // glyph id: 0
    ];

    let glyph_data = sbix::parse(data, 2, GlyphId(1), 20, 0).unwrap();
    assert_eq!(glyph_data.x, 1);
    assert_eq!(glyph_data.y, 2);
    assert_eq!(glyph_data.width, 20);
    assert_eq!(glyph_data.height, 30);
    assert_eq!(glyph_data.pixels_per_em, 20);
    assert_eq!(glyph_data.format, RasterImageFormat::PNG);
    assert_eq!(glyph_data.data.len(), 24);
}

#[test]
fn recursive() {
    let data = &[
        0x00, 0x01, // version: 1
        0x00, 0x00, // flags
        0x00, 0x00, 0x00, 0x01, // number of strikes: 1
        0x00, 0x00, 0x00, 0x0C, // strike offset [0]: 12

        // Strike [0]
        0x00, 0x14, // pixels_per_em: 20
        0x00, 0x48, // ppi: 72
        0x00, 0x00, 0x00, 0x10, // glyph data offset [0]: 16
        0x00, 0x00, 0x00, 0x1A, // glyph data offset [1]: 26
        0x00, 0x00, 0x00, 0x24, // glyph data offset [2]: 36

        // Glyph Data [0]
        0x00, 0x01, // x: 0
        0x00, 0x02, // y: 0
        0x64, 0x75, 0x70, 0x65, // type tag: dupe
        0x00, 0x00, // glyph id: 1

        // Glyph Data [1]
        0x00, 0x01, // x: 0
        0x00, 0x02, // y: 0
        0x64, 0x75, 0x70, 0x65, // type tag: dupe
        0x00, 0x00, // glyph id: 0
    ];

    assert!(sbix::parse(data, 2, GlyphId(0), 20, 0).is_none());
    assert!(sbix::parse(data, 2, GlyphId(1), 20, 0).is_none());
}

#[test]
fn sbix_picks_best_strike() {
    // Two strikes of 10 and 30 ppem, each with one PNG glyph of a different width.
    let mut data = vec![
        0x00, 0x01, 0x00, 0x00, // version, flags
        0x00, 0x00, 0x00, 0x02, // two strikes
        0x00, 0x00, 0x00, 0x10, // strike [0] at 16
        0x00, 0x00, 0x00, 0x3C, // strike [1] at 60
    ];
    for (ppem, width) in [(10u8, 7u8), (30u8, 9u8)] {
        data.extend_from_slice(&[0x00, ppem, 0x00, 0x48]); // ppem, ppi
        data.extend_from_slice(&[0x00, 0x00, 0x00, 0x0C, 0x00, 0x00, 0x00, 0x2C]); // glyph offsets
        data.extend_from_slice(&[0x00, 0x00, 0x00, 0x00, 0x70, 0x6E, 0x67, 0x20]); // x, y, "png "
        data.extend_from_slice(&[0; 16]); // PNG header up to the size
        data.extend_from_slice(&[0, 0, 0, width]);
        data.extend_from_slice(&[0, 0, 0, 1]);
    }
    // 12 ppem asked: the smallest strike not below it is the 30 ppem one.
    let img = sbix::parse(&data, 1, GlyphId(0), 12, 0).unwrap();
    assert_eq!(img.pixels_per_em, 30);
    assert_eq!(img.width, 9);
    assert_eq!(img.height, 1);
    // 5 ppem asked: the smallest strike not below it is the 10 ppem one.
    let img = sbix::parse(&data, 1, GlyphId(0), 5, 0).unwrap();
    assert_eq!(img.pixels_per_em, 10);
    assert_eq!(img.width, 7);
    // 40 ppem asked: no strike is large enough, the largest one is taken.
    let img = sbix::parse(&data, 1, GlyphId(0), 40, 0).unwrap();
    assert_eq!(img.pixels_per_em, 30);
    // The depth limit stops everything.
    assert!(sbix::parse(&data, 1, GlyphId(0), 5, 10).is_none());
}

#[test]
fn sbix_search_past_the_depth_limit() {
    // Glyph 0 is a dupe of glyph 1, a PNG image.
    let mut data = vec![
        0x00, 0x01, 0x00, 0x00, 0x00, 0x00, 0x00, 0x01, 0x00, 0x00, 0x00, 0x0C,
        0x00, 0x14, 0x00, 0x48,
        0x00, 0x00, 0x00, 0x10, // glyph data offset [0]: 16
        0x00, 0x00, 0x00, 0x1A, // glyph data offset [1]: 26
        0x00, 0x00, 0x00, 0x3A, // glyph data offset [2]: 58
        0x00, 0x00, 0x00, 0x00, 0x64, 0x75, 0x70, 0x65, 0x00, 0x01, // dupe of glyph 1
        0x00, 0x03, 0x00, 0x04, 0x70, 0x6E, 0x67, 0x20, // PNG
    ];
    data.extend_from_slice(&[
        0x89, 0x50, 0x4E, 0x47, 0x0D, 0x0A, 0x1A, 0x0A, 0x00, 0x00, 0x00, 0x0D,
        0x49, 0x48, 0x44, 0x52, 0x00, 0x00, 0x00, 0x05, 0x00, 0x00, 0x00, 0x06,
    ]);
    // A search that starts past the limit goes on following references.
    let img = sbix::parse(&data, 2, GlyphId(0), 20, 11).unwrap();
    assert_eq!((img.x, img.y, img.width, img.height), (3, 4, 5, 6));
    // At the limit it gives up, and at depth 255 no further reference fits.
    assert!(sbix::parse(&data, 2, GlyphId(0), 20, 10).is_none());
    assert!(sbix::parse(&data, 2, GlyphId(0), 20, 255).is_none());
    assert!(sbix::parse(&data, 2, GlyphId(1), 20, 255).is_some());
}
