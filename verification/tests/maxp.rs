use ttf_tables::tables::maxp::parse;

#[test]
fn maxp_version_05() {
    let num_glyphs = parse(&[
        0x00, 0x00, 0x50, 0x00, // version: 0.3125
        0x00, 0x01, // number of glyphs: 1
    ]);
    assert_eq!(num_glyphs, Some(1));
}

#[test]
fn maxp_version_1_full() {
    let num_glyphs = parse(&[
        0x00, 0x01, 0x00, 0x00, // version: 1
        0x00, 0x01, // number of glyphs: 1
        0x00, 0x00, 0x00, 0x00, 0x00, 0x00, 0x00, 0x00, 0x00, 0x00, 0x00, 0x00, 0x00, 0x00,
        0x00, 0x00, 0x00, 0x00, 0x00, 0x00, 0x00, 0x00, 0x00, 0x00,
    ]);
    assert_eq!(num_glyphs, Some(1));
}

#[test]
fn maxp_version_1_trimmed() {
    let num_glyphs = parse(&[
        0x00, 0x01, 0x00, 0x00, // version: 1
        0x00, 0x01, // number of glyphs: 1
    ]);
    assert_eq!(num_glyphs, Some(1));
}

#[test]
fn maxp_unknown_version() {
    let num_glyphs = parse(&[
        0x00, 0x00, 0x00, 0x00, // version: 0
        0x00, 0x01, // number of glyphs: 1
    ]);
    assert_eq!(num_glyphs, None);
}

#[test]
fn maxp_zero_glyphs() {
    let num_glyphs = parse(&[
        0x00, 0x00, 0x50, 0x00, // version: 0.3125
        0x00, 0x00, // number of glyphs: 0
    ]);
    assert_eq!(num_glyphs, None);
}

#[test]
fn maxp_truncated_header() {
    assert_eq!(parse(&[0x00, 0x01, 0x00, 0x00, 0x00]), None);
}
