use ttf_tables::{Fixed, GlyphId, Tag};
use ttf_tables::tables::{avar, fvar, hvar, stat};
use ttf_tables::tables::stat::AxisValueTable;

#[test]
fn avar_maps_values() {
    // One axis with the map -1 -> -1, 0 -> 0, 0.5 -> 0.75, 1 -> 1 (2.14 fixed point).
    let mut d = vec![0x00, 0x01, 0x00, 0x00, 0x00, 0x00, 0x00, 0x01, 0x00, 0x04];
    for (from, to) in [(-16384i16, -16384i16), (0, 0), (8192, 12288), (16384, 16384)] {
        d.extend_from_slice(&from.to_be_bytes());
        d.extend_from_slice(&to.to_be_bytes());
    }
    let t = avar::Table::parse(&d).unwrap();
    assert_eq!(t.axis_count, 1);
    let mut coords = vec![8192i16];
    assert_eq!(t.map_coordinates(&mut coords), Some(()));
    assert_eq!(coords, vec![12288]);
    // Halfway between 0 and 0.5 maps halfway between 0 and 0.75.
    let mut coords = vec![4096i16];
    assert_eq!(t.map_coordinates(&mut coords), Some(()));
    assert_eq!(coords, vec![6144]);
    // The wrong number of coordinates is refused and nothing changes.
    let mut coords = vec![1i16, 2];
    assert_eq!(t.map_coordinates(&mut coords), None);
    assert_eq!(coords, vec![1, 2]);
}

#[test]
fn avar_map_value_edges() {
    let mut map = Vec::new();
    for (from, to) in [(-100i16, -50i16), (0, 0), (100, 200)] {
        map.extend_from_slice(&from.to_be_bytes());
        map.extend_from_slice(&to.to_be_bytes());
    }
    assert_eq!(avar::map_value(&map, 0, 77), Some(77));
    assert_eq!(avar::map_value(&map, 1, 10), Some(60));
    assert_eq!(avar::map_value(&map, 3, -200), Some(-150));
    assert_eq!(avar::map_value(&map, 3, 150), Some(250));
    assert_eq!(avar::map_value(&map, 3, 50), Some(100));
    assert_eq!(avar::map_value(&map, 3, -50), Some(-25));
}

#[test]
fn avar_rejects_zero_axes_and_short_maps() {
    let d = [0x00, 0x01, 0x00, 0x00, 0x00, 0x00, 0x00, 0x00];
    assert!(avar::Table::parse(&d).is_none());
    let d = [0x00, 0x01, 0x00, 0x00, 0x00, 0x00, 0x00, 0x01, 0x00, 0x01, 0x00];
    assert!(avar::Table::parse(&d).is_none());
}

#[test]
fn fvar_axes() {
    let mut d = vec![
        0x00, 0x01, 0x00, 0x00, // version
        0x00, 0x10, // axes at 16
        0x00, 0x02, // reserved
        0x00, 0x02, // two axes
        0x00, 0x14, 0x00, 0x00, 0x00, 0x00, // axis size, instance count and size
    ];
    // wght: 100..900, default 400
    d.extend_from_slice(b"wght");
    d.extend_from_slice(&(100i32 << 16).to_be_bytes());
    d.extend_from_slice(&(400i32 << 16).to_be_bytes());
    d.extend_from_slice(&(900i32 << 16).to_be_bytes());
    d.extend_from_slice(&[0x00, 0x00, 0x01, 0x00]);
    // wdth: min above default, hidden
    d.extend_from_slice(b"wdth");
    d.extend_from_slice(&(120i32 << 16).to_be_bytes());
    d.extend_from_slice(&(100i32 << 16).to_be_bytes());
    d.extend_from_slice(&(200i32 << 16).to_be_bytes());
    d.extend_from_slice(&[0x00, 0x08, 0x01, 0x01]);
    let t = fvar::Table::parse(&d).unwrap();
    let mut axes = t.axes();
    assert_eq!(axes.count(), 2);
    let a = axes.next().unwrap();
    assert_eq!(a.tag, Tag(u32::from_be_bytes(*b"wght")));
    assert_eq!(a.min_value, Fixed(100 << 16));
    assert_eq!(a.def_value, Fixed(400 << 16));
    assert_eq!(a.max_value, Fixed(900 << 16));
    assert_eq!(a.name_id, 256);
    assert!(!a.hidden);
    let b = axes.next().unwrap();
    assert_eq!(b.min_value, Fixed(100 << 16));
    assert!(b.hidden);
    assert_eq!(b.name_id, 257);
    assert!(axes.next().is_none());
}

#[test]
fn delta_set_index_map() {
    // entry format 0x0011: two-byte entries, two inner bits.
    let d = [0x00, 0x11, 0x00, 0x02, 0x00, 0x0D, 0x01, 0x02];
    let m = hvar::DeltaSetIndexMap::new(&d);
    assert_eq!(m.map(GlyphId(0)), Some((3, 1)));
    assert_eq!(m.map(GlyphId(1)), Some((64, 2)));
    // Past the end, the last entry is used.
    assert_eq!(m.map(GlyphId(9)), Some((64, 2)));
    assert_eq!(hvar::DeltaSetIndexMap::new(&[0, 0, 0, 0]).map(GlyphId(0)), None);
}

#[test]
fn stat_tables() {
    let mut d = vec![
        0x00, 0x01, 0x00, 0x02, // version 1.2
        0x00, 0x08, // axis record size
        0x00, 0x01, // one axis
        0x00, 0x00, 0x00, 0x14, // axes at 20
        0x00, 0x02, // two axis values
        0x00, 0x00, 0x00, 0x1C, // offsets at 28
        0x00, 0x00, // elided fallback name
    ];
    d.extend_from_slice(b"wght");
    d.extend_from_slice(&[0x01, 0x00, 0x00, 0x00]); // name 256, ordering 0
    d.extend_from_slice(&[0x00, 0x04, 0x00, 0x10]); // offsets 4 and 16, relative to 28
    // format 1 at 32
    d.extend_from_slice(&[0x00, 0x01, 0x00, 0x00, 0x00, 0x02, 0x01, 0x01]);
    d.extend_from_slice(&(400i32 << 16).to_be_bytes());
    // format 4 at 44
    d.extend_from_slice(&[0x00, 0x04, 0x00, 0x01, 0x00, 0x01, 0x01, 0x02]);
    d.extend_from_slice(&[0x00, 0x00]);
    d.extend_from_slice(&(700i32 << 16).to_be_bytes());
    let t = stat::Table::parse(&d).unwrap();
    assert_eq!(t.axes.len(), 1);
    let axis = t.axes.get(0).unwrap();
    assert_eq!(axis.tag, Tag(u32::from_be_bytes(*b"wght")));
    assert_eq!(axis.name_id, 256);
    let mut tables = t.tables();
    match tables.next() {
        Some(AxisValueTable::Format1(f)) => {
            assert_eq!(f.axis_index, 0);
            assert!(f.flags.elidable());
            assert!(!f.flags.older_sibling_attribute());
            assert_eq!(f.value_name_id, 257);
            assert_eq!(f.value, Fixed(400 << 16));
        }
        _ => panic!("expected a format 1 table"),
    }
    match tables.next() {
        Some(AxisValueTable::Format4(f)) => {
            assert!(f.flags & 1 == 1);
            assert_eq!(f.value_name_id, 258);
            assert_eq!(f.values.len(), 1);
            let v = f.values.get(0).unwrap();
            assert_eq!(v.axis_index, 0);
            assert_eq!(v.value, Fixed(700 << 16));
        }
        _ => panic!("expected a format 4 table"),
    }
    assert!(tables.next().is_none());
}

#[test]
fn hvar_delta_set_indices() {
    // Eight bytes of table, then a map at offset 8: entry format 0x0013 (2-byte
    // entries, 4 inner bits), two entries 0x0025 and 0x0101.
    let d = [0, 0, 0, 0, 0, 0, 0, 0, 0x00, 0x13, 0x00, 0x02, 0x00, 0x25, 0x01, 0x01];
    assert_eq!(hvar::advance_delta_set_index(&d, None, GlyphId(7)), Some((0, 7)));
    assert_eq!(hvar::advance_delta_set_index(&d, Some(8), GlyphId(0)), Some((2, 5)));
    assert_eq!(hvar::advance_delta_set_index(&d, Some(8), GlyphId(9)), Some((16, 1)));
    assert_eq!(hvar::advance_delta_set_index(&d, Some(17), GlyphId(0)), None);
    assert_eq!(hvar::side_bearing_delta_set_index(&d, None, GlyphId(0)), None);
    assert_eq!(hvar::side_bearing_delta_set_index(&d, Some(8), GlyphId(1)), Some((16, 1)));
}

#[test]
fn avar_map_value_overflow() {
    // One record 0 -> 100: shifting 32700 by 100 leaves 16 bits.
    let map = [0x00, 0x00, 0x00, 0x64];
    assert_eq!(avar::map_value(&map, 1, 32600), Some(32700));
    assert_eq!(avar::map_value(&map, 1, 32700), None);
    // One record 1 -> 0: -32768 - 1 already overflows.
    let map = [0x00, 0x01, 0x00, 0x00];
    assert_eq!(avar::map_value(&map, 1, -32768), None);
    assert_eq!(avar::map_value(&map, 1, -32767), Some(-32768));
}

#[test]
fn avar_map_value_short_map() {
    // Two records claimed, one present.
    assert_eq!(avar::map_value(&[0x00, 0x00, 0x00, 0x64], 2, 5), None);
}
