use ttf_tables::parser::Stream;
use ttf_tables::tables::cff::dict::{parse_number, skip_number};

#[test]
fn parse_dict_number() {
    assert_eq!(parse_number(0xFA, &mut Stream::new(&[0x7C])).unwrap(), 1000);
    assert_eq!(parse_number(0xFE, &mut Stream::new(&[0x7C])).unwrap(), -1000);
    assert_eq!(parse_number(0x1C, &mut Stream::new(&[0x27, 0x10])).unwrap(), 10000);
    assert_eq!(parse_number(0x1C, &mut Stream::new(&[0xD8, 0xF0])).unwrap(), -10000);
    assert_eq!(parse_number(0x1D, &mut Stream::new(&[0x00, 0x01, 0x86, 0xA0])).unwrap(), 100000);
    assert_eq!(parse_number(0x1D, &mut Stream::new(&[0xFF, 0xFE, 0x79, 0x60])).unwrap(), -100000);
}

#[test]
fn dict_number_past_the_end() {
    // A one-byte operand needs no further byte, wherever the stream stands.
    let data = [0x8B];
    let mut s = Stream { data: &data, offset: 5 };
    assert_eq!(parse_number(0xA0, &mut s), Some(21));
    let mut s = Stream { data: &data, offset: 5 };
    assert_eq!(skip_number(0xA0, &mut s), Some(()));
    assert_eq!(s.offset(), 5);
    // Longer operands fail there.
    let mut s = Stream { data: &data, offset: 5 };
    assert_eq!(parse_number(28, &mut s), None);
    let mut s = Stream { data: &data, offset: 5 };
    assert_eq!(parse_number(30, &mut s), Some(0));
}
