use ttf_tables::parser::Stream;
use ttf_tables::tables::cff::{parse_metadata, parse_top_dict};
use ttf_tables::tables::cff::index::parse_index;

/// The Top DICT operator that gives the CharStrings offset.
const CHAR_STRINGS_OFFSET: u8 = 17;
/// The Top DICT operator that gives the Private DICT size and offset.
const PRIVATE_DICT_SIZE_AND_OFFSET: u8 = 18;

/// Writes a DICT integer operand in its shortest encoding.
fn cff_int(n: i32) -> Vec<u8> {
    if (-107..=107).contains(&n) {
        vec![(n + 139) as u8]
    } else if (108..=1131).contains(&n) {
        let n = n - 108;
        vec![((n >> 8) + 247) as u8, n as u8]
    } else if (-1131..=-108).contains(&n) {
        let n = -n - 108;
        vec![((n >> 8) + 251) as u8, n as u8]
    } else if (-32768..=32767).contains(&n) {
        let mut v = vec![28];
        v.extend_from_slice(&(n as i16).to_be_bytes());
        v
    } else {
        let mut v = vec![29];
        v.extend_from_slice(&n.to_be_bytes());
        v
    }
}

/// A table header followed by an empty Name INDEX and a one-item Top DICT
/// INDEX whose item gives `char_strings_offset`.
fn header_and_top_dict(char_strings_offset: i32) -> Vec<u8> {
    let mut d = vec![
        1, 0, 4, 0, // major, minor, header size, absolute offset
        0x00, 0x00, // Name INDEX: count
        0x00, 0x01, 1, 1, 3, // Top DICT INDEX: count, offset size, index[0], index[1]
    ];
    d.extend(cff_int(char_strings_offset));
    d.push(CHAR_STRINGS_OFFSET);
    d
}

fn unsupported_version_data() -> Vec<u8> {
    vec![10, 0, 4, 0] // major version 10, only 1 is supported
}

fn non_default_header_size_data() -> Vec<u8> {
    let mut d = vec![
        1, 0, 8, 0, // header of 8 bytes
        0, 0, 0, 0, // no-op, should be skipped
        0x00, 0x00, // Name INDEX: count
        0x00, 0x01, 1, 1, 3, // Top DICT INDEX
    ];
    d.extend(cff_int(21));
    d.push(CHAR_STRINGS_OFFSET);
    d.extend([0x00, 0x00]); // String INDEX: count
    d.extend([0x00, 0x00]); // Global Subrs INDEX: count
    d.extend([0x00, 0x01, 1, 1, 4]); // CharStrings INDEX
    d.extend(cff_int(10));
    d.push(22); // hmoveto
    d.push(14); // endchar
    d
}

fn top_dict_index(item: &[u8]) -> Vec<u8> {
    let mut d = vec![0x00, 0x01, 1, 1, 14]; // count, offset size, index[0], index[1]
    d.extend_from_slice(item);
    d
}

fn private_dict_size_overflow_data() -> Vec<u8> {
    let mut item = cff_int(5);
    item.push(CHAR_STRINGS_OFFSET);
    item.extend(cff_int(i32::MAX)); // length
    item.extend(cff_int(i32::MAX)); // offset
    item.push(PRIVATE_DICT_SIZE_AND_OFFSET);
    top_dict_index(&item)
}

fn negative_char_strings_offset_data() -> Vec<u8> {
    let mut item = cff_int(-1);
    item.push(CHAR_STRINGS_OFFSET);
    top_dict_index(&item)
}

fn no_char_strings_offset_operand_data() -> Vec<u8> {
    top_dict_index(&[CHAR_STRINGS_OFFSET]) // no number before the operator
}

fn negative_private_dict_offset_and_size_data() -> Vec<u8> {
    let mut item = cff_int(-1);
    item.extend(cff_int(-1));
    item.push(PRIVATE_DICT_SIZE_AND_OFFSET);
    top_dict_index(&item)
}

#[test]
fn cff_unsupported_version() {
    assert!(parse_metadata(&unsupported_version_data()).is_none());
}

#[test]
fn cff_non_default_header_size() {
    let data = non_default_header_size_data();
    let metadata = parse_metadata(&data).unwrap();
    assert_eq!(metadata.char_strings.len(), 1);
    assert_eq!(metadata.char_strings.get(0).unwrap(), &[149, 22, 14]);
}

#[test]
fn cff_zero_char_string_offset() {
    assert!(parse_metadata(&header_and_top_dict(0)).is_none());
}

#[test]
fn cff_invalid_char_string_offset() {
    assert!(parse_metadata(&header_and_top_dict(2)).is_none());
}

#[test]
fn index_data_invalid_offset_size_0() {
    let data = [0x00, 0x01, 0]; // count 1, offset size 0
    assert!(parse_index(&mut Stream::new(&data)).is_none());
}

#[test]
fn index_data_invalid_offset_size_5() {
    let data = [0x00, 0x01, 5]; // count 1, offset size 5
    assert!(parse_index(&mut Stream::new(&data)).is_none());
}

#[test]
fn cff_private_dict_size_overflow() {
    let data = private_dict_size_overflow_data();
    let top_dict = parse_top_dict(&mut Stream::new(&data)).unwrap();
    assert_eq!(top_dict.char_strings_offset, 5);
    assert_eq!(top_dict.private_dict_range, Some((2147483647, 4294967294)));
}

#[test]
fn cff_private_dict_negative_char_strings_offset() {
    let data = negative_char_strings_offset_data();
    assert!(parse_top_dict(&mut Stream::new(&data)).is_none());
}

#[test]
fn cff_private_dict_no_char_strings_offset_operand() {
    let data = no_char_strings_offset_operand_data();
    assert!(parse_top_dict(&mut Stream::new(&data)).is_none());
}

#[test]
fn cff_negative_private_dict_offset_and_size() {
    let data = negative_private_dict_offset_and_size_data();
    assert!(parse_top_dict(&mut Stream::new(&data)).is_none());
}

#[test]
fn cff1_unsupported_version() {
    assert!(parse_metadata(&unsupported_version_data()).is_none());
}

#[test]
fn cff1_non_default_header_size() {
    let data = non_default_header_size_data();
    let metadata = parse_metadata(&data).unwrap();
    assert_eq!(metadata.char_strings.get(0).unwrap(), &[149, 22, 14]);
}

#[test]
fn cff1_zero_char_string_offset() {
    assert!(parse_metadata(&header_and_top_dict(0)).is_none());
}

#[test]
fn cff1_invalid_char_string_offset() {
    assert!(parse_metadata(&header_and_top_dict(2)).is_none());
}

#[test]
fn cff1_private_dict_size_overflow() {
    let data = &[
        0x00, 0x01, // count: 1
        0x01, // offset size: 1
        0x01, // index [0]: 1
        0x0C, // index [1]: 12
        0x1D, 0x7F, 0xFF, 0xFF, 0xFF, // length: i32::MAX
        0x1D, 0x7F, 0xFF, 0xFF, 0xFF, // offset: i32::MAX
        0x12, // operator: 18 (private)
    ];

    let top_dict = parse_top_dict(&mut Stream::new(data)).unwrap();
    assert_eq!(top_dict.private_dict_range, Some((2147483647, 4294967294)));
}

#[test]
fn cff1_private_dict_negative_char_strings_offset() {
    let data = &[
        0x00, 0x01, // count: 1
        0x01, // offset size: 1
        0x01, // index [0]: 1
        0x03, // index [1]: 3
        0x8A, // offset: -1
        0x11, // operator: 17 (char_string)
    ];

    assert!(parse_top_dict(&mut Stream::new(data)).is_none());
}

#[test]
fn cff1_private_dict_no_char_strings_offset_operand() {
    let data = &[
        0x00, 0x01, // count: 1
        0x01, // offset size: 1
        0x01, // index [0]: 1
        0x02, // index [1]: 2
        // No number here.
        0x11, // operator: 17 (char_string)
    ];

    assert!(parse_top_dict(&mut Stream::new(data)).is_none());
}

#[test]
fn cff1_negative_private_dict_offset_and_size() {
    let data = &[
        0x00, 0x01, // count: 1
        0x01, // offset size: 1
        0x01, // index [0]: 1
        0x04, // index [1]: 4
        0x8A, // length: -1
        0x8A, // offset: -1
        0x12, // operator: 18 (private)
    ];

    let top_dict = parse_top_dict(&mut Stream::new(data)).unwrap();
    assert!(top_dict.private_dict_range.is_none());
}
