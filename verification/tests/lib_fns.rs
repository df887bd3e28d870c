use cmx::{format_hex_with_spaces, is_empty_or_none, is_printable_ascii_bytes, pad_size, padded_size, parse_hex_string};

#[test]
fn test_pad() {
    assert_eq!(pad_size(0), 0);
    assert_eq!(pad_size(1), 3);
    assert_eq!(pad_size(2), 2);
    assert_eq!(pad_size(3), 1);
    assert_eq!(pad_size(4), 0);
    assert_eq!(pad_size(5), 3);
    assert_eq!(pad_size(6), 2);
    assert_eq!(pad_size(7), 1);
    assert_eq!(pad_size(8), 0);
}

#[test]
fn test_format_hex_with_spaces() {
    let data = [0x12, 0x34, 0x56, 0x78, 0x9A, 0xBC];
    let formatted = format_hex_with_spaces(&data);
    assert_eq!(formatted, "12345678 9abc");
}

#[test]
fn padded_size_rounds_up_to_four() {
    assert_eq!(padded_size(0), 0);
    assert_eq!(padded_size(1), 4);
    assert_eq!(padded_size(4), 4);
    assert_eq!(padded_size(13), 16);
    assert_eq!(padded_size(132), 132);
}

#[test]
fn printable_ascii_bounds() {
    assert!(is_printable_ascii_bytes(b"APPL"));
    assert!(is_printable_ascii_bytes(b" ~"));
    assert!(is_printable_ascii_bytes(b""));
    assert!(!is_printable_ascii_bytes(&[0x1F]));
    assert!(!is_printable_ascii_bytes(&[0x41, 0x7F]));
}

#[test]
fn format_hex_groups_by_eight_digits() {
    assert_eq!(format_hex_with_spaces(&[]), "");
    assert_eq!(format_hex_with_spaces(&[0xAB]), "ab");
    assert_eq!(format_hex_with_spaces(&[0, 1, 2, 3]), "00010203");
    assert_eq!(format_hex_with_spaces(&[0, 1, 2, 3, 4, 5, 6, 7, 8]), "00010203 04050607 08");
}

#[test]
fn parse_hex_string_skips_spaces_and_non_hex() {
    assert_eq!(parse_hex_string("12345678 9abc").unwrap(), vec![0x12, 0x34, 0x56, 0x78, 0x9A, 0xBC]);
    assert_eq!(parse_hex_string("de:ad be-ef").unwrap(), vec![0xDE, 0xAD, 0xBE, 0xEF]);
    assert_eq!(parse_hex_string("").unwrap(), Vec::<u8>::new());
    assert!(parse_hex_string("abc").is_err());
}

#[test]
fn empty_or_none_text() {
    assert!(is_empty_or_none(&String::new()));
    assert!(is_empty_or_none(&"none".to_string()));
    assert!(!is_empty_or_none(&"None".to_string()));
    assert!(!is_empty_or_none(&"nonee".to_string()));
    assert!(!is_empty_or_none(&"x".to_string()));
}

#[test]
fn parsing_formatted_hex_gives_the_bytes_back() {
    for data in [vec![], vec![0x00], vec![0xDE, 0xAD, 0xBE, 0xEF, 0x01], (0u8..=255).collect::<Vec<u8>>()] {
        assert_eq!(parse_hex_string(&format_hex_with_spaces(&data)).unwrap(), data);
    }
}
