use cmx::icc::{read_be_u16, read_be_u32, read_date_time, read_signature, read_version, Class, ColorSpace};
use cmx::language::Language;

#[test]
fn language_from_code() {
    let l = Language::try_from(0x656E5553u32).unwrap();
    assert_eq!(l.language, *b"en");
    assert_eq!(l.country, *b"US");
    assert_eq!(l.to_string(), "en-US");
    assert_eq!(Language::try_from(0u32), Err("Language code is undefined (0)"));
    assert_eq!(Language::default().to_string(), "undefined");
    let odd = Language { language: [0xFF, 0x41], country: *b"NL" };
    assert_eq!(odd.to_string(), "??-NL");
}

#[test]
fn reading_header_fields_front_to_back() {
    let data: Vec<u8> = vec![0, 0, 2, 0x2C, 0x12, 0x34, 4, 0x30, 0, 0, b'm', b'n', b't', b'r'];
    let mut input: &[u8] = &data;
    assert_eq!(read_be_u32(&mut input).unwrap(), 0x22C);
    assert_eq!(read_be_u16(&mut input).unwrap(), 0x1234);
    assert_eq!(read_version(&mut input).unwrap(), [4, 3, 0]);
    assert_eq!(input, b"mntr");
    assert!(matches!(Class::read(&mut input), Ok(Class::Display)));
    assert!(input.is_empty());
}

#[test]
fn reading_color_spaces_and_signatures() {
    let data: Vec<u8> = vec![0x6e, 0x63, 0x00, 0x05, b'R', b'G', b'B', b' ', b'z', b'z', b'z', b'z'];
    let mut input: &[u8] = &data;
    assert_eq!(ColorSpace::read(&mut input).unwrap(), (ColorSpace::NC, Some(5)));
    assert_eq!(ColorSpace::read(&mut input).unwrap(), (ColorSpace::RGB, None));
    assert!(ColorSpace::read(&mut input).is_err());
    let sig: Vec<u8> = vec![b'a', b'p', b'p', b'l', 0, b'x', b'y', b'z', 0xFF, 0xFE, 0x41, 0x41];
    let mut input: &[u8] = &sig;
    assert_eq!(read_signature(&mut input).unwrap(), Some("appl".to_string()));
    assert_eq!(read_signature(&mut input).unwrap(), None);
    assert!(read_signature(&mut input).is_err());
}

#[test]
fn reading_a_date() {
    let data: Vec<u8> = vec![0x07, 0xE9, 0, 8, 0, 28, 0, 13, 0, 5, 0, 59];
    let mut input: &[u8] = &data;
    let d = read_date_time(&mut input).unwrap();
    assert_eq!((d.year, d.month, d.day, d.hours, d.minutes, d.seconds), (2025, 8, 28, 13, 5, 59));
    assert!(input.is_empty());
}
