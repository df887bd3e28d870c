use cmx::datetime::DateTimeNumber;
use cmx::header::summary::Header;
use cmx::profile::RawProfile;
use cmx::signatures::{Cmm, ColorSpace, DeviceClass, Pcs, Platform, Signature};
use cmx::tag::{GamutCheck, Interpolate, Quality, RenderingIntent};
use cmx::Error;

fn date(year: u16, month: u16, day: u16, hours: u16, minutes: u16, seconds: u16) -> DateTimeNumber {
    DateTimeNumber { year, month, day, hours, minutes, seconds }
}

#[test]
fn default_profile_header() {
    let p = RawProfile::default();
    assert!(p.check_file_signature().is_ok());
    assert_eq!(p.version().unwrap(), (4, 3));
    assert_eq!(p.pcs(), Some(Pcs::XYZ));
    let xyz = p.pcs_illuminant_s15();
    assert_eq!((xyz[0].raw, xyz[1].raw, xyz[2].raw), (0xF6D6, 0x10000, 0xD32D));
    assert_eq!(p.device_class(), DeviceClass::Unknown);
    assert!(p.uses_shared_tags());
    assert_eq!(p.tags().len(), 0);
    assert!(p.creation_date().is_ok());
}

#[test]
fn test_manual_shared_tags_control() {
    let original_profile = RawProfile::default();
    assert!(original_profile.uses_shared_tags(), "Default profile should use shared tags");
    println!("Manual shared tags control test passed");
}

#[test]
fn version_roundtrip_and_errors() {
    let p = RawProfile::default().with_version(2, 4).unwrap();
    assert_eq!(p.version().unwrap(), (2, 4));
    assert_eq!(p.header[8], 2);
    assert_eq!(p.header[9], 0x40);
    let p = p.with_version(5, 0).unwrap();
    assert_eq!(p.version().unwrap(), (5, 0));
    match RawProfile::default().with_version(3, 1) {
        Err(Error::HeaderParseError(e)) => assert_eq!(e.0, "Invalid ICC profile version: V3.1"),
        _ => panic!("version 3.1 must be refused"),
    }
    match RawProfile::default().with_version(4, 12) {
        Err(Error::HeaderParseError(e)) => assert_eq!(e.0, "Invalid ICC profile version: V4.12"),
        _ => panic!("version 4.12 must be refused"),
    }
    let mut p = RawProfile::default();
    p.header[8] = 4;
    p.header[9] = 0x10;
    assert!(p.version().is_err());
}

#[test]
fn enumerated_fields_roundtrip() {
    let p = RawProfile::default()
        .with_device_class(DeviceClass::Display)
        .with_data_color_space(ColorSpace::RGB)
        .with_pcs(Pcs::Lab)
        .with_primary_platform(Platform::Microsoft)
        .with_rendering_intent(RenderingIntent::Saturation)
        .with_cmm(Cmm::LittleCMS)
        .unwrap();
    assert_eq!(p.device_class(), DeviceClass::Display);
    assert_eq!(p.data_color_space(), Some(ColorSpace::RGB));
    assert_eq!(p.pcs(), Some(Pcs::Lab));
    assert_eq!(p.primary_platform(), Some(Platform::Microsoft));
    assert_eq!(p.rendering_intent(), RenderingIntent::Saturation);
    assert_eq!(p.cmm(), Some(Cmm::LittleCMS));
    assert_eq!(&p.header[12..16], b"mntr");
    assert_eq!(&p.header[16..20], b"RGB ");
    assert_eq!(&p.header[20..24], b"Lab ");
    assert_eq!(&p.header[40..44], b"MSFT");
    assert_eq!(&p.header[4..8], b"lcms");
    assert_eq!(&p.header[64..68], &[0, 0, 0, 2]);
}

#[test]
fn unknown_codes_read_as_none_or_unknown() {
    let mut p = RawProfile::default();
    p.header[16..20].copy_from_slice(b"zzzz");
    p.header[20..24].copy_from_slice(b"RGB ");
    p.header[12..16].copy_from_slice(b"xxxx");
    p.header[64..68].copy_from_slice(&[0, 0, 0, 9]);
    assert_eq!(p.data_color_space(), None);
    assert_eq!(p.pcs(), None);
    assert_eq!(p.device_class(), DeviceClass::Unknown);
    assert_eq!(p.rendering_intent(), RenderingIntent::Perceptual);
}

#[test]
fn flags_roundtrip() {
    let p = RawProfile::default().with_flags(true, false).unwrap();
    assert_eq!(p.flags(), (true, false));
    let p = p.with_flags(false, true).unwrap();
    assert_eq!(p.flags(), (false, true));
    assert_eq!(&p.header[44..48], &[0, 0, 0, 2]);
    let p = p.with_cleared_flags();
    assert_eq!(p.flags(), (false, false));
}

#[test]
fn apple_flags_roundtrip() {
    let p = RawProfile::default().with_apple_flags(Quality::High, Interpolate::False, GamutCheck::False);
    assert_eq!(p.apple_flags(), (Quality::High, Interpolate::False, GamutCheck::False));
    assert_eq!(p.cmm(), Some(Cmm::Apple));
    assert_eq!(&p.header[44..48], &[0, 0x0E, 0, 0]);
    let q = RawProfile::default();
    assert_eq!(q.apple_flags(), (Quality::Normal, Interpolate::True, GamutCheck::True));
}

#[test]
fn apple_flags_replace_earlier_hints() {
    let p = RawProfile::default()
        .with_flags(true, true)
        .unwrap()
        .with_apple_flags(Quality::Draft, Interpolate::False, GamutCheck::False);
    assert_eq!(p.apple_flags(), (Quality::Draft, Interpolate::False, GamutCheck::False));
    let p = p.with_apple_flags(Quality::High, Interpolate::True, GamutCheck::True);
    assert_eq!(p.apple_flags(), (Quality::High, Interpolate::True, GamutCheck::True));
    assert_eq!(p.flags(), (true, true));
    assert_eq!(&p.header[44..48], &[0, 0x02, 0, 0x03]);
}

#[test]
fn manufacturer_model_creator() {
    let p = RawProfile::default().with_manufacturer("TEST");
    assert_eq!(p.manufacturer().unwrap().to_string(), "TEST");
    let p = p.with_manufacturer("TOO LONG");
    assert_eq!(&p.header[48..52], &[0, 0, 0, 0]);
    assert_eq!(p.manufacturer(), None);
    let mut q = RawProfile::default();
    q.header[48] = 0x01;
    assert_eq!(q.manufacturer(), None);
    q.header[48..52].copy_from_slice(&[0x80, 0x41, 0x42, 0x43]);
    let m = q.manufacturer().unwrap();
    assert_eq!(m, Signature(0x80414243));
    assert_eq!(m.to_string(), "80414243");
    let p = p.with_model(Some(Signature(0x41424344)));
    assert_eq!(p.model(), Signature(0x41424344));
    assert_eq!(p.with_model(None).model(), Signature(0));
    let p = RawProfile::default();
    assert_eq!(p.creator(), None);
    let p = p.with_creator("appl");
    assert_eq!(p.creator().unwrap().to_string(), "appl");
}

#[test]
fn attributes_and_size() {
    let p = RawProfile::default().with_attributes(0x0102030405060708).with_profile_size(548);
    assert_eq!(p.attributes(), 0x0102030405060708);
    assert_eq!(p.profile_size(), 548);
    assert_eq!(&p.header[56..64], &[1, 2, 3, 4, 5, 6, 7, 8]);
}

#[test]
fn creation_date_roundtrip_and_invalid_dates() {
    let p = RawProfile::default().with_creation_date(date(2024, 2, 29, 23, 59, 59));
    assert_eq!(p.creation_date().unwrap(), date(2024, 2, 29, 23, 59, 59));
    let p = p.with_creation_date(date(2023, 2, 29, 1, 2, 3));
    match p.creation_date() {
        Err(Error::InvalidDate(t)) => assert_eq!(t, "2023-02-29 01:02:03"),
        _ => panic!("2023-02-29 is no date"),
    }
    let p = p.with_creation_date(date(2025, 1, 1, 24, 0, 0));
    assert!(p.creation_date().is_err());
}

#[test]
fn profile_id_fields() {
    let p = RawProfile::default().with_profile_id();
    let id = p.profile_id();
    assert_eq!(id[15], 1);
    assert!(id[..15].iter().all(|&x| x == 0));
    assert_eq!(p.profile_id_as_hex_string(), "00000000 00000000 00000000 00000001");
    let p = p.without_profile_id();
    assert!(p.profile_id().iter().all(|&x| x == 0));
}

#[test]
fn file_signature_check() {
    let mut p = RawProfile::default();
    assert!(p.check_file_signature().is_ok());
    p.header[36] = 0;
    assert_eq!(p.check_file_signature(), Err(Error::InvalidICCProfile));
    let p = p.with_valid_file_signature();
    assert_eq!(&p.header[36..40], b"acsp");
}

#[test]
fn header_as_text() {
    let p = RawProfile::default()
        .with_creation_date(date(2015, 10, 14, 13, 8, 56))
        .with_device_class(DeviceClass::Display)
        .with_data_color_space(ColorSpace::RGB)
        .with_cmm(Cmm::Apple)
        .unwrap()
        .with_primary_platform(Platform::Apple)
        .with_manufacturer("APPL")
        .with_creator("appl")
        .with_attributes(0b1010)
        .with_flags(true, false)
        .unwrap();
    let h = Header::from_raw(&p);
    assert_eq!(h.cmm.as_deref(), Some("Apple"));
    assert_eq!(h.version, "4.3");
    assert_eq!(h.device_class, "Display");
    assert_eq!(h.color_space.as_deref(), Some("RGB"));
    assert_eq!(h.pcs, "XYZ");
    assert_eq!(h.creation_datetime, "2015-10-14 13:08:56 UTC");
    assert_eq!(h.primary_platform.as_deref(), Some("Apple"));
    assert!(h.embedded);
    assert!(!h.use_embedded_only);
    assert_eq!(h.manufacturer.as_deref(), Some("APPL"));
    assert_eq!(h.model, "");
    assert_eq!(h.attributes, "Matte, BlackAndWhite");
    assert_eq!(h.rendering_intent, "Perceptual");
    assert_eq!(h.creator.as_deref(), Some("appl"));
    assert_eq!(h.profile_id, "");
    assert_eq!(h.pcs_illuminant[0].raw, 0xF6D6);
    let h2 = Header::from_raw(&p.with_creation_date(date(99, 1, 2, 3, 4, 5)).with_attributes(0xF));
    assert_eq!(h2.creation_datetime, "0099-01-02 03:04:05 UTC");
    assert_eq!(h2.attributes, "Transparency, Matte, Negative, BlackAndWhite");
}

#[test]
fn now_replaces_an_invalid_creation_date() {
    let p = RawProfile::default().with_creation_date(date(1999, 0, 0, 99, 99, 99));
    assert!(p.creation_date().is_err());
    let p = p.with_now_as_creation_date();
    let d = p.creation_date().unwrap();
    assert!(d.year >= 2024);
    assert!((1..=12).contains(&d.month));
    assert!(d.hours < 24 && d.minutes < 60 && d.seconds < 60);
}
