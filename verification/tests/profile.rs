use cmx::datetime::DateTimeNumber;
use cmx::profile::{DisplayProfile, HasRawProfile, InputProfile, Profile, ProfileTagRecord, RawProfile};
use cmx::profile::tag_setter::{RawKind, TagDataKind};
use cmx::signatures::{DeviceClass, Pcs};
use cmx::tag::tags::{CopyrightTag, GreenMatrixColumnTag, NamedColor2Tag, ProfileDescriptionTag, RedMatrixColumnTag};
use cmx::tag::{Tag, TagData, TagSignature};
use cmx::Error;

fn fixed_date() -> DateTimeNumber {
    DateTimeNumber { year: 2025, month: 8, day: 28, hours: 0, minutes: 0, seconds: 0 }
}

fn xyz_payload() -> Vec<u8> {
    let mut v = b"XYZ \0\0\0\0".to_vec();
    v.extend_from_slice(&[0, 0, 0xF6, 0xD6, 0, 1, 0, 0, 0, 0, 0xD3, 0x2D]);
    v
}

fn two_tag_profile(shared: bool) -> RawProfile {
    let mut p = RawProfile::default()
        .with_creation_date(fixed_date())
        .with_tag(RedMatrixColumnTag)
        .as_raw(|_| TagData::new(xyz_payload()))
        .with_tag(GreenMatrixColumnTag)
        .as_raw(|_| TagData::new(xyz_payload()));
    p.shared_tags = shared;
    p
}

fn be32(b: &[u8], off: usize) -> u32 {
    u32::from_be_bytes([b[off], b[off + 1], b[off + 2], b[off + 3]])
}

fn read(bytes: &[u8]) -> Result<RawProfile, Error> {
    assert!(!RawProfile::has_short_named_color2(bytes));
    RawProfile::from_bytes(bytes)
}

#[test]
fn shared_tag_data_is_written_once() {
    let bytes = two_tag_profile(true).into_bytes().unwrap();
    assert_eq!(bytes.len(), 176);
    assert_eq!(be32(&bytes, 0), 176);
    assert_eq!(be32(&bytes, 128), 2);
    assert_eq!(&bytes[132..136], b"rXYZ");
    assert_eq!(be32(&bytes, 136), 156);
    assert_eq!(be32(&bytes, 140), 20);
    assert_eq!(&bytes[144..148], b"gXYZ");
    assert_eq!(be32(&bytes, 148), 156);
    assert_eq!(be32(&bytes, 152), 20);
    assert_eq!(&bytes[156..176], &xyz_payload()[..]);
}

#[test]
fn unshared_tag_data_is_written_per_tag() {
    let bytes = two_tag_profile(false).into_bytes().unwrap();
    assert_eq!(bytes.len(), 196);
    assert_eq!(be32(&bytes, 136), 156);
    assert_eq!(be32(&bytes, 148), 176);
    assert_eq!(&bytes[156..176], &xyz_payload()[..]);
    assert_eq!(&bytes[176..196], &xyz_payload()[..]);
}

#[test]
fn record_offsets_and_sizes_follow_the_layout() {
    let p = two_tag_profile(true).with_updated_tagrecord_offsets_and_sizes().unwrap();
    let (_, r) = p.tags().get_index(0).unwrap();
    assert_eq!((r.offset, r.size), (156, 20));
    let (_, g) = p.tags().get_index(1).unwrap();
    assert_eq!((g.offset, g.size), (156, -20));
    let q = two_tag_profile(false).with_updated_tagrecord_offsets_and_sizes().unwrap();
    let (_, g) = q.tags().get_index(1).unwrap();
    assert_eq!((g.offset, g.size), (176, 20));
}

#[test]
fn data_blocks_are_padded_to_four_bytes() {
    let p = RawProfile::default()
        .with_creation_date(fixed_date())
        .with_tag(ProfileDescriptionTag)
        .as_raw(|_| TagData::new(b"desc\0\0\0\0abcde".to_vec()))
        .with_tag(CopyrightTag)
        .as_raw(|d| d);
    let bytes = p.into_bytes().unwrap();
    assert_eq!(bytes.len(), 180);
    assert_eq!(be32(&bytes, 136), 156);
    assert_eq!(be32(&bytes, 140), 13);
    assert_eq!(be32(&bytes, 148), 172);
    assert_eq!(be32(&bytes, 152), 8);
    assert_eq!(&bytes[169..172], &[0, 0, 0]);
    assert_eq!(&bytes[172..180], b"cprt\0\0\0\0");
}

#[test]
fn as_raw_starts_a_new_tag_with_its_signature() {
    let p = RawProfile::default().with_tag(CopyrightTag).as_raw(|mut d| {
        assert_eq!(d.0, b"cprt\0\0\0\0".to_vec());
        d.0.extend_from_slice(b"CC0");
        d
    });
    let sig: TagSignature = CopyrightTag.into();
    assert_eq!(p.tag_data(sig).unwrap().0, b"cprt\0\0\0\0CC0".to_vec());
    // An existing tag keeps its place and hands its data to the closure.
    let p = p.with_tag(CopyrightTag).as_raw(|mut d| {
        assert_eq!(d.0, b"cprt\0\0\0\0CC0".to_vec());
        d.0.push(b'!');
        d
    });
    assert_eq!(p.tags().len(), 1);
    assert_eq!(p.tag_data(CopyrightTag).unwrap().0, b"cprt\0\0\0\0CC0!".to_vec());
    assert!(p.tag_data(RedMatrixColumnTag).is_none());
}

#[test]
fn reading_back_gives_header_and_tags() {
    let p = two_tag_profile(true);
    let header = p.header;
    let bytes = p.into_bytes().unwrap();
    let q = read(&bytes).unwrap();
    assert_eq!(&q.header[4..84], &header[4..84]);
    assert_eq!(&q.header[100..128], &header[100..128]);
    assert_eq!(q.profile_size(), 176);
    assert!(q.uses_shared_tags());
    assert_eq!(q.tags().len(), 2);
    let (s0, r0) = q.tags().get_index(0).unwrap();
    assert_eq!(*s0, TagSignature::RedMatrixColumn);
    assert_eq!(r0.tag.data.0, xyz_payload());
    assert_eq!((r0.offset, r0.size), (156, 20));
    let (s1, r1) = q.tags().get_index(1).unwrap();
    assert_eq!(*s1, TagSignature::GreenMatrixColumn);
    assert_eq!(r1.tag.data.0, xyz_payload());
}

#[test]
fn rewriting_a_written_profile_is_byte_identical() {
    for shared in [true, false] {
        let bytes = two_tag_profile(shared).with_profile_id().into_bytes().unwrap();
        let q = read(&bytes).unwrap();
        assert_eq!(q.uses_shared_tags(), shared);
        let again = q.into_bytes().unwrap();
        assert_eq!(again, bytes);
    }
}

#[test]
fn unshared_profile_without_duplicates_reads_as_unshared() {
    let p = RawProfile::default()
        .with_creation_date(fixed_date())
        .with_tag(RedMatrixColumnTag)
        .as_raw(|d| d)
        .with_tag(GreenMatrixColumnTag)
        .as_raw(|d| d);
    let bytes = p.into_bytes().unwrap();
    let q = read(&bytes).unwrap();
    assert!(!q.uses_shared_tags());
    assert_eq!(q.into_bytes().unwrap(), bytes);
}

#[test]
fn test_roundtrip_preserves_shared_behavior() {
    let profile = RawProfile::default().with_pcs(Pcs::XYZ).with_version(4, 3).unwrap();
    let original_uses_shared = profile.uses_shared_tags();
    println!("Original profile uses shared tags: {}", original_uses_shared);
    let bytes = profile.into_bytes().unwrap();
    let roundtrip_profile = RawProfile::from_bytes(&bytes).unwrap();
    let roundtrip_uses_shared = roundtrip_profile.uses_shared_tags();
    println!("Roundtrip profile uses shared tags: {}", roundtrip_uses_shared);
    println!("Shared behavior preservation test passed");
}

#[test]
fn test_profile_id_flag_logic() {
    println!("Testing profile ID flag logic...");
    let profile1 = RawProfile::default().without_profile_id();
    let bytes1 = profile1.into_bytes().unwrap();
    let profile_id_bytes1 = &bytes1[84..=99];
    println!("Profile without ID - bytes 84-99: {:?}", profile_id_bytes1);
    println!("Byte 99: {}", bytes1[99]);
    assert_eq!(bytes1[99], 0);
    assert!(profile_id_bytes1.iter().all(|&x| x == 0));
    let profile2 = RawProfile::default().with_profile_id();
    let profile_id_before = profile2.profile_id();
    println!("Profile ID before serialization: {:?}", profile_id_before);
    println!("Last byte before serialization: {}", profile_id_before[15]);
    assert_eq!(profile_id_before[15], 1);
    let bytes2 = profile2.into_bytes().unwrap();
    let profile_id_bytes2 = &bytes2[84..=99];
    println!("Profile with ID - bytes 84-99: {:?}", profile_id_bytes2);
    println!("Byte 99 after serialization: {}", bytes2[99]);
    assert_ne!(bytes2[99], 0);
    assert_ne!(bytes2[99], 1);
    assert!(!profile_id_bytes2.iter().all(|&x| x == 0));
    let profile3 = RawProfile::from_bytes(&bytes2).unwrap();
    let profile_id_after = profile3.profile_id();
    println!("Profile ID after roundtrip: {:?}", profile_id_after);
    assert_eq!(&profile_id_after[..], profile_id_bytes2);
    println!("Test completed successfully.");
}

#[test]
fn profile_id_is_the_checksum_of_the_written_bytes() {
    let mut bytes = two_tag_profile(true).with_profile_id().into_bytes().unwrap();
    let id = bytes[84..100].to_vec();
    let checksum = cmx::profile::md5checksum(&mut bytes);
    assert_eq!(&checksum[..], &id[..]);
}

#[test]
fn named_color2_pcs_flag_is_cleared_on_writing_and_set_on_reading() {
    let mut payload = b"ncl2\0\0\0\0".to_vec();
    payload.extend_from_slice(&[0, 1, 0, 0, 0, 0, 0, 0]);
    let p = RawProfile::default()
        .with_creation_date(fixed_date())
        .with_pcs(Pcs::Lab)
        .with_tag(NamedColor2Tag)
        .as_raw(move |_| TagData::new(payload.clone()));
    let bytes = p.into_bytes().unwrap();
    assert_eq!(be32(&bytes, 136), 144);
    assert_eq!(bytes[144 + 9], 0);
    let q = read(&bytes).unwrap();
    let (_, r) = q.tags().get_index(0).unwrap();
    assert_eq!(r.tag.data.0[9], 1);
    assert_eq!(q.into_bytes().unwrap(), bytes);
}

#[test]
fn short_named_color2_in_a_lab_profile_is_detected() {
    let bytes = RawProfile::default().with_pcs(Pcs::XYZ).with_tag(NamedColor2Tag).as_raw(|d| d).into_bytes().unwrap();
    assert!(!RawProfile::has_short_named_color2(&bytes));
    let mut lab = bytes.clone();
    lab[20..24].copy_from_slice(b"Lab ");
    assert!(RawProfile::has_short_named_color2(&lab));
    assert_eq!(RawProfile::from_bytes(&lab).unwrap_err(), Error::InvalidICCProfile);
    assert_eq!(Profile::from_bytes(&lab).unwrap_err(), Error::InvalidICCProfile);
    assert!(RawProfile::from_bytes(&bytes).is_ok());
}

#[test]
fn each_record_carries_the_signature_of_its_entry() {
    let bytes = two_tag_profile(false).into_bytes().unwrap();
    let p = RawProfile::from_bytes(&bytes).unwrap();
    for (sig, rec) in p.tags().iter() {
        assert_eq!(&rec.tag.signature, sig);
    }
}

#[test]
fn malformed_bytes_are_refused() {
    let good = two_tag_profile(true).into_bytes().unwrap();
    assert_eq!(read(&good[..131]).unwrap_err(), Error::InvalidICCProfile);
    let mut no_acsp = good.clone();
    no_acsp[36] = b'x';
    assert_eq!(read(&no_acsp).unwrap_err(), Error::InvalidICCProfile);
    let mut long_table = good.clone();
    long_table[128..132].copy_from_slice(&100u32.to_be_bytes());
    assert_eq!(read(&long_table).unwrap_err(), Error::InvalidICCProfile);
    let mut outside = good.clone();
    outside[140..144].copy_from_slice(&21u32.to_be_bytes());
    assert_eq!(read(&outside).unwrap_err(), Error::InvalidICCProfile);
    assert!(read(&good).is_ok());
}

#[test]
fn into_string_shows_the_bytes() {
    let s = RawProfile::default().with_creation_date(fixed_date()).into_string().unwrap();
    assert!(s.contains("acsp"));
    assert!(s.contains('\u{FFFD}'));
}

#[test]
fn profiles_take_the_variant_of_their_class() {
    let bytes = DisplayProfile::new().with_creation_date(fixed_date()).to_bytes().unwrap();
    let p = Profile::from_bytes(&bytes).unwrap();
    assert!(matches!(p, Profile::Display(_)));
    assert_eq!(p.data_color_space(), Some(cmx::signatures::ColorSpace::RGB));
    let d = DisplayProfile::try_from(Profile::from_bytes(&bytes).unwrap()).unwrap();
    assert_eq!(d.version().unwrap(), (4, 3));
    match InputProfile::try_from(p) {
        Err(Error::IsNotA(s)) => assert_eq!(s, "Input Profile"),
        _ => panic!("a display profile is no input profile"),
    }
    let raw = RawProfile::default().with_creation_date(fixed_date()).into_bytes().unwrap();
    assert!(matches!(Profile::from_bytes(&raw).unwrap(), Profile::Raw(_)));
    let input = InputProfile::new();
    assert_eq!(input.raw().device_class(), DeviceClass::Input);
}

#[test]
fn profile_builders_keep_the_class() {
    let p = Profile::Display(DisplayProfile::new());
    let p = p.with_version(2, 1).unwrap();
    assert!(matches!(p, Profile::Display(_)));
    assert_eq!(p.version().unwrap(), (2, 1));
    let p = p.with_creation_date(fixed_date());
    assert!(matches!(p, Profile::Display(_)));
    assert!(p.with_version(9, 9).is_err());
}

#[test]
fn tag_data_can_be_changed_in_place() {
    let mut p = two_tag_profile(true);
    {
        let d = p.tag_data_mut(GreenMatrixColumnTag).unwrap();
        d.0[19] = 0x2E;
    }
    assert_eq!(p.tag_data(GreenMatrixColumnTag).unwrap().0[19], 0x2E);
    assert_eq!(p.tag_data(RedMatrixColumnTag).unwrap().0[19], 0x2D);
    assert!(p.tag_data_mut(CopyrightTag).is_none());
    // The payloads differ now, so both are written.
    let bytes = p.into_bytes().unwrap();
    assert_eq!(bytes.len(), 196);
}

#[test]
fn recording_the_layout_changes_no_byte() {
    for shared in [true, false] {
        let p = two_tag_profile(shared);
        let direct = p.clone().into_bytes().unwrap();
        let relaid = p.with_updated_tagrecord_offsets_and_sizes().unwrap();
        assert_eq!(relaid.clone().into_bytes().unwrap(), direct);
        let again = relaid.clone().with_updated_tagrecord_offsets_and_sizes().unwrap();
        assert_eq!(again, relaid);
    }
}

#[test]
fn raw_kind_holds_every_payload() {
    let d = TagData::new(vec![1, 2, 3]);
    assert_eq!(RawKind::as_ref(&d).unwrap().0, vec![1, 2, 3]);
    assert_eq!(RawKind::wrap(TagData::new(vec![4])).0, vec![4]);
}

#[test]
fn default_profiles_of_a_class() {
    let d = DisplayProfile::default();
    assert_eq!(d.raw().device_class(), DeviceClass::Display);
    assert_eq!(d.data_color_space(), Some(cmx::signatures::ColorSpace::RGB));
    let i = InputProfile::default();
    assert_eq!(i.raw().device_class(), DeviceClass::Input);
    let c = cmx::profile::ColorSpaceProfile::new();
    assert_eq!(c.raw().device_class(), DeviceClass::ColorSpace);
}

#[test]
fn tags_of_a_profile_can_be_edited() {
    let mut p = Profile::Raw(two_tag_profile(true));
    p.tags_mut().shift_remove(&TagSignature::RedMatrixColumn);
    assert_eq!(p.tags().len(), 1);
    assert!(matches!(p, Profile::Raw(_)));
}

#[test]
fn unknown_key_with_a_named_code_rewrites_identically() {
    let mut p = RawProfile::default().with_creation_date(fixed_date());
    let code = u32::from_be_bytes(*b"rTRC");
    let record = ProfileTagRecord::new(0, 0, Tag::new(code, TagData::new(xyz_payload())));
    p.tags_mut().insert(TagSignature::Unknown(code), record);
    let bytes = p.into_bytes().unwrap();
    let q = read(&bytes).unwrap();
    let (sig, _) = q.tags().get_index(0).unwrap();
    assert_eq!(*sig, TagSignature::RedTRC);
    assert_eq!(q.into_bytes().unwrap(), bytes);
}
