use std::str::FromStr;
use cmx::signatures::tag::TagSignature as NamedTag;
use cmx::signatures::tag_signature::TagSignature as FullTagSignature;
use cmx::signatures::{Cmm, ColorSpace, DeviceClass, Pcs, Platform, Signature, TypeSignature};
use cmx::tag::tags::{MediaWhitePointTag, RedTRCTag};
use cmx::tag::{RenderingIntent, TagSignature};
use cmx::Error;

#[test]
fn test_str_to_u32() {
    let s = "vcgp";
    let v = u32::from_be_bytes(s.as_bytes().try_into().unwrap());
    println!("{:?} {:?} {:x?}", s, v, v);
}

#[test]
fn signature_text() {
    assert_eq!(Signature(0x4150504C).to_string(), "APPL");
    assert_eq!(Signature(0x00010203).to_string(), "\0\u{1}\u{2}\u{3}");
    assert_eq!(Signature(0x8150504C).to_string(), "8150504C");
    assert_eq!(Signature::from_text("APPL"), Some(Signature(0x4150504C)));
    assert_eq!(Signature::from_text("APP"), None);
    assert_eq!(Signature::from_text("APPLE"), None);
}

#[test]
fn device_class_codes() {
    assert_eq!(DeviceClass::new(Signature(0x6D6E7472)), DeviceClass::Display);
    assert_eq!(DeviceClass::new(Signature(0x12345678)), DeviceClass::Unknown);
    assert_eq!(DeviceClass::new(Signature(u32::from_be_bytes(*b"cenc"))), DeviceClass::Spectral);
    assert_eq!(DeviceClass::Spectral.to_u32(), u32::from_be_bytes(*b"cenc"));
    assert_eq!(DeviceClass::new(Signature(u32::from_be_bytes(*b"spec"))), DeviceClass::Unknown);
    assert_eq!(DeviceClass::Output.to_u32(), 0x70727472);
    let s: Signature = DeviceClass::Input.into();
    assert_eq!(s, Signature(0x73636E72));
    let v: u32 = DeviceClass::NamedColor.into();
    assert_eq!(v, 0x6E6D636C);
    assert_eq!(DeviceClass::Display.to_string(), "Display");
}

#[test]
fn pcs_codes() {
    assert_eq!(Pcs::new(Signature(0x58595A20)).unwrap(), Pcs::XYZ);
    assert_eq!(Pcs::new(Signature(0x4C616220)).unwrap(), Pcs::Lab);
    match Pcs::new(Signature(0x52474220)) {
        Err(Error::InvalidPcsTag(s)) => assert_eq!(s, Signature(0x52474220)),
        _ => panic!("RGB is no connection space"),
    }
    let s: Signature = Pcs::Lab.into();
    assert_eq!(s.to_string(), "Lab ");
}

#[test]
fn enumeration_codes_and_names() {
    assert_eq!(Cmm::from_u32(0x6170706C), Some(Cmm::Apple));
    assert_eq!(Cmm::from_u32(0), None);
    assert_eq!(Cmm::Apple.to_string(), "Apple");
    assert_eq!(ColorSpace::from_u32(0x434D594B), Some(ColorSpace::CMYK));
    assert_eq!(ColorSpace::CMYK.to_u32(), 0x434D594B);
    assert_eq!(Platform::from_u32(0x4D534654), Some(Platform::Microsoft));
    assert_eq!(RenderingIntent::from(2u32), RenderingIntent::Saturation);
    assert_eq!(RenderingIntent::from(7u32), RenderingIntent::Perceptual);
    assert_eq!(RenderingIntent::AbsoluteColorimetric.to_string(), "AbsoluteColorimetric");
}

#[test]
fn tag_signatures_roundtrip() {
    assert_eq!(TagSignature::new(0x72545243), TagSignature::RedTRC);
    assert_eq!(TagSignature::RedTRC.to_u32(), 0x72545243);
    assert_eq!(TagSignature::new(0x61626364), TagSignature::Unknown(0x61626364));
    assert_eq!(TagSignature::Unknown(0x61626364).to_u32(), 0x61626364);
    assert_eq!(TagSignature::MediaWhitePoint.to_string(), "wtpt");
    let t: TagSignature = RedTRCTag.into();
    assert_eq!(t, TagSignature::RedTRC);
    let w: TagSignature = MediaWhitePointTag.into();
    assert_eq!(w.to_u32(), 0x77747074);
}

#[test]
fn full_tag_signature_table() {
    assert_eq!(FullTagSignature::new(0x62637030), FullTagSignature::BrdfColorimetricParameter0Tag);
    assert_eq!(FullTagSignature::BrdfColorimetricParameter0Tag.to_u32(), 0x62637030);
    assert_eq!(FullTagSignature::new(1), FullTagSignature::Unknown(1));
    assert_eq!(FullTagSignature::new(0x80000001).to_string(), "80000001");
    assert_eq!(FullTagSignature::AbsToRelTransSpaceTag.to_string(), "arts");
}

#[test]
fn named_tags_and_vendor_tags() {
    assert_eq!(NamedTag::new(0x76636770), NamedTag::VcgpTag);
    assert_eq!(NamedTag::new(0x41324230), NamedTag::AToB0Tag);
    assert_eq!(NamedTag::new(0x41424344), NamedTag::VendorTag("ABCD".to_string()));
    assert_eq!(NamedTag::try_new(0x41424344), Some(NamedTag::VendorTag("ABCD".to_string())));
    assert_eq!(NamedTag::try_new(0xFFFFFFFF), None);
    assert_eq!(NamedTag::try_new(0x76636774), Some(NamedTag::VcgtTag));
}

#[test]
fn type_signatures_roundtrip() {
    let t = TypeSignature::from_u32(0x58595A20);
    assert_eq!(t.to_u32(), 0x58595A20);
    let u = TypeSignature::from_u32(0x01020304);
    assert_eq!(u.to_u32(), 0x01020304);
}

#[test]
fn signature_text_reads_back() {
    for code in [0x4150504Cu32, 0x6170706C, 0x20202020, 0x7E000001] {
        let s = Signature(code);
        assert_eq!(Signature::from_text(&s.to_string()), Some(s));
    }
}

#[test]
fn type_signature_text() {
    assert_eq!(TypeSignature::from_u32(0x6368726D).to_string(), "6368726D");
    assert_eq!(TypeSignature::from_str("6368726D").unwrap().to_u32(), 0x6368726D);
    assert_eq!(TypeSignature::from_str("+6368726d").unwrap().to_u32(), 0x6368726D);
    let t: TypeSignature = [0x58, 0x59, 0x5A, 0x20].into();
    assert_eq!(t.to_u32(), 0x58595A20);
    match TypeSignature::from_str("") {
        Err(Error::ParseError(e)) => assert_eq!(e.0, "cannot parse integer from empty string"),
        _ => panic!("empty text is no number"),
    }
    match TypeSignature::from_str("12g4") {
        Err(Error::ParseError(e)) => assert_eq!(e.0, "invalid digit found in string"),
        _ => panic!("g is no hex digit"),
    }
    match TypeSignature::from_str("123456789") {
        Err(Error::ParseError(e)) => assert_eq!(e.0, "number too large to fit in target type"),
        _ => panic!("nine digits do not fit"),
    }
    assert!(TypeSignature::from_str("-1").is_err());
    assert!(TypeSignature::from_str("+").is_err());
}
