//! The device-class views of a profile: the `Profile` enum, which holds a raw
//! profile as the variant of its device class, and one wrapper type per class.
//! Each wrapper reads and writes the header of the raw profile it holds.

use vstd::prelude::*;

use crate::bytes::{be_bytes_u32, be_u32_at};
use crate::datetime::{date_time_text, is_clock_reading, valid_date_time, DateTimeNumber};
use crate::error::Error;
use crate::header::{
    apple_hints_of, creation_of, is_supported_version, profile_id_of, quality_of, splice,
    version_code, version_error_text, version_of_code,
};
use crate::profile::format::{
    has_duplicate_offsets, has_short_named_color2, parse_accepts, parsed_entries, tag_count,
};
use crate::profile::layout::{capped, datas, layout_fits, named_color2_writable, next_offset, serialize};
use crate::profile::raw_profile::default_header;
use crate::profile::tag_map::{keys_distinct, tag_table, TagMap};
use crate::profile::tag_setter::TagSetter;
use crate::profile::RawProfile;
use crate::tag::TagSignature;
use crate::signatures::{code_text_printable, signature_code_of_text, Cmm, ColorSpace, DeviceClass, Pcs, Platform, Signature};
use crate::tag::{GamutCheck, Interpolate, Quality, RenderingIntent};
use crate::{grouped_by_eight, hex_lower_text, S15Fixed16};

verus! {

/// Access to the raw profile that a profile type holds.
pub trait HasRawProfile {
    /// The raw profile held.
    spec fn raw_view(&self) -> RawProfile;

    /// Borrows the raw profile.
    fn raw(&self) -> (r: &RawProfile)
        ensures
            *r == self.raw_view(),
    ;

    /// Borrows the raw profile mutably; what is written through the reference is
    /// what the profile then holds.
    fn raw_mut(&mut self) -> (r: &mut RawProfile)
        ensures
            *r == old(self).raw_view(),
            final(self).raw_view() == *final(r),
    ;
}

impl HasRawProfile for RawProfile {
    open spec fn raw_view(&self) -> RawProfile {
        *self
    }

    fn raw(&self) -> (r: &RawProfile) {
        self
    }

    fn raw_mut(&mut self) -> (r: &mut RawProfile) {
        self
    }
}

/// A profile of the `Input` device class.
#[derive(Debug, Clone, PartialEq)]
pub struct InputProfile(pub RawProfile);

impl HasRawProfile for InputProfile {
    open spec fn raw_view(&self) -> RawProfile {
        self.0
    }

    fn raw(&self) -> (r: &RawProfile) {
        &self.0
    }

    fn raw_mut(&mut self) -> (r: &mut RawProfile) {
        &mut self.0
    }
}

impl TryFrom<Profile> for InputProfile {
    type Error = Error;

    fn try_from(profile: Profile) -> (r: Result<Self, Error>) {
        if let Profile::Input(p) = profile {
            Ok(p)
        } else {
            Err(Error::IsNotA("Input Profile"))
        }
    }
}

impl vstd::std_specs::convert::TryFromSpecImpl<Profile> for InputProfile {
    open spec fn obeys_try_from_spec() -> bool {
        true
    }

    open spec fn try_from_spec(profile: Profile) -> Result<Self, Error> {
        if let Profile::Input(p) = profile {
            Ok(p)
        } else {
            Err(Error::IsNotA("Input Profile"))
        }
    }
}

impl Default for InputProfile {
    /// A new profile of this class (see [`InputProfile::new`]).
    fn default() -> (r: Self)
        ensures
            forall|i: int| 0 <= i < 128 && !(24 <= i < 36) ==> #[trigger] r.0.header@[i] == Self::new_header()[i],
            is_clock_reading(creation_of(r.0.header@)),
            tag_table(r.0.tags).len() == 0,
            r.0.shared_tags,
    {
        Self::new()
    }
}

impl InputProfile {
    /// The header of a new profile of this class, but for its creation date and time.
    pub open spec fn new_header() -> Seq<u8> {
        splice(default_header(), 12, be_bytes_u32(DeviceClass::Input.code()))
    }

    /// A new profile of this class: the default raw profile (`acsp` signature,
    /// version 4.3, XYZ connection space, D50 illuminant, the current date and
    /// time, no tags) with the device class set.
    pub fn new() -> (r: Self)
        ensures
            forall|i: int| 0 <= i < 128 && !(24 <= i < 36) ==> #[trigger] r.0.header@[i] == Self::new_header()[i],
            is_clock_reading(creation_of(r.0.header@)),
            tag_table(r.0.tags).len() == 0,
            r.0.shared_tags,
    {
        InputProfile(RawProfile::default().with_device_class(DeviceClass::Input))
    }

    /// The size of the profile in bytes as the header states it.
    pub fn profile_size(&self) -> (r: usize)
        ensures
            r == be_u32_at(self.0.header@, 0),
    {
        self.0.profile_size()
    }

    /// The Color Management Module named by the header, if it is a known one.
    pub fn cmm(&self) -> (r: Option<Cmm>)
        ensures
            r == Cmm::from_code(be_u32_at(self.0.header@, 4)),
    {
        self.0.cmm()
    }

    /// The ICC version as (major, minor); an error when it is not a supported one.
    pub fn version(&self) -> (r: Result<(u8, u8), Error>)
        ensures
            ({
                let (major, minor) = version_of_code(be_u32_at(self.0.header@, 8));
                &&& is_supported_version(major, minor) ==> r == Ok::<(u8, u8), Error>((major, minor))
                &&& !is_supported_version(major, minor) ==> (r matches Err(Error::HeaderParseError(e))
                    && e.0@ == version_error_text(major, minor))
            }),
    {
        self.0.version()
    }

    /// The data color space, if the code is a known one.
    pub fn data_color_space(&self) -> (r: Option<ColorSpace>)
        ensures
            r == ColorSpace::from_code(be_u32_at(self.0.header@, 16)),
    {
        self.0.data_color_space()
    }

    /// The Profile Connection Space, if the code is `XYZ `, `Lab ` or `spec`.
    pub fn pcs(&self) -> (r: Option<Pcs>)
        ensures
            r == Pcs::from_code(be_u32_at(self.0.header@, 20)),
    {
        self.0.pcs()
    }

    /// The PCS illuminant as three s15Fixed16 numbers (X, Y, Z).
    pub fn pcs_illuminant_s15(&self) -> (r: [S15Fixed16; 3])
        ensures
            r[0].raw == be_u32_at(self.0.header@, 68) as i32,
            r[1].raw == be_u32_at(self.0.header@, 72) as i32,
            r[2].raw == be_u32_at(self.0.header@, 76) as i32,
    {
        self.0.pcs_illuminant_s15()
    }

    /// The creation date and time; an `InvalidDate` error when the fields do not form one.
    pub fn creation_date(&self) -> (r: Result<DateTimeNumber, Error>)
        ensures
            valid_date_time(creation_of(self.0.header@)) ==> r == Ok::<DateTimeNumber, Error>(creation_of(self.0.header@)),
            !valid_date_time(creation_of(self.0.header@)) ==> (r matches Err(Error::InvalidDate(t)) && t@ == date_time_text(creation_of(self.0.header@))),
    {
        self.0.creation_date()
    }

    /// The primary platform, if the code is a known one.
    pub fn primary_platform(&self) -> (r: Option<Platform>)
        ensures
            r == Platform::from_code(be_u32_at(self.0.header@, 40)),
    {
        self.0.primary_platform()
    }

    /// The (embedded, use-embedded-only) flags.
    pub fn flags(&self) -> (r: (bool, bool))
        ensures
            r == (be_u32_at(self.0.header@, 44) % 2 == 1, (be_u32_at(self.0.header@, 44) / 2) % 2 == 1),
    {
        self.0.flags()
    }

    /// The Apple (ColorSync) hints in bits 16 to 19 of the flags field.
    pub fn apple_flags(&self) -> (r: (Quality, Interpolate, GamutCheck))
        ensures
            ({
                let (q, i, g) = apple_hints_of(be_u32_at(self.0.header@, 44));
                r == (quality_of(q), if i == 1 { Interpolate::False } else { Interpolate::True },
                    if g == 1 { GamutCheck::False } else { GamutCheck::True })
            }),
    {
        self.0.apple_flags()
    }

    /// The manufacturer signature, when its four bytes are printable ASCII.
    pub fn manufacturer(&self) -> (r: Option<Signature>)
        ensures
            r == (if code_text_printable(be_u32_at(self.0.header@, 48)) {
                Some(Signature(be_u32_at(self.0.header@, 48)))
            } else {
                None::<Signature>
            }),
    {
        self.0.manufacturer()
    }

    /// The model signature.
    pub fn model(&self) -> (r: Signature)
        ensures
            r == Signature(be_u32_at(self.0.header@, 52)),
    {
        self.0.model()
    }

    /// The rendering intent (a value above 3 reads as perceptual).
    pub fn rendering_intent(&self) -> (r: RenderingIntent)
        ensures
            r == RenderingIntent::from_code(be_u32_at(self.0.header@, 64)),
    {
        self.0.rendering_intent()
    }

    /// The 16-byte profile ID field.
    pub fn profile_id(&self) -> (r: [u8; 16])
        ensures
            r@ == profile_id_of(self.0.header@),
    {
        self.0.profile_id()
    }

    /// The profile ID as lowercase hex in groups of eight digits.
    pub fn profile_id_as_hex_string(&self) -> (r: String)
        ensures
            r@ == grouped_by_eight(hex_lower_text(profile_id_of(self.0.header@)), 32),
    {
        self.0.profile_id_as_hex_string()
    }

    /// Sets the ICC version; an error (and no change) for an unsupported version.
    pub fn with_version(self, major: u8, minor: u8) -> (res: Result<Self, Error>)
        ensures
            is_supported_version(major, minor) ==> (res matches Ok(p) && p.0.header@ == splice(
                self.0.header@,
                8,
                be_bytes_u32(version_code(major, minor)),
            ) && p.0.tags == self.0.tags && p.0.shared_tags == self.0.shared_tags),
            !is_supported_version(major, minor) ==> (res matches Err(Error::HeaderParseError(e))
                && e.0@ == version_error_text(major, minor)),
    {
        Ok(InputProfile(self.0.with_version(major, minor)?))
    }

    /// Sets the creation date and time.
    pub fn with_creation_date(self, date: DateTimeNumber) -> (r: Self)
        ensures
            creation_of(r.0.header@) == date,
            forall|i: int| 0 <= i < 128 && !(24 <= i < 36) ==> #[trigger] r.0.header@[i] == self.0.header@[i],
            r.0.tags == self.0.tags,
            r.0.shared_tags == self.0.shared_tags,
    {
        InputProfile(self.0.with_creation_date(date))
    }

    /// Sets the creation date and time to the current UTC time.
    pub fn with_now_as_creation_date(self) -> (r: Self)
        ensures
            is_clock_reading(creation_of(r.0.header@)),
            forall|i: int| 0 <= i < 128 && !(24 <= i < 36) ==> #[trigger] r.0.header@[i] == self.0.header@[i],
            r.0.tags == self.0.tags,
            r.0.shared_tags == self.0.shared_tags,
    {
        InputProfile(self.0.with_now_as_creation_date())
    }

    /// Sets the primary platform.
    pub fn with_primary_platform(self, platform: Platform) -> (r: Self)
        ensures
            r.0.header@ == splice(self.0.header@, 40, be_bytes_u32(platform.code())),
            r.0.tags == self.0.tags,
            r.0.shared_tags == self.0.shared_tags,
    {
        InputProfile(self.0.with_primary_platform(platform))
    }

    /// Sets the Color Management Module; never fails.
    pub fn with_cmm(self, cmm: Cmm) -> (res: Result<Self, Error>)
        ensures
            res matches Ok(p) && p.0.header@ == splice(self.0.header@, 4, be_bytes_u32(cmm.code()))
                && p.0.tags == self.0.tags && p.0.shared_tags == self.0.shared_tags,
    {
        Ok(InputProfile(self.0.with_cmm(cmm)?))
    }

    /// Sets the manufacturer from its four ASCII characters; any other text sets the field to zero.
    pub fn with_manufacturer(self, manufacturer: &str) -> (r: Self)
        ensures
            r.0.header@ == splice(self.0.header@, 48, be_bytes_u32(match signature_code_of_text(manufacturer@) {
                Some(c) => c,
                None => 0u32,
            })),
            r.0.tags == self.0.tags,
            r.0.shared_tags == self.0.shared_tags,
    {
        InputProfile(self.0.with_manufacturer(manufacturer))
    }

    /// Sets the data color space.
    pub fn with_data_color_space(self, color_space: ColorSpace) -> (r: Self)
        ensures
            r.0.header@ == splice(self.0.header@, 16, be_bytes_u32(color_space.code())),
            r.0.tags == self.0.tags,
            r.0.shared_tags == self.0.shared_tags,
    {
        InputProfile(self.0.with_data_color_space(color_space))
    }

    /// Sets the rendering intent.
    pub fn with_rendering_intent(self, rendering_intent: RenderingIntent) -> (r: Self)
        ensures
            r.0.header@ == splice(self.0.header@, 64, be_bytes_u32(rendering_intent.code())),
            r.0.tags == self.0.tags,
            r.0.shared_tags == self.0.shared_tags,
    {
        InputProfile(self.0.with_rendering_intent(rendering_intent))
    }

    /// Sets the creator from its four ASCII characters; any other text sets the field to zero.
    pub fn with_creator(self, creator: &str) -> (r: Self)
        ensures
            r.0.header@ == splice(self.0.header@, 80, be_bytes_u32(match signature_code_of_text(creator@) {
                Some(c) => c,
                None => 0u32,
            })),
            r.0.tags == self.0.tags,
            r.0.shared_tags == self.0.shared_tags,
    {
        InputProfile(self.0.with_creator(creator))
    }

    /// Clears the profile ID, so that none is written.
    pub fn without_profile_id(self) -> (r: Self)
        ensures
            r.0.header@ == splice(self.0.header@, 84, Seq::new(16, |i: int| 0u8)),
            r.0.tags == self.0.tags,
            r.0.shared_tags == self.0.shared_tags,
    {
        InputProfile(self.0.without_profile_id())
    }

    /// Requests a profile ID, computed when the profile is serialised.
    pub fn with_profile_id(self) -> (r: Self)
        ensures
            r.0.header@ == splice(self.0.header@, 84, Seq::new(15, |i: int| 0u8).push(1u8)),
            r.0.tags == self.0.tags,
            r.0.shared_tags == self.0.shared_tags,
    {
        InputProfile(self.0.with_profile_id())
    }

    /// Starts setting the data of tag `tag`.
    pub fn with_tag<S: Into<TagSignature> + Copy>(self, tag: S) -> (t: TagSetter<Self, S>)
        ensures
            t.profile_of() == self,
            t.tag_of() == tag,
    {
        TagSetter::new(self, tag)
    }


    /// Reads a profile from its bytes (see [`RawProfile::from_bytes`]), whatever
    /// its device class.
    pub fn from_bytes(bytes: &[u8]) -> (res: Result<Self, Error>)
        ensures
            res is Ok <==> parse_accepts(bytes@) && !has_short_named_color2(bytes@),
            res matches Err(e) ==> e == Error::InvalidICCProfile,
            res matches Ok(p) ==> {
                &&& p.0@.header == bytes@.subrange(0, 128)
                &&& p.0@.entries == parsed_entries(bytes@, tag_count(bytes@) as nat)
                &&& p.0@.shared == has_duplicate_offsets(bytes@)
                &&& keys_distinct(tag_table(p.0.tags))
            },
    {
        Ok(InputProfile(RawProfile::from_bytes(bytes)?))
    }

    /// Serialises the profile (see [`RawProfile::into_bytes`]).
    pub fn to_bytes(self) -> (res: Result<Vec<u8>, Error>)
        requires
            named_color2_writable(self.0@),
        ensures
            res is Ok <==> layout_fits(datas(self.0@.entries), self.0@.shared),
            res matches Ok(b) ==> b@ == serialize(self.0@),
            res matches Err(e) ==> e == Error::ProfileTooLarge(
                capped(next_offset(datas(self.0@.entries), self.0@.shared, self.0@.entries.len()), usize::MAX as nat) as usize,
            ),
    {
        self.0.into_bytes()
    }
}

/// A profile of the `Display` device class.
#[derive(Debug, Clone, PartialEq)]
pub struct DisplayProfile(pub RawProfile);

impl HasRawProfile for DisplayProfile {
    open spec fn raw_view(&self) -> RawProfile {
        self.0
    }

    fn raw(&self) -> (r: &RawProfile) {
        &self.0
    }

    fn raw_mut(&mut self) -> (r: &mut RawProfile) {
        &mut self.0
    }
}

impl TryFrom<Profile> for DisplayProfile {
    type Error = Error;

    fn try_from(profile: Profile) -> (r: Result<Self, Error>) {
        if let Profile::Display(p) = profile {
            Ok(p)
        } else {
            Err(Error::IsNotA("Display Profile"))
        }
    }
}

impl vstd::std_specs::convert::TryFromSpecImpl<Profile> for DisplayProfile {
    open spec fn obeys_try_from_spec() -> bool {
        true
    }

    open spec fn try_from_spec(profile: Profile) -> Result<Self, Error> {
        if let Profile::Display(p) = profile {
            Ok(p)
        } else {
            Err(Error::IsNotA("Display Profile"))
        }
    }
}

impl Default for DisplayProfile {
    /// A new profile of this class (see [`DisplayProfile::new`]).
    fn default() -> (r: Self)
        ensures
            forall|i: int| 0 <= i < 128 && !(24 <= i < 36) ==> #[trigger] r.0.header@[i] == Self::new_header()[i],
            is_clock_reading(creation_of(r.0.header@)),
            tag_table(r.0.tags).len() == 0,
            r.0.shared_tags,
    {
        Self::new()
    }
}

impl DisplayProfile {
    /// The header of a new profile of this class, but for its creation date and time.
    pub open spec fn new_header() -> Seq<u8> {
        splice(splice(default_header(), 12, be_bytes_u32(DeviceClass::Display.code())), 16, be_bytes_u32(ColorSpace::RGB.code()))
    }

    /// A new profile of this class: the default raw profile (`acsp` signature,
    /// version 4.3, XYZ connection space, D50 illuminant, the current date and
    /// time, no tags) with the device class set, and the RGB data color space.
    pub fn new() -> (r: Self)
        ensures
            forall|i: int| 0 <= i < 128 && !(24 <= i < 36) ==> #[trigger] r.0.header@[i] == Self::new_header()[i],
            is_clock_reading(creation_of(r.0.header@)),
            tag_table(r.0.tags).len() == 0,
            r.0.shared_tags,
    {
        DisplayProfile(RawProfile::default().with_device_class(DeviceClass::Display).with_data_color_space(ColorSpace::RGB))
    }

    /// The size of the profile in bytes as the header states it.
    pub fn profile_size(&self) -> (r: usize)
        ensures
            r == be_u32_at(self.0.header@, 0),
    {
        self.0.profile_size()
    }

    /// The Color Management Module named by the header, if it is a known one.
    pub fn cmm(&self) -> (r: Option<Cmm>)
        ensures
            r == Cmm::from_code(be_u32_at(self.0.header@, 4)),
    {
        self.0.cmm()
    }

    /// The ICC version as (major, minor); an error when it is not a supported one.
    pub fn version(&self) -> (r: Result<(u8, u8), Error>)
        ensures
            ({
                let (major, minor) = version_of_code(be_u32_at(self.0.header@, 8));
                &&& is_supported_version(major, minor) ==> r == Ok::<(u8, u8), Error>((major, minor))
                &&& !is_supported_version(major, minor) ==> (r matches Err(Error::HeaderParseError(e))
                    && e.0@ == version_error_text(major, minor))
            }),
    {
        self.0.version()
    }

    /// The data color space, if the code is a known one.
    pub fn data_color_space(&self) -> (r: Option<ColorSpace>)
        ensures
            r == ColorSpace::from_code(be_u32_at(self.0.header@, 16)),
    {
        self.0.data_color_space()
    }

    /// The Profile Connection Space, if the code is `XYZ `, `Lab ` or `spec`.
    pub fn pcs(&self) -> (r: Option<Pcs>)
        ensures
            r == Pcs::from_code(be_u32_at(self.0.header@, 20)),
    {
        self.0.pcs()
    }

    /// The PCS illuminant as three s15Fixed16 numbers (X, Y, Z).
    pub fn pcs_illuminant_s15(&self) -> (r: [S15Fixed16; 3])
        ensures
            r[0].raw == be_u32_at(self.0.header@, 68) as i32,
            r[1].raw == be_u32_at(self.0.header@, 72) as i32,
            r[2].raw == be_u32_at(self.0.header@, 76) as i32,
    {
        self.0.pcs_illuminant_s15()
    }

    /// The creation date and time; an `InvalidDate` error when the fields do not form one.
    pub fn creation_date(&self) -> (r: Result<DateTimeNumber, Error>)
        ensures
            valid_date_time(creation_of(self.0.header@)) ==> r == Ok::<DateTimeNumber, Error>(creation_of(self.0.header@)),
            !valid_date_time(creation_of(self.0.header@)) ==> (r matches Err(Error::InvalidDate(t)) && t@ == date_time_text(creation_of(self.0.header@))),
    {
        self.0.creation_date()
    }

    /// The primary platform, if the code is a known one.
    pub fn primary_platform(&self) -> (r: Option<Platform>)
        ensures
            r == Platform::from_code(be_u32_at(self.0.header@, 40)),
    {
        self.0.primary_platform()
    }

    /// The (embedded, use-embedded-only) flags.
    pub fn flags(&self) -> (r: (bool, bool))
        ensures
            r == (be_u32_at(self.0.header@, 44) % 2 == 1, (be_u32_at(self.0.header@, 44) / 2) % 2 == 1),
    {
        self.0.flags()
    }

    /// The Apple (ColorSync) hints in bits 16 to 19 of the flags field.
    pub fn apple_flags(&self) -> (r: (Quality, Interpolate, GamutCheck))
        ensures
            ({
                let (q, i, g) = apple_hints_of(be_u32_at(self.0.header@, 44));
                r == (quality_of(q), if i == 1 { Interpolate::False } else { Interpolate::True },
                    if g == 1 { GamutCheck::False } else { GamutCheck::True })
            }),
    {
        self.0.apple_flags()
    }

    /// The manufacturer signature, when its four bytes are printable ASCII.
    pub fn manufacturer(&self) -> (r: Option<Signature>)
        ensures
            r == (if code_text_printable(be_u32_at(self.0.header@, 48)) {
                Some(Signature(be_u32_at(self.0.header@, 48)))
            } else {
                None::<Signature>
            }),
    {
        self.0.manufacturer()
    }

    /// The model signature.
    pub fn model(&self) -> (r: Signature)
        ensures
            r == Signature(be_u32_at(self.0.header@, 52)),
    {
        self.0.model()
    }

    /// The rendering intent (a value above 3 reads as perceptual).
    pub fn rendering_intent(&self) -> (r: RenderingIntent)
        ensures
            r == RenderingIntent::from_code(be_u32_at(self.0.header@, 64)),
    {
        self.0.rendering_intent()
    }

    /// The 16-byte profile ID field.
    pub fn profile_id(&self) -> (r: [u8; 16])
        ensures
            r@ == profile_id_of(self.0.header@),
    {
        self.0.profile_id()
    }

    /// The profile ID as lowercase hex in groups of eight digits.
    pub fn profile_id_as_hex_string(&self) -> (r: String)
        ensures
            r@ == grouped_by_eight(hex_lower_text(profile_id_of(self.0.header@)), 32),
    {
        self.0.profile_id_as_hex_string()
    }

    /// Sets the ICC version; an error (and no change) for an unsupported version.
    pub fn with_version(self, major: u8, minor: u8) -> (res: Result<Self, Error>)
        ensures
            is_supported_version(major, minor) ==> (res matches Ok(p) && p.0.header@ == splice(
                self.0.header@,
                8,
                be_bytes_u32(version_code(major, minor)),
            ) && p.0.tags == self.0.tags && p.0.shared_tags == self.0.shared_tags),
            !is_supported_version(major, minor) ==> (res matches Err(Error::HeaderParseError(e))
                && e.0@ == version_error_text(major, minor)),
    {
        Ok(DisplayProfile(self.0.with_version(major, minor)?))
    }

    /// Sets the creation date and time.
    pub fn with_creation_date(self, date: DateTimeNumber) -> (r: Self)
        ensures
            creation_of(r.0.header@) == date,
            forall|i: int| 0 <= i < 128 && !(24 <= i < 36) ==> #[trigger] r.0.header@[i] == self.0.header@[i],
            r.0.tags == self.0.tags,
            r.0.shared_tags == self.0.shared_tags,
    {
        DisplayProfile(self.0.with_creation_date(date))
    }

    /// Sets the creation date and time to the current UTC time.
    pub fn with_now_as_creation_date(self) -> (r: Self)
        ensures
            is_clock_reading(creation_of(r.0.header@)),
            forall|i: int| 0 <= i < 128 && !(24 <= i < 36) ==> #[trigger] r.0.header@[i] == self.0.header@[i],
            r.0.tags == self.0.tags,
            r.0.shared_tags == self.0.shared_tags,
    {
        DisplayProfile(self.0.with_now_as_creation_date())
    }

    /// Sets the primary platform.
    pub fn with_primary_platform(self, platform: Platform) -> (r: Self)
        ensures
            r.0.header@ == splice(self.0.header@, 40, be_bytes_u32(platform.code())),
            r.0.tags == self.0.tags,
            r.0.shared_tags == self.0.shared_tags,
    {
        DisplayProfile(self.0.with_primary_platform(platform))
    }

    /// Sets the Color Management Module; never fails.
    pub fn with_cmm(self, cmm: Cmm) -> (res: Result<Self, Error>)
        ensures
            res matches Ok(p) && p.0.header@ == splice(self.0.header@, 4, be_bytes_u32(cmm.code()))
                && p.0.tags == self.0.tags && p.0.shared_tags == self.0.shared_tags,
    {
        Ok(DisplayProfile(self.0.with_cmm(cmm)?))
    }

    /// Sets the manufacturer from its four ASCII characters; any other text sets the field to zero.
    pub fn with_manufacturer(self, manufacturer: &str) -> (r: Self)
        ensures
            r.0.header@ == splice(self.0.header@, 48, be_bytes_u32(match signature_code_of_text(manufacturer@) {
                Some(c) => c,
                None => 0u32,
            })),
            r.0.tags == self.0.tags,
            r.0.shared_tags == self.0.shared_tags,
    {
        DisplayProfile(self.0.with_manufacturer(manufacturer))
    }

    /// Sets the data color space.
    pub fn with_data_color_space(self, color_space: ColorSpace) -> (r: Self)
        ensures
            r.0.header@ == splice(self.0.header@, 16, be_bytes_u32(color_space.code())),
            r.0.tags == self.0.tags,
            r.0.shared_tags == self.0.shared_tags,
    {
        DisplayProfile(self.0.with_data_color_space(color_space))
    }

    /// Sets the rendering intent.
    pub fn with_rendering_intent(self, rendering_intent: RenderingIntent) -> (r: Self)
        ensures
            r.0.header@ == splice(self.0.header@, 64, be_bytes_u32(rendering_intent.code())),
            r.0.tags == self.0.tags,
            r.0.shared_tags == self.0.shared_tags,
    {
        DisplayProfile(self.0.with_rendering_intent(rendering_intent))
    }

    /// Sets the creator from its four ASCII characters; any other text sets the field to zero.
    pub fn with_creator(self, creator: &str) -> (r: Self)
        ensures
            r.0.header@ == splice(self.0.header@, 80, be_bytes_u32(match signature_code_of_text(creator@) {
                Some(c) => c,
                None => 0u32,
            })),
            r.0.tags == self.0.tags,
            r.0.shared_tags == self.0.shared_tags,
    {
        DisplayProfile(self.0.with_creator(creator))
    }

    /// Clears the profile ID, so that none is written.
    pub fn without_profile_id(self) -> (r: Self)
        ensures
            r.0.header@ == splice(self.0.header@, 84, Seq::new(16, |i: int| 0u8)),
            r.0.tags == self.0.tags,
            r.0.shared_tags == self.0.shared_tags,
    {
        DisplayProfile(self.0.without_profile_id())
    }

    /// Requests a profile ID, computed when the profile is serialised.
    pub fn with_profile_id(self) -> (r: Self)
        ensures
            r.0.header@ == splice(self.0.header@, 84, Seq::new(15, |i: int| 0u8).push(1u8)),
            r.0.tags == self.0.tags,
            r.0.shared_tags == self.0.shared_tags,
    {
        DisplayProfile(self.0.with_profile_id())
    }

    /// Starts setting the data of tag `tag`.
    pub fn with_tag<S: Into<TagSignature> + Copy>(self, tag: S) -> (t: TagSetter<Self, S>)
        ensures
            t.profile_of() == self,
            t.tag_of() == tag,
    {
        TagSetter::new(self, tag)
    }


    /// Reads a profile from its bytes (see [`RawProfile::from_bytes`]), whatever
    /// its device class.
    pub fn from_bytes(bytes: &[u8]) -> (res: Result<Self, Error>)
        ensures
            res is Ok <==> parse_accepts(bytes@) && !has_short_named_color2(bytes@),
            res matches Err(e) ==> e == Error::InvalidICCProfile,
            res matches Ok(p) ==> {
                &&& p.0@.header == bytes@.subrange(0, 128)
                &&& p.0@.entries == parsed_entries(bytes@, tag_count(bytes@) as nat)
                &&& p.0@.shared == has_duplicate_offsets(bytes@)
                &&& keys_distinct(tag_table(p.0.tags))
            },
    {
        Ok(DisplayProfile(RawProfile::from_bytes(bytes)?))
    }

    /// Serialises the profile (see [`RawProfile::into_bytes`]).
    pub fn to_bytes(self) -> (res: Result<Vec<u8>, Error>)
        requires
            named_color2_writable(self.0@),
        ensures
            res is Ok <==> layout_fits(datas(self.0@.entries), self.0@.shared),
            res matches Ok(b) ==> b@ == serialize(self.0@),
            res matches Err(e) ==> e == Error::ProfileTooLarge(
                capped(next_offset(datas(self.0@.entries), self.0@.shared, self.0@.entries.len()), usize::MAX as nat) as usize,
            ),
    {
        self.0.into_bytes()
    }
}

/// A profile of the `Output` device class.
#[derive(Debug, Clone, PartialEq)]
pub struct OutputProfile(pub RawProfile);

impl HasRawProfile for OutputProfile {
    open spec fn raw_view(&self) -> RawProfile {
        self.0
    }

    fn raw(&self) -> (r: &RawProfile) {
        &self.0
    }

    fn raw_mut(&mut self) -> (r: &mut RawProfile) {
        &mut self.0
    }
}

impl TryFrom<Profile> for OutputProfile {
    type Error = Error;

    fn try_from(profile: Profile) -> (r: Result<Self, Error>) {
        if let Profile::Output(p) = profile {
            Ok(p)
        } else {
            Err(Error::IsNotA("Output Profile"))
        }
    }
}

impl vstd::std_specs::convert::TryFromSpecImpl<Profile> for OutputProfile {
    open spec fn obeys_try_from_spec() -> bool {
        true
    }

    open spec fn try_from_spec(profile: Profile) -> Result<Self, Error> {
        if let Profile::Output(p) = profile {
            Ok(p)
        } else {
            Err(Error::IsNotA("Output Profile"))
        }
    }
}

impl OutputProfile {
    /// The size of the profile in bytes as the header states it.
    pub fn profile_size(&self) -> (r: usize)
        ensures
            r == be_u32_at(self.0.header@, 0),
    {
        self.0.profile_size()
    }

    /// The Color Management Module named by the header, if it is a known one.
    pub fn cmm(&self) -> (r: Option<Cmm>)
        ensures
            r == Cmm::from_code(be_u32_at(self.0.header@, 4)),
    {
        self.0.cmm()
    }

    /// The ICC version as (major, minor); an error when it is not a supported one.
    pub fn version(&self) -> (r: Result<(u8, u8), Error>)
        ensures
            ({
                let (major, minor) = version_of_code(be_u32_at(self.0.header@, 8));
                &&& is_supported_version(major, minor) ==> r == Ok::<(u8, u8), Error>((major, minor))
                &&& !is_supported_version(major, minor) ==> (r matches Err(Error::HeaderParseError(e))
                    && e.0@ == version_error_text(major, minor))
            }),
    {
        self.0.version()
    }

    /// The data color space, if the code is a known one.
    pub fn data_color_space(&self) -> (r: Option<ColorSpace>)
        ensures
            r == ColorSpace::from_code(be_u32_at(self.0.header@, 16)),
    {
        self.0.data_color_space()
    }

    /// The Profile Connection Space, if the code is `XYZ `, `Lab ` or `spec`.
    pub fn pcs(&self) -> (r: Option<Pcs>)
        ensures
            r == Pcs::from_code(be_u32_at(self.0.header@, 20)),
    {
        self.0.pcs()
    }

    /// The PCS illuminant as three s15Fixed16 numbers (X, Y, Z).
    pub fn pcs_illuminant_s15(&self) -> (r: [S15Fixed16; 3])
        ensures
            r[0].raw == be_u32_at(self.0.header@, 68) as i32,
            r[1].raw == be_u32_at(self.0.header@, 72) as i32,
            r[2].raw == be_u32_at(self.0.header@, 76) as i32,
    {
        self.0.pcs_illuminant_s15()
    }

    /// The creation date and time; an `InvalidDate` error when the fields do not form one.
    pub fn creation_date(&self) -> (r: Result<DateTimeNumber, Error>)
        ensures
            valid_date_time(creation_of(self.0.header@)) ==> r == Ok::<DateTimeNumber, Error>(creation_of(self.0.header@)),
            !valid_date_time(creation_of(self.0.header@)) ==> (r matches Err(Error::InvalidDate(t)) && t@ == date_time_text(creation_of(self.0.header@))),
    {
        self.0.creation_date()
    }

    /// The primary platform, if the code is a known one.
    pub fn primary_platform(&self) -> (r: Option<Platform>)
        ensures
            r == Platform::from_code(be_u32_at(self.0.header@, 40)),
    {
        self.0.primary_platform()
    }

    /// The (embedded, use-embedded-only) flags.
    pub fn flags(&self) -> (r: (bool, bool))
        ensures
            r == (be_u32_at(self.0.header@, 44) % 2 == 1, (be_u32_at(self.0.header@, 44) / 2) % 2 == 1),
    {
        self.0.flags()
    }

    /// The Apple (ColorSync) hints in bits 16 to 19 of the flags field.
    pub fn apple_flags(&self) -> (r: (Quality, Interpolate, GamutCheck))
        ensures
            ({
                let (q, i, g) = apple_hints_of(be_u32_at(self.0.header@, 44));
                r == (quality_of(q), if i == 1 { Interpolate::False } else { Interpolate::True },
                    if g == 1 { GamutCheck::False } else { GamutCheck::True })
            }),
    {
        self.0.apple_flags()
    }

    /// The manufacturer signature, when its four bytes are printable ASCII.
    pub fn manufacturer(&self) -> (r: Option<Signature>)
        ensures
            r == (if code_text_printable(be_u32_at(self.0.header@, 48)) {
                Some(Signature(be_u32_at(self.0.header@, 48)))
            } else {
                None::<Signature>
            }),
    {
        self.0.manufacturer()
    }

    /// The model signature.
    pub fn model(&self) -> (r: Signature)
        ensures
            r == Signature(be_u32_at(self.0.header@, 52)),
    {
        self.0.model()
    }

    /// The rendering intent (a value above 3 reads as perceptual).
    pub fn rendering_intent(&self) -> (r: RenderingIntent)
        ensures
            r == RenderingIntent::from_code(be_u32_at(self.0.header@, 64)),
    {
        self.0.rendering_intent()
    }

    /// The 16-byte profile ID field.
    pub fn profile_id(&self) -> (r: [u8; 16])
        ensures
            r@ == profile_id_of(self.0.header@),
    {
        self.0.profile_id()
    }

    /// The profile ID as lowercase hex in groups of eight digits.
    pub fn profile_id_as_hex_string(&self) -> (r: String)
        ensures
            r@ == grouped_by_eight(hex_lower_text(profile_id_of(self.0.header@)), 32),
    {
        self.0.profile_id_as_hex_string()
    }

    /// Sets the ICC version; an error (and no change) for an unsupported version.
    pub fn with_version(self, major: u8, minor: u8) -> (res: Result<Self, Error>)
        ensures
            is_supported_version(major, minor) ==> (res matches Ok(p) && p.0.header@ == splice(
                self.0.header@,
                8,
                be_bytes_u32(version_code(major, minor)),
            ) && p.0.tags == self.0.tags && p.0.shared_tags == self.0.shared_tags),
            !is_supported_version(major, minor) ==> (res matches Err(Error::HeaderParseError(e))
                && e.0@ == version_error_text(major, minor)),
    {
        Ok(OutputProfile(self.0.with_version(major, minor)?))
    }

    /// Sets the creation date and time.
    pub fn with_creation_date(self, date: DateTimeNumber) -> (r: Self)
        ensures
            creation_of(r.0.header@) == date,
            forall|i: int| 0 <= i < 128 && !(24 <= i < 36) ==> #[trigger] r.0.header@[i] == self.0.header@[i],
            r.0.tags == self.0.tags,
            r.0.shared_tags == self.0.shared_tags,
    {
        OutputProfile(self.0.with_creation_date(date))
    }

    /// Sets the creation date and time to the current UTC time.
    pub fn with_now_as_creation_date(self) -> (r: Self)
        ensures
            is_clock_reading(creation_of(r.0.header@)),
            forall|i: int| 0 <= i < 128 && !(24 <= i < 36) ==> #[trigger] r.0.header@[i] == self.0.header@[i],
            r.0.tags == self.0.tags,
            r.0.shared_tags == self.0.shared_tags,
    {
        OutputProfile(self.0.with_now_as_creation_date())
    }

    /// Sets the primary platform.
    pub fn with_primary_platform(self, platform: Platform) -> (r: Self)
        ensures
            r.0.header@ == splice(self.0.header@, 40, be_bytes_u32(platform.code())),
            r.0.tags == self.0.tags,
            r.0.shared_tags == self.0.shared_tags,
    {
        OutputProfile(self.0.with_primary_platform(platform))
    }

    /// Sets the Color Management Module; never fails.
    pub fn with_cmm(self, cmm: Cmm) -> (res: Result<Self, Error>)
        ensures
            res matches Ok(p) && p.0.header@ == splice(self.0.header@, 4, be_bytes_u32(cmm.code()))
                && p.0.tags == self.0.tags && p.0.shared_tags == self.0.shared_tags,
    {
        Ok(OutputProfile(self.0.with_cmm(cmm)?))
    }

    /// Sets the manufacturer from its four ASCII characters; any other text sets the field to zero.
    pub fn with_manufacturer(self, manufacturer: &str) -> (r: Self)
        ensures
            r.0.header@ == splice(self.0.header@, 48, be_bytes_u32(match signature_code_of_text(manufacturer@) {
                Some(c) => c,
                None => 0u32,
            })),
            r.0.tags == self.0.tags,
            r.0.shared_tags == self.0.shared_tags,
    {
        OutputProfile(self.0.with_manufacturer(manufacturer))
    }

    /// Sets the data color space.
    pub fn with_data_color_space(self, color_space: ColorSpace) -> (r: Self)
        ensures
            r.0.header@ == splice(self.0.header@, 16, be_bytes_u32(color_space.code())),
            r.0.tags == self.0.tags,
            r.0.shared_tags == self.0.shared_tags,
    {
        OutputProfile(self.0.with_data_color_space(color_space))
    }

    /// Sets the rendering intent.
    pub fn with_rendering_intent(self, rendering_intent: RenderingIntent) -> (r: Self)
        ensures
            r.0.header@ == splice(self.0.header@, 64, be_bytes_u32(rendering_intent.code())),
            r.0.tags == self.0.tags,
            r.0.shared_tags == self.0.shared_tags,
    {
        OutputProfile(self.0.with_rendering_intent(rendering_intent))
    }

    /// Sets the creator from its four ASCII characters; any other text sets the field to zero.
    pub fn with_creator(self, creator: &str) -> (r: Self)
        ensures
            r.0.header@ == splice(self.0.header@, 80, be_bytes_u32(match signature_code_of_text(creator@) {
                Some(c) => c,
                None => 0u32,
            })),
            r.0.tags == self.0.tags,
            r.0.shared_tags == self.0.shared_tags,
    {
        OutputProfile(self.0.with_creator(creator))
    }

    /// Clears the profile ID, so that none is written.
    pub fn without_profile_id(self) -> (r: Self)
        ensures
            r.0.header@ == splice(self.0.header@, 84, Seq::new(16, |i: int| 0u8)),
            r.0.tags == self.0.tags,
            r.0.shared_tags == self.0.shared_tags,
    {
        OutputProfile(self.0.without_profile_id())
    }

    /// Requests a profile ID, computed when the profile is serialised.
    pub fn with_profile_id(self) -> (r: Self)
        ensures
            r.0.header@ == splice(self.0.header@, 84, Seq::new(15, |i: int| 0u8).push(1u8)),
            r.0.tags == self.0.tags,
            r.0.shared_tags == self.0.shared_tags,
    {
        OutputProfile(self.0.with_profile_id())
    }

    /// Starts setting the data of tag `tag`.
    pub fn with_tag<S: Into<TagSignature> + Copy>(self, tag: S) -> (t: TagSetter<Self, S>)
        ensures
            t.profile_of() == self,
            t.tag_of() == tag,
    {
        TagSetter::new(self, tag)
    }


    /// Reads a profile from its bytes (see [`RawProfile::from_bytes`]), whatever
    /// its device class.
    pub fn from_bytes(bytes: &[u8]) -> (res: Result<Self, Error>)
        ensures
            res is Ok <==> parse_accepts(bytes@) && !has_short_named_color2(bytes@),
            res matches Err(e) ==> e == Error::InvalidICCProfile,
            res matches Ok(p) ==> {
                &&& p.0@.header == bytes@.subrange(0, 128)
                &&& p.0@.entries == parsed_entries(bytes@, tag_count(bytes@) as nat)
                &&& p.0@.shared == has_duplicate_offsets(bytes@)
                &&& keys_distinct(tag_table(p.0.tags))
            },
    {
        Ok(OutputProfile(RawProfile::from_bytes(bytes)?))
    }

    /// Serialises the profile (see [`RawProfile::into_bytes`]).
    pub fn to_bytes(self) -> (res: Result<Vec<u8>, Error>)
        requires
            named_color2_writable(self.0@),
        ensures
            res is Ok <==> layout_fits(datas(self.0@.entries), self.0@.shared),
            res matches Ok(b) ==> b@ == serialize(self.0@),
            res matches Err(e) ==> e == Error::ProfileTooLarge(
                capped(next_offset(datas(self.0@.entries), self.0@.shared, self.0@.entries.len()), usize::MAX as nat) as usize,
            ),
    {
        self.0.into_bytes()
    }
}

/// A profile of the `DeviceLink` device class.
#[derive(Debug, Clone, PartialEq)]
pub struct DeviceLinkProfile(pub RawProfile);

impl HasRawProfile for DeviceLinkProfile {
    open spec fn raw_view(&self) -> RawProfile {
        self.0
    }

    fn raw(&self) -> (r: &RawProfile) {
        &self.0
    }

    fn raw_mut(&mut self) -> (r: &mut RawProfile) {
        &mut self.0
    }
}

impl TryFrom<Profile> for DeviceLinkProfile {
    type Error = Error;

    fn try_from(profile: Profile) -> (r: Result<Self, Error>) {
        if let Profile::DeviceLink(p) = profile {
            Ok(p)
        } else {
            Err(Error::IsNotA("DeviceLink Profile"))
        }
    }
}

impl vstd::std_specs::convert::TryFromSpecImpl<Profile> for DeviceLinkProfile {
    open spec fn obeys_try_from_spec() -> bool {
        true
    }

    open spec fn try_from_spec(profile: Profile) -> Result<Self, Error> {
        if let Profile::DeviceLink(p) = profile {
            Ok(p)
        } else {
            Err(Error::IsNotA("DeviceLink Profile"))
        }
    }
}

impl DeviceLinkProfile {
    /// The size of the profile in bytes as the header states it.
    pub fn profile_size(&self) -> (r: usize)
        ensures
            r == be_u32_at(self.0.header@, 0),
    {
        self.0.profile_size()
    }

    /// The Color Management Module named by the header, if it is a known one.
    pub fn cmm(&self) -> (r: Option<Cmm>)
        ensures
            r == Cmm::from_code(be_u32_at(self.0.header@, 4)),
    {
        self.0.cmm()
    }

    /// The ICC version as (major, minor); an error when it is not a supported one.
    pub fn version(&self) -> (r: Result<(u8, u8), Error>)
        ensures
            ({
                let (major, minor) = version_of_code(be_u32_at(self.0.header@, 8));
                &&& is_supported_version(major, minor) ==> r == Ok::<(u8, u8), Error>((major, minor))
                &&& !is_supported_version(major, minor) ==> (r matches Err(Error::HeaderParseError(e))
                    && e.0@ == version_error_text(major, minor))
            }),
    {
        self.0.version()
    }

    /// The data color space, if the code is a known one.
    pub fn data_color_space(&self) -> (r: Option<ColorSpace>)
        ensures
            r == ColorSpace::from_code(be_u32_at(self.0.header@, 16)),
    {
        self.0.data_color_space()
    }

    /// The Profile Connection Space, if the code is `XYZ `, `Lab ` or `spec`.
    pub fn pcs(&self) -> (r: Option<Pcs>)
        ensures
            r == Pcs::from_code(be_u32_at(self.0.header@, 20)),
    {
        self.0.pcs()
    }

    /// The PCS illuminant as three s15Fixed16 numbers (X, Y, Z).
    pub fn pcs_illuminant_s15(&self) -> (r: [S15Fixed16; 3])
        ensures
            r[0].raw == be_u32_at(self.0.header@, 68) as i32,
            r[1].raw == be_u32_at(self.0.header@, 72) as i32,
            r[2].raw == be_u32_at(self.0.header@, 76) as i32,
    {
        self.0.pcs_illuminant_s15()
    }

    /// The creation date and time; an `InvalidDate` error when the fields do not form one.
    pub fn creation_date(&self) -> (r: Result<DateTimeNumber, Error>)
        ensures
            valid_date_time(creation_of(self.0.header@)) ==> r == Ok::<DateTimeNumber, Error>(creation_of(self.0.header@)),
            !valid_date_time(creation_of(self.0.header@)) ==> (r matches Err(Error::InvalidDate(t)) && t@ == date_time_text(creation_of(self.0.header@))),
    {
        self.0.creation_date()
    }

    /// The primary platform, if the code is a known one.
    pub fn primary_platform(&self) -> (r: Option<Platform>)
        ensures
            r == Platform::from_code(be_u32_at(self.0.header@, 40)),
    {
        self.0.primary_platform()
    }

    /// The (embedded, use-embedded-only) flags.
    pub fn flags(&self) -> (r: (bool, bool))
        ensures
            r == (be_u32_at(self.0.header@, 44) % 2 == 1, (be_u32_at(self.0.header@, 44) / 2) % 2 == 1),
    {
        self.0.flags()
    }

    /// The Apple (ColorSync) hints in bits 16 to 19 of the flags field.
    pub fn apple_flags(&self) -> (r: (Quality, Interpolate, GamutCheck))
        ensures
            ({
                let (q, i, g) = apple_hints_of(be_u32_at(self.0.header@, 44));
                r == (quality_of(q), if i == 1 { Interpolate::False } else { Interpolate::True },
                    if g == 1 { GamutCheck::False } else { GamutCheck::True })
            }),
    {
        self.0.apple_flags()
    }

    /// The manufacturer signature, when its four bytes are printable ASCII.
    pub fn manufacturer(&self) -> (r: Option<Signature>)
        ensures
            r == (if code_text_printable(be_u32_at(self.0.header@, 48)) {
                Some(Signature(be_u32_at(self.0.header@, 48)))
            } else {
                None::<Signature>
            }),
    {
        self.0.manufacturer()
    }

    /// The model signature.
    pub fn model(&self) -> (r: Signature)
        ensures
            r == Signature(be_u32_at(self.0.header@, 52)),
    {
        self.0.model()
    }

    /// The rendering intent (a value above 3 reads as perceptual).
    pub fn rendering_intent(&self) -> (r: RenderingIntent)
        ensures
            r == RenderingIntent::from_code(be_u32_at(self.0.header@, 64)),
    {
        self.0.rendering_intent()
    }

    /// The 16-byte profile ID field.
    pub fn profile_id(&self) -> (r: [u8; 16])
        ensures
            r@ == profile_id_of(self.0.header@),
    {
        self.0.profile_id()
    }

    /// The profile ID as lowercase hex in groups of eight digits.
    pub fn profile_id_as_hex_string(&self) -> (r: String)
        ensures
            r@ == grouped_by_eight(hex_lower_text(profile_id_of(self.0.header@)), 32),
    {
        self.0.profile_id_as_hex_string()
    }

    /// Sets the ICC version; an error (and no change) for an unsupported version.
    pub fn with_version(self, major: u8, minor: u8) -> (res: Result<Self, Error>)
        ensures
            is_supported_version(major, minor) ==> (res matches Ok(p) && p.0.header@ == splice(
                self.0.header@,
                8,
                be_bytes_u32(version_code(major, minor)),
            ) && p.0.tags == self.0.tags && p.0.shared_tags == self.0.shared_tags),
            !is_supported_version(major, minor) ==> (res matches Err(Error::HeaderParseError(e))
                && e.0@ == version_error_text(major, minor)),
    {
        Ok(DeviceLinkProfile(self.0.with_version(major, minor)?))
    }

    /// Sets the creation date and time.
    pub fn with_creation_date(self, date: DateTimeNumber) -> (r: Self)
        ensures
            creation_of(r.0.header@) == date,
            forall|i: int| 0 <= i < 128 && !(24 <= i < 36) ==> #[trigger] r.0.header@[i] == self.0.header@[i],
            r.0.tags == self.0.tags,
            r.0.shared_tags == self.0.shared_tags,
    {
        DeviceLinkProfile(self.0.with_creation_date(date))
    }

    /// Sets the creation date and time to the current UTC time.
    pub fn with_now_as_creation_date(self) -> (r: Self)
        ensures
            is_clock_reading(creation_of(r.0.header@)),
            forall|i: int| 0 <= i < 128 && !(24 <= i < 36) ==> #[trigger] r.0.header@[i] == self.0.header@[i],
            r.0.tags == self.0.tags,
            r.0.shared_tags == self.0.shared_tags,
    {
        DeviceLinkProfile(self.0.with_now_as_creation_date())
    }

    /// Sets the primary platform.
    pub fn with_primary_platform(self, platform: Platform) -> (r: Self)
        ensures
            r.0.header@ == splice(self.0.header@, 40, be_bytes_u32(platform.code())),
            r.0.tags == self.0.tags,
            r.0.shared_tags == self.0.shared_tags,
    {
        DeviceLinkProfile(self.0.with_primary_platform(platform))
    }

    /// Sets the Color Management Module; never fails.
    pub fn with_cmm(self, cmm: Cmm) -> (res: Result<Self, Error>)
        ensures
            res matches Ok(p) && p.0.header@ == splice(self.0.header@, 4, be_bytes_u32(cmm.code()))
                && p.0.tags == self.0.tags && p.0.shared_tags == self.0.shared_tags,
    {
        Ok(DeviceLinkProfile(self.0.with_cmm(cmm)?))
    }

    /// Sets the manufacturer from its four ASCII characters; any other text sets the field to zero.
    pub fn with_manufacturer(self, manufacturer: &str) -> (r: Self)
        ensures
            r.0.header@ == splice(self.0.header@, 48, be_bytes_u32(match signature_code_of_text(manufacturer@) {
                Some(c) => c,
                None => 0u32,
            })),
            r.0.tags == self.0.tags,
            r.0.shared_tags == self.0.shared_tags,
    {
        DeviceLinkProfile(self.0.with_manufacturer(manufacturer))
    }

    /// Sets the data color space.
    pub fn with_data_color_space(self, color_space: ColorSpace) -> (r: Self)
        ensures
            r.0.header@ == splice(self.0.header@, 16, be_bytes_u32(color_space.code())),
            r.0.tags == self.0.tags,
            r.0.shared_tags == self.0.shared_tags,
    {
        DeviceLinkProfile(self.0.with_data_color_space(color_space))
    }

    /// Sets the rendering intent.
    pub fn with_rendering_intent(self, rendering_intent: RenderingIntent) -> (r: Self)
        ensures
            r.0.header@ == splice(self.0.header@, 64, be_bytes_u32(rendering_intent.code())),
            r.0.tags == self.0.tags,
            r.0.shared_tags == self.0.shared_tags,
    {
        DeviceLinkProfile(self.0.with_rendering_intent(rendering_intent))
    }

    /// Sets the creator from its four ASCII characters; any other text sets the field to zero.
    pub fn with_creator(self, creator: &str) -> (r: Self)
        ensures
            r.0.header@ == splice(self.0.header@, 80, be_bytes_u32(match signature_code_of_text(creator@) {
                Some(c) => c,
                None => 0u32,
            })),
            r.0.tags == self.0.tags,
            r.0.shared_tags == self.0.shared_tags,
    {
        DeviceLinkProfile(self.0.with_creator(creator))
    }

    /// Clears the profile ID, so that none is written.
    pub fn without_profile_id(self) -> (r: Self)
        ensures
            r.0.header@ == splice(self.0.header@, 84, Seq::new(16, |i: int| 0u8)),
            r.0.tags == self.0.tags,
            r.0.shared_tags == self.0.shared_tags,
    {
        DeviceLinkProfile(self.0.without_profile_id())
    }

    /// Requests a profile ID, computed when the profile is serialised.
    pub fn with_profile_id(self) -> (r: Self)
        ensures
            r.0.header@ == splice(self.0.header@, 84, Seq::new(15, |i: int| 0u8).push(1u8)),
            r.0.tags == self.0.tags,
            r.0.shared_tags == self.0.shared_tags,
    {
        DeviceLinkProfile(self.0.with_profile_id())
    }

    /// Starts setting the data of tag `tag`.
    pub fn with_tag<S: Into<TagSignature> + Copy>(self, tag: S) -> (t: TagSetter<Self, S>)
        ensures
            t.profile_of() == self,
            t.tag_of() == tag,
    {
        TagSetter::new(self, tag)
    }


    /// Reads a profile from its bytes (see [`RawProfile::from_bytes`]), whatever
    /// its device class.
    pub fn from_bytes(bytes: &[u8]) -> (res: Result<Self, Error>)
        ensures
            res is Ok <==> parse_accepts(bytes@) && !has_short_named_color2(bytes@),
            res matches Err(e) ==> e == Error::InvalidICCProfile,
            res matches Ok(p) ==> {
                &&& p.0@.header == bytes@.subrange(0, 128)
                &&& p.0@.entries == parsed_entries(bytes@, tag_count(bytes@) as nat)
                &&& p.0@.shared == has_duplicate_offsets(bytes@)
                &&& keys_distinct(tag_table(p.0.tags))
            },
    {
        Ok(DeviceLinkProfile(RawProfile::from_bytes(bytes)?))
    }

    /// Serialises the profile (see [`RawProfile::into_bytes`]).
    pub fn to_bytes(self) -> (res: Result<Vec<u8>, Error>)
        requires
            named_color2_writable(self.0@),
        ensures
            res is Ok <==> layout_fits(datas(self.0@.entries), self.0@.shared),
            res matches Ok(b) ==> b@ == serialize(self.0@),
            res matches Err(e) ==> e == Error::ProfileTooLarge(
                capped(next_offset(datas(self.0@.entries), self.0@.shared, self.0@.entries.len()), usize::MAX as nat) as usize,
            ),
    {
        self.0.into_bytes()
    }
}

/// A profile of the `Abstract` device class.
#[derive(Debug, Clone, PartialEq)]
pub struct AbstractProfile(pub RawProfile);

impl HasRawProfile for AbstractProfile {
    open spec fn raw_view(&self) -> RawProfile {
        self.0
    }

    fn raw(&self) -> (r: &RawProfile) {
        &self.0
    }

    fn raw_mut(&mut self) -> (r: &mut RawProfile) {
        &mut self.0
    }
}

impl TryFrom<Profile> for AbstractProfile {
    type Error = Error;

    fn try_from(profile: Profile) -> (r: Result<Self, Error>) {
        if let Profile::Abstract(p) = profile {
            Ok(p)
        } else {
            Err(Error::IsNotA("AbstractProfile"))
        }
    }
}

impl vstd::std_specs::convert::TryFromSpecImpl<Profile> for AbstractProfile {
    open spec fn obeys_try_from_spec() -> bool {
        true
    }

    open spec fn try_from_spec(profile: Profile) -> Result<Self, Error> {
        if let Profile::Abstract(p) = profile {
            Ok(p)
        } else {
            Err(Error::IsNotA("AbstractProfile"))
        }
    }
}

impl AbstractProfile {
    /// The size of the profile in bytes as the header states it.
    pub fn profile_size(&self) -> (r: usize)
        ensures
            r == be_u32_at(self.0.header@, 0),
    {
        self.0.profile_size()
    }

    /// The Color Management Module named by the header, if it is a known one.
    pub fn cmm(&self) -> (r: Option<Cmm>)
        ensures
            r == Cmm::from_code(be_u32_at(self.0.header@, 4)),
    {
        self.0.cmm()
    }

    /// The ICC version as (major, minor); an error when it is not a supported one.
    pub fn version(&self) -> (r: Result<(u8, u8), Error>)
        ensures
            ({
                let (major, minor) = version_of_code(be_u32_at(self.0.header@, 8));
                &&& is_supported_version(major, minor) ==> r == Ok::<(u8, u8), Error>((major, minor))
                &&& !is_supported_version(major, minor) ==> (r matches Err(Error::HeaderParseError(e))
                    && e.0@ == version_error_text(major, minor))
            }),
    {
        self.0.version()
    }

    /// The data color space, if the code is a known one.
    pub fn data_color_space(&self) -> (r: Option<ColorSpace>)
        ensures
            r == ColorSpace::from_code(be_u32_at(self.0.header@, 16)),
    {
        self.0.data_color_space()
    }

    /// The Profile Connection Space, if the code is `XYZ `, `Lab ` or `spec`.
    pub fn pcs(&self) -> (r: Option<Pcs>)
        ensures
            r == Pcs::from_code(be_u32_at(self.0.header@, 20)),
    {
        self.0.pcs()
    }

    /// The PCS illuminant as three s15Fixed16 numbers (X, Y, Z).
    pub fn pcs_illuminant_s15(&self) -> (r: [S15Fixed16; 3])
        ensures
            r[0].raw == be_u32_at(self.0.header@, 68) as i32,
            r[1].raw == be_u32_at(self.0.header@, 72) as i32,
            r[2].raw == be_u32_at(self.0.header@, 76) as i32,
    {
        self.0.pcs_illuminant_s15()
    }

    /// The creation date and time; an `InvalidDate` error when the fields do not form one.
    pub fn creation_date(&self) -> (r: Result<DateTimeNumber, Error>)
        ensures
            valid_date_time(creation_of(self.0.header@)) ==> r == Ok::<DateTimeNumber, Error>(creation_of(self.0.header@)),
            !valid_date_time(creation_of(self.0.header@)) ==> (r matches Err(Error::InvalidDate(t)) && t@ == date_time_text(creation_of(self.0.header@))),
    {
        self.0.creation_date()
    }

    /// The primary platform, if the code is a known one.
    pub fn primary_platform(&self) -> (r: Option<Platform>)
        ensures
            r == Platform::from_code(be_u32_at(self.0.header@, 40)),
    {
        self.0.primary_platform()
    }

    /// The (embedded, use-embedded-only) flags.
    pub fn flags(&self) -> (r: (bool, bool))
        ensures
            r == (be_u32_at(self.0.header@, 44) % 2 == 1, (be_u32_at(self.0.header@, 44) / 2) % 2 == 1),
    {
        self.0.flags()
    }

    /// The Apple (ColorSync) hints in bits 16 to 19 of the flags field.
    pub fn apple_flags(&self) -> (r: (Quality, Interpolate, GamutCheck))
        ensures
            ({
                let (q, i, g) = apple_hints_of(be_u32_at(self.0.header@, 44));
                r == (quality_of(q), if i == 1 { Interpolate::False } else { Interpolate::True },
                    if g == 1 { GamutCheck::False } else { GamutCheck::True })
            }),
    {
        self.0.apple_flags()
    }

    /// The manufacturer signature, when its four bytes are printable ASCII.
    pub fn manufacturer(&self) -> (r: Option<Signature>)
        ensures
            r == (if code_text_printable(be_u32_at(self.0.header@, 48)) {
                Some(Signature(be_u32_at(self.0.header@, 48)))
            } else {
                None::<Signature>
            }),
    {
        self.0.manufacturer()
    }

    /// The model signature.
    pub fn model(&self) -> (r: Signature)
        ensures
            r == Signature(be_u32_at(self.0.header@, 52)),
    {
        self.0.model()
    }

    /// The rendering intent (a value above 3 reads as perceptual).
    pub fn rendering_intent(&self) -> (r: RenderingIntent)
        ensures
            r == RenderingIntent::from_code(be_u32_at(self.0.header@, 64)),
    {
        self.0.rendering_intent()
    }

    /// The 16-byte profile ID field.
    pub fn profile_id(&self) -> (r: [u8; 16])
        ensures
            r@ == profile_id_of(self.0.header@),
    {
        self.0.profile_id()
    }

    /// The profile ID as lowercase hex in groups of eight digits.
    pub fn profile_id_as_hex_string(&self) -> (r: String)
        ensures
            r@ == grouped_by_eight(hex_lower_text(profile_id_of(self.0.header@)), 32),
    {
        self.0.profile_id_as_hex_string()
    }

    /// Sets the ICC version; an error (and no change) for an unsupported version.
    pub fn with_version(self, major: u8, minor: u8) -> (res: Result<Self, Error>)
        ensures
            is_supported_version(major, minor) ==> (res matches Ok(p) && p.0.header@ == splice(
                self.0.header@,
                8,
                be_bytes_u32(version_code(major, minor)),
            ) && p.0.tags == self.0.tags && p.0.shared_tags == self.0.shared_tags),
            !is_supported_version(major, minor) ==> (res matches Err(Error::HeaderParseError(e))
                && e.0@ == version_error_text(major, minor)),
    {
        Ok(AbstractProfile(self.0.with_version(major, minor)?))
    }

    /// Sets the creation date and time.
    pub fn with_creation_date(self, date: DateTimeNumber) -> (r: Self)
        ensures
            creation_of(r.0.header@) == date,
            forall|i: int| 0 <= i < 128 && !(24 <= i < 36) ==> #[trigger] r.0.header@[i] == self.0.header@[i],
            r.0.tags == self.0.tags,
            r.0.shared_tags == self.0.shared_tags,
    {
        AbstractProfile(self.0.with_creation_date(date))
    }

    /// Sets the creation date and time to the current UTC time.
    pub fn with_now_as_creation_date(self) -> (r: Self)
        ensures
            is_clock_reading(creation_of(r.0.header@)),
            forall|i: int| 0 <= i < 128 && !(24 <= i < 36) ==> #[trigger] r.0.header@[i] == self.0.header@[i],
            r.0.tags == self.0.tags,
            r.0.shared_tags == self.0.shared_tags,
    {
        AbstractProfile(self.0.with_now_as_creation_date())
    }

    /// Sets the primary platform.
    pub fn with_primary_platform(self, platform: Platform) -> (r: Self)
        ensures
            r.0.header@ == splice(self.0.header@, 40, be_bytes_u32(platform.code())),
            r.0.tags == self.0.tags,
            r.0.shared_tags == self.0.shared_tags,
    {
        AbstractProfile(self.0.with_primary_platform(platform))
    }

    /// Sets the Color Management Module; never fails.
    pub fn with_cmm(self, cmm: Cmm) -> (res: Result<Self, Error>)
        ensures
            res matches Ok(p) && p.0.header@ == splice(self.0.header@, 4, be_bytes_u32(cmm.code()))
                && p.0.tags == self.0.tags && p.0.shared_tags == self.0.shared_tags,
    {
        Ok(AbstractProfile(self.0.with_cmm(cmm)?))
    }

    /// Sets the manufacturer from its four ASCII characters; any other text sets the field to zero.
    pub fn with_manufacturer(self, manufacturer: &str) -> (r: Self)
        ensures
            r.0.header@ == splice(self.0.header@, 48, be_bytes_u32(match signature_code_of_text(manufacturer@) {
                Some(c) => c,
                None => 0u32,
            })),
            r.0.tags == self.0.tags,
            r.0.shared_tags == self.0.shared_tags,
    {
        AbstractProfile(self.0.with_manufacturer(manufacturer))
    }

    /// Sets the data color space.
    pub fn with_data_color_space(self, color_space: ColorSpace) -> (r: Self)
        ensures
            r.0.header@ == splice(self.0.header@, 16, be_bytes_u32(color_space.code())),
            r.0.tags == self.0.tags,
            r.0.shared_tags == self.0.shared_tags,
    {
        AbstractProfile(self.0.with_data_color_space(color_space))
    }

    /// Sets the rendering intent.
    pub fn with_rendering_intent(self, rendering_intent: RenderingIntent) -> (r: Self)
        ensures
            r.0.header@ == splice(self.0.header@, 64, be_bytes_u32(rendering_intent.code())),
            r.0.tags == self.0.tags,
            r.0.shared_tags == self.0.shared_tags,
    {
        AbstractProfile(self.0.with_rendering_intent(rendering_intent))
    }

    /// Sets the creator from its four ASCII characters; any other text sets the field to zero.
    pub fn with_creator(self, creator: &str) -> (r: Self)
        ensures
            r.0.header@ == splice(self.0.header@, 80, be_bytes_u32(match signature_code_of_text(creator@) {
                Some(c) => c,
                None => 0u32,
            })),
            r.0.tags == self.0.tags,
            r.0.shared_tags == self.0.shared_tags,
    {
        AbstractProfile(self.0.with_creator(creator))
    }

    /// Clears the profile ID, so that none is written.
    pub fn without_profile_id(self) -> (r: Self)
        ensures
            r.0.header@ == splice(self.0.header@, 84, Seq::new(16, |i: int| 0u8)),
            r.0.tags == self.0.tags,
            r.0.shared_tags == self.0.shared_tags,
    {
        AbstractProfile(self.0.without_profile_id())
    }

    /// Requests a profile ID, computed when the profile is serialised.
    pub fn with_profile_id(self) -> (r: Self)
        ensures
            r.0.header@ == splice(self.0.header@, 84, Seq::new(15, |i: int| 0u8).push(1u8)),
            r.0.tags == self.0.tags,
            r.0.shared_tags == self.0.shared_tags,
    {
        AbstractProfile(self.0.with_profile_id())
    }

    /// Starts setting the data of tag `tag`.
    pub fn with_tag<S: Into<TagSignature> + Copy>(self, tag: S) -> (t: TagSetter<Self, S>)
        ensures
            t.profile_of() == self,
            t.tag_of() == tag,
    {
        TagSetter::new(self, tag)
    }


    /// Reads a profile from its bytes (see [`RawProfile::from_bytes`]), whatever
    /// its device class.
    pub fn from_bytes(bytes: &[u8]) -> (res: Result<Self, Error>)
        ensures
            res is Ok <==> parse_accepts(bytes@) && !has_short_named_color2(bytes@),
            res matches Err(e) ==> e == Error::InvalidICCProfile,
            res matches Ok(p) ==> {
                &&& p.0@.header == bytes@.subrange(0, 128)
                &&& p.0@.entries == parsed_entries(bytes@, tag_count(bytes@) as nat)
                &&& p.0@.shared == has_duplicate_offsets(bytes@)
                &&& keys_distinct(tag_table(p.0.tags))
            },
    {
        Ok(AbstractProfile(RawProfile::from_bytes(bytes)?))
    }

    /// Serialises the profile (see [`RawProfile::into_bytes`]).
    pub fn to_bytes(self) -> (res: Result<Vec<u8>, Error>)
        requires
            named_color2_writable(self.0@),
        ensures
            res is Ok <==> layout_fits(datas(self.0@.entries), self.0@.shared),
            res matches Ok(b) ==> b@ == serialize(self.0@),
            res matches Err(e) ==> e == Error::ProfileTooLarge(
                capped(next_offset(datas(self.0@.entries), self.0@.shared, self.0@.entries.len()), usize::MAX as nat) as usize,
            ),
    {
        self.0.into_bytes()
    }
}

/// A profile of the `ColorSpace` device class.
#[derive(Debug, Clone, PartialEq)]
pub struct ColorSpaceProfile(pub RawProfile);

impl HasRawProfile for ColorSpaceProfile {
    open spec fn raw_view(&self) -> RawProfile {
        self.0
    }

    fn raw(&self) -> (r: &RawProfile) {
        &self.0
    }

    fn raw_mut(&mut self) -> (r: &mut RawProfile) {
        &mut self.0
    }
}

impl TryFrom<Profile> for ColorSpaceProfile {
    type Error = Error;

    fn try_from(profile: Profile) -> (r: Result<Self, Error>) {
        if let Profile::ColorSpace(p) = profile {
            Ok(p)
        } else {
            Err(Error::IsNotA("ColorSpace Profile"))
        }
    }
}

impl vstd::std_specs::convert::TryFromSpecImpl<Profile> for ColorSpaceProfile {
    open spec fn obeys_try_from_spec() -> bool {
        true
    }

    open spec fn try_from_spec(profile: Profile) -> Result<Self, Error> {
        if let Profile::ColorSpace(p) = profile {
            Ok(p)
        } else {
            Err(Error::IsNotA("ColorSpace Profile"))
        }
    }
}

impl ColorSpaceProfile {
    /// The header of a new profile of this class, but for its creation date and time.
    pub open spec fn new_header() -> Seq<u8> {
        splice(default_header(), 12, be_bytes_u32(DeviceClass::ColorSpace.code()))
    }

    /// A new profile of this class: the default raw profile (`acsp` signature,
    /// version 4.3, XYZ connection space, D50 illuminant, the current date and
    /// time, no tags) with the device class set.
    pub fn new() -> (r: Self)
        ensures
            forall|i: int| 0 <= i < 128 && !(24 <= i < 36) ==> #[trigger] r.0.header@[i] == Self::new_header()[i],
            is_clock_reading(creation_of(r.0.header@)),
            tag_table(r.0.tags).len() == 0,
            r.0.shared_tags,
    {
        ColorSpaceProfile(RawProfile::default().with_device_class(DeviceClass::ColorSpace))
    }

    /// The size of the profile in bytes as the header states it.
    pub fn profile_size(&self) -> (r: usize)
        ensures
            r == be_u32_at(self.0.header@, 0),
    {
        self.0.profile_size()
    }

    /// The Color Management Module named by the header, if it is a known one.
    pub fn cmm(&self) -> (r: Option<Cmm>)
        ensures
            r == Cmm::from_code(be_u32_at(self.0.header@, 4)),
    {
        self.0.cmm()
    }

    /// The ICC version as (major, minor); an error when it is not a supported one.
    pub fn version(&self) -> (r: Result<(u8, u8), Error>)
        ensures
            ({
                let (major, minor) = version_of_code(be_u32_at(self.0.header@, 8));
                &&& is_supported_version(major, minor) ==> r == Ok::<(u8, u8), Error>((major, minor))
                &&& !is_supported_version(major, minor) ==> (r matches Err(Error::HeaderParseError(e))
                    && e.0@ == version_error_text(major, minor))
            }),
    {
        self.0.version()
    }

    /// The data color space, if the code is a known one.
    pub fn data_color_space(&self) -> (r: Option<ColorSpace>)
        ensures
            r == ColorSpace::from_code(be_u32_at(self.0.header@, 16)),
    {
        self.0.data_color_space()
    }

    /// The Profile Connection Space, if the code is `XYZ `, `Lab ` or `spec`.
    pub fn pcs(&self) -> (r: Option<Pcs>)
        ensures
            r == Pcs::from_code(be_u32_at(self.0.header@, 20)),
    {
        self.0.pcs()
    }

    /// The PCS illuminant as three s15Fixed16 numbers (X, Y, Z).
    pub fn pcs_illuminant_s15(&self) -> (r: [S15Fixed16; 3])
        ensures
            r[0].raw == be_u32_at(self.0.header@, 68) as i32,
            r[1].raw == be_u32_at(self.0.header@, 72) as i32,
            r[2].raw == be_u32_at(self.0.header@, 76) as i32,
    {
        self.0.pcs_illuminant_s15()
    }

    /// The creation date and time; an `InvalidDate` error when the fields do not form one.
    pub fn creation_date(&self) -> (r: Result<DateTimeNumber, Error>)
        ensures
            valid_date_time(creation_of(self.0.header@)) ==> r == Ok::<DateTimeNumber, Error>(creation_of(self.0.header@)),
            !valid_date_time(creation_of(self.0.header@)) ==> (r matches Err(Error::InvalidDate(t)) && t@ == date_time_text(creation_of(self.0.header@))),
    {
        self.0.creation_date()
    }

    /// The primary platform, if the code is a known one.
    pub fn primary_platform(&self) -> (r: Option<Platform>)
        ensures
            r == Platform::from_code(be_u32_at(self.0.header@, 40)),
    {
        self.0.primary_platform()
    }

    /// The (embedded, use-embedded-only) flags.
    pub fn flags(&self) -> (r: (bool, bool))
        ensures
            r == (be_u32_at(self.0.header@, 44) % 2 == 1, (be_u32_at(self.0.header@, 44) / 2) % 2 == 1),
    {
        self.0.flags()
    }

    /// The Apple (ColorSync) hints in bits 16 to 19 of the flags field.
    pub fn apple_flags(&self) -> (r: (Quality, Interpolate, GamutCheck))
        ensures
            ({
                let (q, i, g) = apple_hints_of(be_u32_at(self.0.header@, 44));
                r == (quality_of(q), if i == 1 { Interpolate::False } else { Interpolate::True },
                    if g == 1 { GamutCheck::False } else { GamutCheck::True })
            }),
    {
        self.0.apple_flags()
    }

    /// The manufacturer signature, when its four bytes are printable ASCII.
    pub fn manufacturer(&self) -> (r: Option<Signature>)
        ensures
            r == (if code_text_printable(be_u32_at(self.0.header@, 48)) {
                Some(Signature(be_u32_at(self.0.header@, 48)))
            } else {
                None::<Signature>
            }),
    {
        self.0.manufacturer()
    }

    /// The model signature.
    pub fn model(&self) -> (r: Signature)
        ensures
            r == Signature(be_u32_at(self.0.header@, 52)),
    {
        self.0.model()
    }

    /// The rendering intent (a value above 3 reads as perceptual).
    pub fn rendering_intent(&self) -> (r: RenderingIntent)
        ensures
            r == RenderingIntent::from_code(be_u32_at(self.0.header@, 64)),
    {
        self.0.rendering_intent()
    }

    /// The 16-byte profile ID field.
    pub fn profile_id(&self) -> (r: [u8; 16])
        ensures
            r@ == profile_id_of(self.0.header@),
    {
        self.0.profile_id()
    }

    /// The profile ID as lowercase hex in groups of eight digits.
    pub fn profile_id_as_hex_string(&self) -> (r: String)
        ensures
            r@ == grouped_by_eight(hex_lower_text(profile_id_of(self.0.header@)), 32),
    {
        self.0.profile_id_as_hex_string()
    }

    /// Sets the ICC version; an error (and no change) for an unsupported version.
    pub fn with_version(self, major: u8, minor: u8) -> (res: Result<Self, Error>)
        ensures
            is_supported_version(major, minor) ==> (res matches Ok(p) && p.0.header@ == splice(
                self.0.header@,
                8,
                be_bytes_u32(version_code(major, minor)),
            ) && p.0.tags == self.0.tags && p.0.shared_tags == self.0.shared_tags),
            !is_supported_version(major, minor) ==> (res matches Err(Error::HeaderParseError(e))
                && e.0@ == version_error_text(major, minor)),
    {
        Ok(ColorSpaceProfile(self.0.with_version(major, minor)?))
    }

    /// Sets the creation date and time.
    pub fn with_creation_date(self, date: DateTimeNumber) -> (r: Self)
        ensures
            creation_of(r.0.header@) == date,
            forall|i: int| 0 <= i < 128 && !(24 <= i < 36) ==> #[trigger] r.0.header@[i] == self.0.header@[i],
            r.0.tags == self.0.tags,
            r.0.shared_tags == self.0.shared_tags,
    {
        ColorSpaceProfile(self.0.with_creation_date(date))
    }

    /// Sets the creation date and time to the current UTC time.
    pub fn with_now_as_creation_date(self) -> (r: Self)
        ensures
            is_clock_reading(creation_of(r.0.header@)),
            forall|i: int| 0 <= i < 128 && !(24 <= i < 36) ==> #[trigger] r.0.header@[i] == self.0.header@[i],
            r.0.tags == self.0.tags,
            r.0.shared_tags == self.0.shared_tags,
    {
        ColorSpaceProfile(self.0.with_now_as_creation_date())
    }

    /// Sets the primary platform.
    pub fn with_primary_platform(self, platform: Platform) -> (r: Self)
        ensures
            r.0.header@ == splice(self.0.header@, 40, be_bytes_u32(platform.code())),
            r.0.tags == self.0.tags,
            r.0.shared_tags == self.0.shared_tags,
    {
        ColorSpaceProfile(self.0.with_primary_platform(platform))
    }

    /// Sets the Color Management Module; never fails.
    pub fn with_cmm(self, cmm: Cmm) -> (res: Result<Self, Error>)
        ensures
            res matches Ok(p) && p.0.header@ == splice(self.0.header@, 4, be_bytes_u32(cmm.code()))
                && p.0.tags == self.0.tags && p.0.shared_tags == self.0.shared_tags,
    {
        Ok(ColorSpaceProfile(self.0.with_cmm(cmm)?))
    }

    /// Sets the manufacturer from its four ASCII characters; any other text sets the field to zero.
    pub fn with_manufacturer(self, manufacturer: &str) -> (r: Self)
        ensures
            r.0.header@ == splice(self.0.header@, 48, be_bytes_u32(match signature_code_of_text(manufacturer@) {
                Some(c) => c,
                None => 0u32,
            })),
            r.0.tags == self.0.tags,
            r.0.shared_tags == self.0.shared_tags,
    {
        ColorSpaceProfile(self.0.with_manufacturer(manufacturer))
    }

    /// Sets the data color space.
    pub fn with_data_color_space(self, color_space: ColorSpace) -> (r: Self)
        ensures
            r.0.header@ == splice(self.0.header@, 16, be_bytes_u32(color_space.code())),
            r.0.tags == self.0.tags,
            r.0.shared_tags == self.0.shared_tags,
    {
        ColorSpaceProfile(self.0.with_data_color_space(color_space))
    }

    /// Sets the rendering intent.
    pub fn with_rendering_intent(self, rendering_intent: RenderingIntent) -> (r: Self)
        ensures
            r.0.header@ == splice(self.0.header@, 64, be_bytes_u32(rendering_intent.code())),
            r.0.tags == self.0.tags,
            r.0.shared_tags == self.0.shared_tags,
    {
        ColorSpaceProfile(self.0.with_rendering_intent(rendering_intent))
    }

    /// Sets the creator from its four ASCII characters; any other text sets the field to zero.
    pub fn with_creator(self, creator: &str) -> (r: Self)
        ensures
            r.0.header@ == splice(self.0.header@, 80, be_bytes_u32(match signature_code_of_text(creator@) {
                Some(c) => c,
                None => 0u32,
            })),
            r.0.tags == self.0.tags,
            r.0.shared_tags == self.0.shared_tags,
    {
        ColorSpaceProfile(self.0.with_creator(creator))
    }

    /// Clears the profile ID, so that none is written.
    pub fn without_profile_id(self) -> (r: Self)
        ensures
            r.0.header@ == splice(self.0.header@, 84, Seq::new(16, |i: int| 0u8)),
            r.0.tags == self.0.tags,
            r.0.shared_tags == self.0.shared_tags,
    {
        ColorSpaceProfile(self.0.without_profile_id())
    }

    /// Requests a profile ID, computed when the profile is serialised.
    pub fn with_profile_id(self) -> (r: Self)
        ensures
            r.0.header@ == splice(self.0.header@, 84, Seq::new(15, |i: int| 0u8).push(1u8)),
            r.0.tags == self.0.tags,
            r.0.shared_tags == self.0.shared_tags,
    {
        ColorSpaceProfile(self.0.with_profile_id())
    }

    /// Starts setting the data of tag `tag`.
    pub fn with_tag<S: Into<TagSignature> + Copy>(self, tag: S) -> (t: TagSetter<Self, S>)
        ensures
            t.profile_of() == self,
            t.tag_of() == tag,
    {
        TagSetter::new(self, tag)
    }


    /// Reads a profile from its bytes (see [`RawProfile::from_bytes`]), whatever
    /// its device class.
    pub fn from_bytes(bytes: &[u8]) -> (res: Result<Self, Error>)
        ensures
            res is Ok <==> parse_accepts(bytes@) && !has_short_named_color2(bytes@),
            res matches Err(e) ==> e == Error::InvalidICCProfile,
            res matches Ok(p) ==> {
                &&& p.0@.header == bytes@.subrange(0, 128)
                &&& p.0@.entries == parsed_entries(bytes@, tag_count(bytes@) as nat)
                &&& p.0@.shared == has_duplicate_offsets(bytes@)
                &&& keys_distinct(tag_table(p.0.tags))
            },
    {
        Ok(ColorSpaceProfile(RawProfile::from_bytes(bytes)?))
    }

    /// Serialises the profile (see [`RawProfile::into_bytes`]).
    pub fn to_bytes(self) -> (res: Result<Vec<u8>, Error>)
        requires
            named_color2_writable(self.0@),
        ensures
            res is Ok <==> layout_fits(datas(self.0@.entries), self.0@.shared),
            res matches Ok(b) ==> b@ == serialize(self.0@),
            res matches Err(e) ==> e == Error::ProfileTooLarge(
                capped(next_offset(datas(self.0@.entries), self.0@.shared, self.0@.entries.len()), usize::MAX as nat) as usize,
            ),
    {
        self.0.into_bytes()
    }
}

/// A profile of the `NamedColor` device class.
#[derive(Debug, Clone, PartialEq)]
pub struct NamedColorProfile(pub RawProfile);

impl HasRawProfile for NamedColorProfile {
    open spec fn raw_view(&self) -> RawProfile {
        self.0
    }

    fn raw(&self) -> (r: &RawProfile) {
        &self.0
    }

    fn raw_mut(&mut self) -> (r: &mut RawProfile) {
        &mut self.0
    }
}

impl TryFrom<Profile> for NamedColorProfile {
    type Error = Error;

    fn try_from(profile: Profile) -> (r: Result<Self, Error>) {
        if let Profile::NamedColor(p) = profile {
            Ok(p)
        } else {
            Err(Error::IsNotA("NamedColorProfile"))
        }
    }
}

impl vstd::std_specs::convert::TryFromSpecImpl<Profile> for NamedColorProfile {
    open spec fn obeys_try_from_spec() -> bool {
        true
    }

    open spec fn try_from_spec(profile: Profile) -> Result<Self, Error> {
        if let Profile::NamedColor(p) = profile {
            Ok(p)
        } else {
            Err(Error::IsNotA("NamedColorProfile"))
        }
    }
}

impl NamedColorProfile {
    /// The size of the profile in bytes as the header states it.
    pub fn profile_size(&self) -> (r: usize)
        ensures
            r == be_u32_at(self.0.header@, 0),
    {
        self.0.profile_size()
    }

    /// The Color Management Module named by the header, if it is a known one.
    pub fn cmm(&self) -> (r: Option<Cmm>)
        ensures
            r == Cmm::from_code(be_u32_at(self.0.header@, 4)),
    {
        self.0.cmm()
    }

    /// The ICC version as (major, minor); an error when it is not a supported one.
    pub fn version(&self) -> (r: Result<(u8, u8), Error>)
        ensures
            ({
                let (major, minor) = version_of_code(be_u32_at(self.0.header@, 8));
                &&& is_supported_version(major, minor) ==> r == Ok::<(u8, u8), Error>((major, minor))
                &&& !is_supported_version(major, minor) ==> (r matches Err(Error::HeaderParseError(e))
                    && e.0@ == version_error_text(major, minor))
            }),
    {
        self.0.version()
    }

    /// The data color space, if the code is a known one.
    pub fn data_color_space(&self) -> (r: Option<ColorSpace>)
        ensures
            r == ColorSpace::from_code(be_u32_at(self.0.header@, 16)),
    {
        self.0.data_color_space()
    }

    /// The Profile Connection Space, if the code is `XYZ `, `Lab ` or `spec`.
    pub fn pcs(&self) -> (r: Option<Pcs>)
        ensures
            r == Pcs::from_code(be_u32_at(self.0.header@, 20)),
    {
        self.0.pcs()
    }

    /// The PCS illuminant as three s15Fixed16 numbers (X, Y, Z).
    pub fn pcs_illuminant_s15(&self) -> (r: [S15Fixed16; 3])
        ensures
            r[0].raw == be_u32_at(self.0.header@, 68) as i32,
            r[1].raw == be_u32_at(self.0.header@, 72) as i32,
            r[2].raw == be_u32_at(self.0.header@, 76) as i32,
    {
        self.0.pcs_illuminant_s15()
    }

    /// The creation date and time; an `InvalidDate` error when the fields do not form one.
    pub fn creation_date(&self) -> (r: Result<DateTimeNumber, Error>)
        ensures
            valid_date_time(creation_of(self.0.header@)) ==> r == Ok::<DateTimeNumber, Error>(creation_of(self.0.header@)),
            !valid_date_time(creation_of(self.0.header@)) ==> (r matches Err(Error::InvalidDate(t)) && t@ == date_time_text(creation_of(self.0.header@))),
    {
        self.0.creation_date()
    }

    /// The primary platform, if the code is a known one.
    pub fn primary_platform(&self) -> (r: Option<Platform>)
        ensures
            r == Platform::from_code(be_u32_at(self.0.header@, 40)),
    {
        self.0.primary_platform()
    }

    /// The (embedded, use-embedded-only) flags.
    pub fn flags(&self) -> (r: (bool, bool))
        ensures
            r == (be_u32_at(self.0.header@, 44) % 2 == 1, (be_u32_at(self.0.header@, 44) / 2) % 2 == 1),
    {
        self.0.flags()
    }

    /// The Apple (ColorSync) hints in bits 16 to 19 of the flags field.
    pub fn apple_flags(&self) -> (r: (Quality, Interpolate, GamutCheck))
        ensures
            ({
                let (q, i, g) = apple_hints_of(be_u32_at(self.0.header@, 44));
                r == (quality_of(q), if i == 1 { Interpolate::False } else { Interpolate::True },
                    if g == 1 { GamutCheck::False } else { GamutCheck::True })
            }),
    {
        self.0.apple_flags()
    }

    /// The manufacturer signature, when its four bytes are printable ASCII.
    pub fn manufacturer(&self) -> (r: Option<Signature>)
        ensures
            r == (if code_text_printable(be_u32_at(self.0.header@, 48)) {
                Some(Signature(be_u32_at(self.0.header@, 48)))
            } else {
                None::<Signature>
            }),
    {
        self.0.manufacturer()
    }

    /// The model signature.
    pub fn model(&self) -> (r: Signature)
        ensures
            r == Signature(be_u32_at(self.0.header@, 52)),
    {
        self.0.model()
    }

    /// The rendering intent (a value above 3 reads as perceptual).
    pub fn rendering_intent(&self) -> (r: RenderingIntent)
        ensures
            r == RenderingIntent::from_code(be_u32_at(self.0.header@, 64)),
    {
        self.0.rendering_intent()
    }

    /// The 16-byte profile ID field.
    pub fn profile_id(&self) -> (r: [u8; 16])
        ensures
            r@ == profile_id_of(self.0.header@),
    {
        self.0.profile_id()
    }

    /// The profile ID as lowercase hex in groups of eight digits.
    pub fn profile_id_as_hex_string(&self) -> (r: String)
        ensures
            r@ == grouped_by_eight(hex_lower_text(profile_id_of(self.0.header@)), 32),
    {
        self.0.profile_id_as_hex_string()
    }

    /// Sets the ICC version; an error (and no change) for an unsupported version.
    pub fn with_version(self, major: u8, minor: u8) -> (res: Result<Self, Error>)
        ensures
            is_supported_version(major, minor) ==> (res matches Ok(p) && p.0.header@ == splice(
                self.0.header@,
                8,
                be_bytes_u32(version_code(major, minor)),
            ) && p.0.tags == self.0.tags && p.0.shared_tags == self.0.shared_tags),
            !is_supported_version(major, minor) ==> (res matches Err(Error::HeaderParseError(e))
                && e.0@ == version_error_text(major, minor)),
    {
        Ok(NamedColorProfile(self.0.with_version(major, minor)?))
    }

    /// Sets the creation date and time.
    pub fn with_creation_date(self, date: DateTimeNumber) -> (r: Self)
        ensures
            creation_of(r.0.header@) == date,
            forall|i: int| 0 <= i < 128 && !(24 <= i < 36) ==> #[trigger] r.0.header@[i] == self.0.header@[i],
            r.0.tags == self.0.tags,
            r.0.shared_tags == self.0.shared_tags,
    {
        NamedColorProfile(self.0.with_creation_date(date))
    }

    /// Sets the creation date and time to the current UTC time.
    pub fn with_now_as_creation_date(self) -> (r: Self)
        ensures
            is_clock_reading(creation_of(r.0.header@)),
            forall|i: int| 0 <= i < 128 && !(24 <= i < 36) ==> #[trigger] r.0.header@[i] == self.0.header@[i],
            r.0.tags == self.0.tags,
            r.0.shared_tags == self.0.shared_tags,
    {
        NamedColorProfile(self.0.with_now_as_creation_date())
    }

    /// Sets the primary platform.
    pub fn with_primary_platform(self, platform: Platform) -> (r: Self)
        ensures
            r.0.header@ == splice(self.0.header@, 40, be_bytes_u32(platform.code())),
            r.0.tags == self.0.tags,
            r.0.shared_tags == self.0.shared_tags,
    {
        NamedColorProfile(self.0.with_primary_platform(platform))
    }

    /// Sets the Color Management Module; never fails.
    pub fn with_cmm(self, cmm: Cmm) -> (res: Result<Self, Error>)
        ensures
            res matches Ok(p) && p.0.header@ == splice(self.0.header@, 4, be_bytes_u32(cmm.code()))
                && p.0.tags == self.0.tags && p.0.shared_tags == self.0.shared_tags,
    {
        Ok(NamedColorProfile(self.0.with_cmm(cmm)?))
    }

    /// Sets the manufacturer from its four ASCII characters; any other text sets the field to zero.
    pub fn with_manufacturer(self, manufacturer: &str) -> (r: Self)
        ensures
            r.0.header@ == splice(self.0.header@, 48, be_bytes_u32(match signature_code_of_text(manufacturer@) {
                Some(c) => c,
                None => 0u32,
            })),
            r.0.tags == self.0.tags,
            r.0.shared_tags == self.0.shared_tags,
    {
        NamedColorProfile(self.0.with_manufacturer(manufacturer))
    }

    /// Sets the data color space.
    pub fn with_data_color_space(self, color_space: ColorSpace) -> (r: Self)
        ensures
            r.0.header@ == splice(self.0.header@, 16, be_bytes_u32(color_space.code())),
            r.0.tags == self.0.tags,
            r.0.shared_tags == self.0.shared_tags,
    {
        NamedColorProfile(self.0.with_data_color_space(color_space))
    }

    /// Sets the rendering intent.
    pub fn with_rendering_intent(self, rendering_intent: RenderingIntent) -> (r: Self)
        ensures
            r.0.header@ == splice(self.0.header@, 64, be_bytes_u32(rendering_intent.code())),
            r.0.tags == self.0.tags,
            r.0.shared_tags == self.0.shared_tags,
    {
        NamedColorProfile(self.0.with_rendering_intent(rendering_intent))
    }

    /// Sets the creator from its four ASCII characters; any other text sets the field to zero.
    pub fn with_creator(self, creator: &str) -> (r: Self)
        ensures
            r.0.header@ == splice(self.0.header@, 80, be_bytes_u32(match signature_code_of_text(creator@) {
                Some(c) => c,
                None => 0u32,
            })),
            r.0.tags == self.0.tags,
            r.0.shared_tags == self.0.shared_tags,
    {
        NamedColorProfile(self.0.with_creator(creator))
    }

    /// Clears the profile ID, so that none is written.
    pub fn without_profile_id(self) -> (r: Self)
        ensures
            r.0.header@ == splice(self.0.header@, 84, Seq::new(16, |i: int| 0u8)),
            r.0.tags == self.0.tags,
            r.0.shared_tags == self.0.shared_tags,
    {
        NamedColorProfile(self.0.without_profile_id())
    }

    /// Requests a profile ID, computed when the profile is serialised.
    pub fn with_profile_id(self) -> (r: Self)
        ensures
            r.0.header@ == splice(self.0.header@, 84, Seq::new(15, |i: int| 0u8).push(1u8)),
            r.0.tags == self.0.tags,
            r.0.shared_tags == self.0.shared_tags,
    {
        NamedColorProfile(self.0.with_profile_id())
    }

    /// Starts setting the data of tag `tag`.
    pub fn with_tag<S: Into<TagSignature> + Copy>(self, tag: S) -> (t: TagSetter<Self, S>)
        ensures
            t.profile_of() == self,
            t.tag_of() == tag,
    {
        TagSetter::new(self, tag)
    }


    /// Reads a profile from its bytes (see [`RawProfile::from_bytes`]), whatever
    /// its device class.
    pub fn from_bytes(bytes: &[u8]) -> (res: Result<Self, Error>)
        ensures
            res is Ok <==> parse_accepts(bytes@) && !has_short_named_color2(bytes@),
            res matches Err(e) ==> e == Error::InvalidICCProfile,
            res matches Ok(p) ==> {
                &&& p.0@.header == bytes@.subrange(0, 128)
                &&& p.0@.entries == parsed_entries(bytes@, tag_count(bytes@) as nat)
                &&& p.0@.shared == has_duplicate_offsets(bytes@)
                &&& keys_distinct(tag_table(p.0.tags))
            },
    {
        Ok(NamedColorProfile(RawProfile::from_bytes(bytes)?))
    }

    /// Serialises the profile (see [`RawProfile::into_bytes`]).
    pub fn to_bytes(self) -> (res: Result<Vec<u8>, Error>)
        requires
            named_color2_writable(self.0@),
        ensures
            res is Ok <==> layout_fits(datas(self.0@.entries), self.0@.shared),
            res matches Ok(b) ==> b@ == serialize(self.0@),
            res matches Err(e) ==> e == Error::ProfileTooLarge(
                capped(next_offset(datas(self.0@.entries), self.0@.shared, self.0@.entries.len()), usize::MAX as nat) as usize,
            ),
    {
        self.0.into_bytes()
    }
}

/// A profile of the `Spectral` device class.
#[derive(Debug, Clone, PartialEq)]
pub struct SpectralProfile(pub RawProfile);

impl HasRawProfile for SpectralProfile {
    open spec fn raw_view(&self) -> RawProfile {
        self.0
    }

    fn raw(&self) -> (r: &RawProfile) {
        &self.0
    }

    fn raw_mut(&mut self) -> (r: &mut RawProfile) {
        &mut self.0
    }
}

impl TryFrom<Profile> for SpectralProfile {
    type Error = Error;

    fn try_from(profile: Profile) -> (r: Result<Self, Error>) {
        if let Profile::Spectral(p) = profile {
            Ok(p)
        } else {
            Err(Error::IsNotA("Spectral Profile"))
        }
    }
}

impl vstd::std_specs::convert::TryFromSpecImpl<Profile> for SpectralProfile {
    open spec fn obeys_try_from_spec() -> bool {
        true
    }

    open spec fn try_from_spec(profile: Profile) -> Result<Self, Error> {
        if let Profile::Spectral(p) = profile {
            Ok(p)
        } else {
            Err(Error::IsNotA("Spectral Profile"))
        }
    }
}

impl SpectralProfile {
    /// The size of the profile in bytes as the header states it.
    pub fn profile_size(&self) -> (r: usize)
        ensures
            r == be_u32_at(self.0.header@, 0),
    {
        self.0.profile_size()
    }

    /// The Color Management Module named by the header, if it is a known one.
    pub fn cmm(&self) -> (r: Option<Cmm>)
        ensures
            r == Cmm::from_code(be_u32_at(self.0.header@, 4)),
    {
        self.0.cmm()
    }

    /// The ICC version as (major, minor); an error when it is not a supported one.
    pub fn version(&self) -> (r: Result<(u8, u8), Error>)
        ensures
            ({
                let (major, minor) = version_of_code(be_u32_at(self.0.header@, 8));
                &&& is_supported_version(major, minor) ==> r == Ok::<(u8, u8), Error>((major, minor))
                &&& !is_supported_version(major, minor) ==> (r matches Err(Error::HeaderParseError(e))
                    && e.0@ == version_error_text(major, minor))
            }),
    {
        self.0.version()
    }

    /// The data color space, if the code is a known one.
    pub fn data_color_space(&self) -> (r: Option<ColorSpace>)
        ensures
            r == ColorSpace::from_code(be_u32_at(self.0.header@, 16)),
    {
        self.0.data_color_space()
    }

    /// The Profile Connection Space, if the code is `XYZ `, `Lab ` or `spec`.
    pub fn pcs(&self) -> (r: Option<Pcs>)
        ensures
            r == Pcs::from_code(be_u32_at(self.0.header@, 20)),
    {
        self.0.pcs()
    }

    /// The PCS illuminant as three s15Fixed16 numbers (X, Y, Z).
    pub fn pcs_illuminant_s15(&self) -> (r: [S15Fixed16; 3])
        ensures
            r[0].raw == be_u32_at(self.0.header@, 68) as i32,
            r[1].raw == be_u32_at(self.0.header@, 72) as i32,
            r[2].raw == be_u32_at(self.0.header@, 76) as i32,
    {
        self.0.pcs_illuminant_s15()
    }

    /// The creation date and time; an `InvalidDate` error when the fields do not form one.
    pub fn creation_date(&self) -> (r: Result<DateTimeNumber, Error>)
        ensures
            valid_date_time(creation_of(self.0.header@)) ==> r == Ok::<DateTimeNumber, Error>(creation_of(self.0.header@)),
            !valid_date_time(creation_of(self.0.header@)) ==> (r matches Err(Error::InvalidDate(t)) && t@ == date_time_text(creation_of(self.0.header@))),
    {
        self.0.creation_date()
    }

    /// The primary platform, if the code is a known one.
    pub fn primary_platform(&self) -> (r: Option<Platform>)
        ensures
            r == Platform::from_code(be_u32_at(self.0.header@, 40)),
    {
        self.0.primary_platform()
    }

    /// The (embedded, use-embedded-only) flags.
    pub fn flags(&self) -> (r: (bool, bool))
        ensures
            r == (be_u32_at(self.0.header@, 44) % 2 == 1, (be_u32_at(self.0.header@, 44) / 2) % 2 == 1),
    {
        self.0.flags()
    }

    /// The Apple (ColorSync) hints in bits 16 to 19 of the flags field.
    pub fn apple_flags(&self) -> (r: (Quality, Interpolate, GamutCheck))
        ensures
            ({
                let (q, i, g) = apple_hints_of(be_u32_at(self.0.header@, 44));
                r == (quality_of(q), if i == 1 { Interpolate::False } else { Interpolate::True },
                    if g == 1 { GamutCheck::False } else { GamutCheck::True })
            }),
    {
        self.0.apple_flags()
    }

    /// The manufacturer signature, when its four bytes are printable ASCII.
    pub fn manufacturer(&self) -> (r: Option<Signature>)
        ensures
            r == (if code_text_printable(be_u32_at(self.0.header@, 48)) {
                Some(Signature(be_u32_at(self.0.header@, 48)))
            } else {
                None::<Signature>
            }),
    {
        self.0.manufacturer()
    }

    /// The model signature.
    pub fn model(&self) -> (r: Signature)
        ensures
            r == Signature(be_u32_at(self.0.header@, 52)),
    {
        self.0.model()
    }

    /// The rendering intent (a value above 3 reads as perceptual).
    pub fn rendering_intent(&self) -> (r: RenderingIntent)
        ensures
            r == RenderingIntent::from_code(be_u32_at(self.0.header@, 64)),
    {
        self.0.rendering_intent()
    }

    /// The 16-byte profile ID field.
    pub fn profile_id(&self) -> (r: [u8; 16])
        ensures
            r@ == profile_id_of(self.0.header@),
    {
        self.0.profile_id()
    }

    /// The profile ID as lowercase hex in groups of eight digits.
    pub fn profile_id_as_hex_string(&self) -> (r: String)
        ensures
            r@ == grouped_by_eight(hex_lower_text(profile_id_of(self.0.header@)), 32),
    {
        self.0.profile_id_as_hex_string()
    }

    /// Sets the ICC version; an error (and no change) for an unsupported version.
    pub fn with_version(self, major: u8, minor: u8) -> (res: Result<Self, Error>)
        ensures
            is_supported_version(major, minor) ==> (res matches Ok(p) && p.0.header@ == splice(
                self.0.header@,
                8,
                be_bytes_u32(version_code(major, minor)),
            ) && p.0.tags == self.0.tags && p.0.shared_tags == self.0.shared_tags),
            !is_supported_version(major, minor) ==> (res matches Err(Error::HeaderParseError(e))
                && e.0@ == version_error_text(major, minor)),
    {
        Ok(SpectralProfile(self.0.with_version(major, minor)?))
    }

    /// Sets the creation date and time.
    pub fn with_creation_date(self, date: DateTimeNumber) -> (r: Self)
        ensures
            creation_of(r.0.header@) == date,
            forall|i: int| 0 <= i < 128 && !(24 <= i < 36) ==> #[trigger] r.0.header@[i] == self.0.header@[i],
            r.0.tags == self.0.tags,
            r.0.shared_tags == self.0.shared_tags,
    {
        SpectralProfile(self.0.with_creation_date(date))
    }

    /// Sets the creation date and time to the current UTC time.
    pub fn with_now_as_creation_date(self) -> (r: Self)
        ensures
            is_clock_reading(creation_of(r.0.header@)),
            forall|i: int| 0 <= i < 128 && !(24 <= i < 36) ==> #[trigger] r.0.header@[i] == self.0.header@[i],
            r.0.tags == self.0.tags,
            r.0.shared_tags == self.0.shared_tags,
    {
        SpectralProfile(self.0.with_now_as_creation_date())
    }

    /// Sets the primary platform.
    pub fn with_primary_platform(self, platform: Platform) -> (r: Self)
        ensures
            r.0.header@ == splice(self.0.header@, 40, be_bytes_u32(platform.code())),
            r.0.tags == self.0.tags,
            r.0.shared_tags == self.0.shared_tags,
    {
        SpectralProfile(self.0.with_primary_platform(platform))
    }

    /// Sets the Color Management Module; never fails.
    pub fn with_cmm(self, cmm: Cmm) -> (res: Result<Self, Error>)
        ensures
            res matches Ok(p) && p.0.header@ == splice(self.0.header@, 4, be_bytes_u32(cmm.code()))
                && p.0.tags == self.0.tags && p.0.shared_tags == self.0.shared_tags,
    {
        Ok(SpectralProfile(self.0.with_cmm(cmm)?))
    }

    /// Sets the manufacturer from its four ASCII characters; any other text sets the field to zero.
    pub fn with_manufacturer(self, manufacturer: &str) -> (r: Self)
        ensures
            r.0.header@ == splice(self.0.header@, 48, be_bytes_u32(match signature_code_of_text(manufacturer@) {
                Some(c) => c,
                None => 0u32,
            })),
            r.0.tags == self.0.tags,
            r.0.shared_tags == self.0.shared_tags,
    {
        SpectralProfile(self.0.with_manufacturer(manufacturer))
    }

    /// Sets the data color space.
    pub fn with_data_color_space(self, color_space: ColorSpace) -> (r: Self)
        ensures
            r.0.header@ == splice(self.0.header@, 16, be_bytes_u32(color_space.code())),
            r.0.tags == self.0.tags,
            r.0.shared_tags == self.0.shared_tags,
    {
        SpectralProfile(self.0.with_data_color_space(color_space))
    }

    /// Sets the rendering intent.
    pub fn with_rendering_intent(self, rendering_intent: RenderingIntent) -> (r: Self)
        ensures
            r.0.header@ == splice(self.0.header@, 64, be_bytes_u32(rendering_intent.code())),
            r.0.tags == self.0.tags,
            r.0.shared_tags == self.0.shared_tags,
    {
        SpectralProfile(self.0.with_rendering_intent(rendering_intent))
    }

    /// Sets the creator from its four ASCII characters; any other text sets the field to zero.
    pub fn with_creator(self, creator: &str) -> (r: Self)
        ensures
            r.0.header@ == splice(self.0.header@, 80, be_bytes_u32(match signature_code_of_text(creator@) {
                Some(c) => c,
                None => 0u32,
            })),
            r.0.tags == self.0.tags,
            r.0.shared_tags == self.0.shared_tags,
    {
        SpectralProfile(self.0.with_creator(creator))
    }

    /// Clears the profile ID, so that none is written.
    pub fn without_profile_id(self) -> (r: Self)
        ensures
            r.0.header@ == splice(self.0.header@, 84, Seq::new(16, |i: int| 0u8)),
            r.0.tags == self.0.tags,
            r.0.shared_tags == self.0.shared_tags,
    {
        SpectralProfile(self.0.without_profile_id())
    }

    /// Requests a profile ID, computed when the profile is serialised.
    pub fn with_profile_id(self) -> (r: Self)
        ensures
            r.0.header@ == splice(self.0.header@, 84, Seq::new(15, |i: int| 0u8).push(1u8)),
            r.0.tags == self.0.tags,
            r.0.shared_tags == self.0.shared_tags,
    {
        SpectralProfile(self.0.with_profile_id())
    }

    /// Starts setting the data of tag `tag`.
    pub fn with_tag<S: Into<TagSignature> + Copy>(self, tag: S) -> (t: TagSetter<Self, S>)
        ensures
            t.profile_of() == self,
            t.tag_of() == tag,
    {
        TagSetter::new(self, tag)
    }


    /// Reads a profile from its bytes (see [`RawProfile::from_bytes`]), whatever
    /// its device class.
    pub fn from_bytes(bytes: &[u8]) -> (res: Result<Self, Error>)
        ensures
            res is Ok <==> parse_accepts(bytes@) && !has_short_named_color2(bytes@),
            res matches Err(e) ==> e == Error::InvalidICCProfile,
            res matches Ok(p) ==> {
                &&& p.0@.header == bytes@.subrange(0, 128)
                &&& p.0@.entries == parsed_entries(bytes@, tag_count(bytes@) as nat)
                &&& p.0@.shared == has_duplicate_offsets(bytes@)
                &&& keys_distinct(tag_table(p.0.tags))
            },
    {
        Ok(SpectralProfile(RawProfile::from_bytes(bytes)?))
    }

    /// Serialises the profile (see [`RawProfile::into_bytes`]).
    pub fn to_bytes(self) -> (res: Result<Vec<u8>, Error>)
        requires
            named_color2_writable(self.0@),
        ensures
            res is Ok <==> layout_fits(datas(self.0@.entries), self.0@.shared),
            res matches Ok(b) ==> b@ == serialize(self.0@),
            res matches Err(e) ==> e == Error::ProfileTooLarge(
                capped(next_offset(datas(self.0@.entries), self.0@.shared, self.0@.entries.len()), usize::MAX as nat) as usize,
            ),
    {
        self.0.into_bytes()
    }
}

/// A profile as one of the device classes, with `Raw` for a profile whose
/// device-class field holds no known class.
#[derive(Debug, Clone)]
pub enum Profile {
    Input(InputProfile),
    Display(DisplayProfile),
    Output(OutputProfile),
    DeviceLink(DeviceLinkProfile),
    Abstract(AbstractProfile),
    ColorSpace(ColorSpaceProfile),
    NamedColor(NamedColorProfile),
    Spectral(SpectralProfile),
    Raw(RawProfile),
}

impl Profile {
    /// The raw profile held.
    pub open spec fn raw_of(self) -> RawProfile {
        match self {
            Profile::Input(p) => p.0,
            Profile::Display(p) => p.0,
            Profile::Output(p) => p.0,
            Profile::DeviceLink(p) => p.0,
            Profile::Abstract(p) => p.0,
            Profile::ColorSpace(p) => p.0,
            Profile::NamedColor(p) => p.0,
            Profile::Spectral(p) => p.0,
            Profile::Raw(p) => p,
        }
    }

    /// The same variant holding another raw profile.
    pub open spec fn rewrap(self, raw: RawProfile) -> Profile {
        match self {
            Profile::Input(_) => Profile::Input(InputProfile(raw)),
            Profile::Display(_) => Profile::Display(DisplayProfile(raw)),
            Profile::Output(_) => Profile::Output(OutputProfile(raw)),
            Profile::DeviceLink(_) => Profile::DeviceLink(DeviceLinkProfile(raw)),
            Profile::Abstract(_) => Profile::Abstract(AbstractProfile(raw)),
            Profile::ColorSpace(_) => Profile::ColorSpace(ColorSpaceProfile(raw)),
            Profile::NamedColor(_) => Profile::NamedColor(NamedColorProfile(raw)),
            Profile::Spectral(_) => Profile::Spectral(SpectralProfile(raw)),
            Profile::Raw(_) => Profile::Raw(raw),
        }
    }

    /// The variant that a raw profile's device class selects.
    pub open spec fn of_class(raw: RawProfile) -> Profile {
        match DeviceClass::from_code(be_u32_at(raw.header@, 12)) {
            DeviceClass::Input => Profile::Input(InputProfile(raw)),
            DeviceClass::Display => Profile::Display(DisplayProfile(raw)),
            DeviceClass::Output => Profile::Output(OutputProfile(raw)),
            DeviceClass::DeviceLink => Profile::DeviceLink(DeviceLinkProfile(raw)),
            DeviceClass::Abstract => Profile::Abstract(AbstractProfile(raw)),
            DeviceClass::ColorSpace => Profile::ColorSpace(ColorSpaceProfile(raw)),
            DeviceClass::NamedColor => Profile::NamedColor(NamedColorProfile(raw)),
            DeviceClass::Spectral => Profile::Spectral(SpectralProfile(raw)),
            DeviceClass::Unknown => Profile::Raw(raw),
        }
    }

    /// The variant chosen for a raw profile follows the four-character class
    /// code at offset 12 of its header: `scnr` gives `Input`, `mntr` `Display`,
    /// `prtr` `Output`, `link` `DeviceLink`, `abst` `Abstract`, `spac`
    /// `ColorSpace`, `nmcl` `NamedColor`, `cenc` `Spectral`, and any other code
    /// `Raw`; the variant wraps the profile unchanged.
    pub proof fn law_variant_follows_class_code(raw: RawProfile)
        ensures
            ({
                let c = be_u32_at(raw.header@, 12);
                let p = Profile::of_class(raw);
                &&& (p is Input) <==> c == 0x73636E72
                &&& (p is Display) <==> c == 0x6D6E7472
                &&& (p is Output) <==> c == 0x70727472
                &&& (p is DeviceLink) <==> c == 0x6C696E6B
                &&& (p is Abstract) <==> c == 0x61627374
                &&& (p is ColorSpace) <==> c == 0x73706163
                &&& (p is NamedColor) <==> c == 0x6E6D636C
                &&& (p is Spectral) <==> c == 0x63656E63
                &&& (p is Raw) <==> !(c == 0x73636E72 || c == 0x6D6E7472 || c == 0x70727472 || c == 0x6C696E6B
                    || c == 0x61627374 || c == 0x73706163 || c == 0x6E6D636C || c == 0x63656E63)
                &&& p.raw_of() == raw
            }),
    {
    }

    /// Unwraps the raw profile.
    fn into_raw_profile(self) -> (r: RawProfile)
        ensures
            r == self.raw_of(),
    {
        match self {
            Profile::Input(p) => p.0,
            Profile::Display(p) => p.0,
            Profile::Output(p) => p.0,
            Profile::DeviceLink(p) => p.0,
            Profile::Abstract(p) => p.0,
            Profile::ColorSpace(p) => p.0,
            Profile::NamedColor(p) => p.0,
            Profile::Spectral(p) => p.0,
            Profile::Raw(p) => p,
        }
    }

    /// Borrows the raw profile.
    fn as_raw_profile(&self) -> (r: &RawProfile)
        ensures
            *r == self.raw_of(),
    {
        match self {
            Profile::Input(p) => &p.0,
            Profile::Display(p) => &p.0,
            Profile::Output(p) => &p.0,
            Profile::DeviceLink(p) => &p.0,
            Profile::Abstract(p) => &p.0,
            Profile::ColorSpace(p) => &p.0,
            Profile::NamedColor(p) => &p.0,
            Profile::Spectral(p) => &p.0,
            Profile::Raw(p) => p,
        }
    }

    /// Borrows the raw profile mutably.
    fn as_raw_profile_mut(&mut self) -> (r: &mut RawProfile)
        ensures
            *r == old(self).raw_of(),
            *final(self) == old(self).rewrap(*final(r)),
    {
        match self {
            Profile::Input(p) => &mut p.0,
            Profile::Display(p) => &mut p.0,
            Profile::Output(p) => &mut p.0,
            Profile::DeviceLink(p) => &mut p.0,
            Profile::Abstract(p) => &mut p.0,
            Profile::ColorSpace(p) => &mut p.0,
            Profile::NamedColor(p) => &mut p.0,
            Profile::Spectral(p) => &mut p.0,
            Profile::Raw(p) => p,
        }
    }

    /// The size of the profile in bytes as the header states it.
    pub fn profile_size(&self) -> (r: usize)
        ensures
            r == be_u32_at(self.raw_of().header@, 0),
    {
        self.as_raw_profile().profile_size()
    }

    /// The Color Management Module named by the header, if it is a known one.
    pub fn cmm(&self) -> (r: Option<Cmm>)
        ensures
            r == Cmm::from_code(be_u32_at(self.raw_of().header@, 4)),
    {
        self.as_raw_profile().cmm()
    }

    /// The ICC version as (major, minor); an error when it is not a supported one.
    pub fn version(&self) -> (r: Result<(u8, u8), Error>)
        ensures
            ({
                let (major, minor) = version_of_code(be_u32_at(self.raw_of().header@, 8));
                &&& is_supported_version(major, minor) ==> r == Ok::<(u8, u8), Error>((major, minor))
                &&& !is_supported_version(major, minor) ==> (r matches Err(Error::HeaderParseError(e))
                    && e.0@ == version_error_text(major, minor))
            }),
    {
        self.as_raw_profile().version()
    }

    /// The data color space, if the code is a known one.
    pub fn data_color_space(&self) -> (r: Option<ColorSpace>)
        ensures
            r == ColorSpace::from_code(be_u32_at(self.raw_of().header@, 16)),
    {
        self.as_raw_profile().data_color_space()
    }

    /// The Profile Connection Space, if the code is `XYZ `, `Lab ` or `spec`.
    pub fn pcs(&self) -> (r: Option<Pcs>)
        ensures
            r == Pcs::from_code(be_u32_at(self.raw_of().header@, 20)),
    {
        self.as_raw_profile().pcs()
    }

    /// The PCS illuminant as three s15Fixed16 numbers (X, Y, Z).
    pub fn pcs_illuminant_s15(&self) -> (r: [S15Fixed16; 3])
        ensures
            r[0].raw == be_u32_at(self.raw_of().header@, 68) as i32,
            r[1].raw == be_u32_at(self.raw_of().header@, 72) as i32,
            r[2].raw == be_u32_at(self.raw_of().header@, 76) as i32,
    {
        self.as_raw_profile().pcs_illuminant_s15()
    }

    /// The creation date and time; an `InvalidDate` error when the fields do not form one.
    pub fn creation_date(&self) -> (r: Result<DateTimeNumber, Error>)
        ensures
            valid_date_time(creation_of(self.raw_of().header@)) ==> r == Ok::<DateTimeNumber, Error>(creation_of(self.raw_of().header@)),
            !valid_date_time(creation_of(self.raw_of().header@)) ==> (r matches Err(Error::InvalidDate(t)) && t@ == date_time_text(creation_of(self.raw_of().header@))),
    {
        self.as_raw_profile().creation_date()
    }

    /// The primary platform, if the code is a known one.
    pub fn primary_platform(&self) -> (r: Option<Platform>)
        ensures
            r == Platform::from_code(be_u32_at(self.raw_of().header@, 40)),
    {
        self.as_raw_profile().primary_platform()
    }

    /// The (embedded, use-embedded-only) flags.
    pub fn flags(&self) -> (r: (bool, bool))
        ensures
            r == (be_u32_at(self.raw_of().header@, 44) % 2 == 1, (be_u32_at(self.raw_of().header@, 44) / 2) % 2 == 1),
    {
        self.as_raw_profile().flags()
    }

    /// The manufacturer signature, when its four bytes are printable ASCII.
    pub fn manufacturer(&self) -> (r: Option<Signature>)
        ensures
            r == (if code_text_printable(be_u32_at(self.raw_of().header@, 48)) {
                Some(Signature(be_u32_at(self.raw_of().header@, 48)))
            } else {
                None::<Signature>
            }),
    {
        self.as_raw_profile().manufacturer()
    }

    /// The model signature.
    pub fn model(&self) -> (r: Signature)
        ensures
            r == Signature(be_u32_at(self.raw_of().header@, 52)),
    {
        self.as_raw_profile().model()
    }

    /// The rendering intent (a value above 3 reads as perceptual).
    pub fn rendering_intent(&self) -> (r: RenderingIntent)
        ensures
            r == RenderingIntent::from_code(be_u32_at(self.raw_of().header@, 64)),
    {
        self.as_raw_profile().rendering_intent()
    }

    /// The 16-byte profile ID field.
    pub fn profile_id(&self) -> (r: [u8; 16])
        ensures
            r@ == profile_id_of(self.raw_of().header@),
    {
        self.as_raw_profile().profile_id()
    }

    /// The profile ID as lowercase hex in groups of eight digits.
    pub fn profile_id_as_hex_string(&self) -> (r: String)
        ensures
            r@ == grouped_by_eight(hex_lower_text(profile_id_of(self.raw_of().header@)), 32),
    {
        self.as_raw_profile().profile_id_as_hex_string()
    }

    /// Reads a profile from its bytes as the variant of its device class.
    pub fn from_bytes(bytes: &[u8]) -> (res: Result<Self, Error>)
        ensures
            res is Ok <==> parse_accepts(bytes@) && !has_short_named_color2(bytes@),
            res matches Err(e) ==> e == Error::InvalidICCProfile,
            res matches Ok(p) ==> {
                &&& p == Profile::of_class(p.raw_of())
                &&& p.raw_of()@.header == bytes@.subrange(0, 128)
                &&& p.raw_of()@.entries == parsed_entries(bytes@, tag_count(bytes@) as nat)
                &&& p.raw_of()@.shared == has_duplicate_offsets(bytes@)
                &&& keys_distinct(tag_table(p.raw_of().tags))
            },
    {
        let raw = RawProfile::from_bytes(bytes)?;
        Ok(raw.into_class_profile())
    }

    /// Serialises the profile (see [`RawProfile::into_bytes`]).
    pub fn into_bytes(self) -> (res: Result<Vec<u8>, Error>)
        requires
            named_color2_writable(self.raw_of()@),
        ensures
            res is Ok <==> layout_fits(datas(self.raw_of()@.entries), self.raw_of()@.shared),
            res matches Ok(b) ==> b@ == serialize(self.raw_of()@),
            res matches Err(e) ==> e == Error::ProfileTooLarge(
                capped(next_offset(datas(self.raw_of()@.entries), self.raw_of()@.shared, self.raw_of()@.entries.len()), usize::MAX as nat) as usize,
            ),
    {
        self.into_raw_profile().into_bytes()
    }

    /// The tag map, keyed by tag signature, in table order.
    pub fn tags(&self) -> (t: &TagMap)
        ensures
            *t == self.raw_of().tags,
    {
        &self.as_raw_profile().tags
    }

    /// The tag map, for changing the tags in place.
    pub fn tags_mut(&mut self) -> (t: &mut TagMap)
        ensures
            *t == old(self).raw_of().tags,
            *final(self) == old(self).rewrap(RawProfile { tags: *final(t), ..old(self).raw_of() }),
    {
        &mut self.as_raw_profile_mut().tags
    }

    /// Sets the ICC version, keeping the device class; an error (and no
    /// change) for an unsupported version.
    pub fn with_version(self, major: u8, minor: u8) -> (res: Result<Self, Error>)
        ensures
            is_supported_version(major, minor) ==> (res matches Ok(p) && p == self.rewrap(p.raw_of())
                && p.raw_of().header@ == splice(self.raw_of().header@, 8, be_bytes_u32(version_code(major, minor)))
                && p.raw_of().tags == self.raw_of().tags && p.raw_of().shared_tags == self.raw_of().shared_tags),
            !is_supported_version(major, minor) ==> (res matches Err(Error::HeaderParseError(e))
                && e.0@ == version_error_text(major, minor)),
    {
        Ok(match self {
            Profile::Input(p) => Profile::Input(p.with_version(major, minor)?),
            Profile::Display(p) => Profile::Display(p.with_version(major, minor)?),
            Profile::Output(p) => Profile::Output(p.with_version(major, minor)?),
            Profile::DeviceLink(p) => Profile::DeviceLink(p.with_version(major, minor)?),
            Profile::Abstract(p) => Profile::Abstract(p.with_version(major, minor)?),
            Profile::ColorSpace(p) => Profile::ColorSpace(p.with_version(major, minor)?),
            Profile::NamedColor(p) => Profile::NamedColor(p.with_version(major, minor)?),
            Profile::Spectral(p) => Profile::Spectral(p.with_version(major, minor)?),
            Profile::Raw(p) => Profile::Raw(p.with_version(major, minor)?),
        })
    }

    /// Starts setting the data of tag `tag`.
    pub fn with_tag<S: Into<TagSignature> + Copy>(self, tag: S) -> (t: TagSetter<Self, S>)
        ensures
            t.profile_of() == self,
            t.tag_of() == tag,
    {
        TagSetter::new(self, tag)
    }

    /// Sets the creation date and time, keeping the device class.
    pub fn with_creation_date(self, date: DateTimeNumber) -> (r: Self)
        ensures
            r == self.rewrap(r.raw_of()),
            creation_of(r.raw_of().header@) == date,
            forall|i: int| 0 <= i < 128 && !(24 <= i < 36) ==> #[trigger] r.raw_of().header@[i] == self.raw_of().header@[i],
            r.raw_of().tags == self.raw_of().tags,
            r.raw_of().shared_tags == self.raw_of().shared_tags,
    {
        match self {
            Profile::Input(p) => Profile::Input(p.with_creation_date(date)),
            Profile::Display(p) => Profile::Display(p.with_creation_date(date)),
            Profile::Output(p) => Profile::Output(p.with_creation_date(date)),
            Profile::DeviceLink(p) => Profile::DeviceLink(p.with_creation_date(date)),
            Profile::Abstract(p) => Profile::Abstract(p.with_creation_date(date)),
            Profile::ColorSpace(p) => Profile::ColorSpace(p.with_creation_date(date)),
            Profile::NamedColor(p) => Profile::NamedColor(p.with_creation_date(date)),
            Profile::Spectral(p) => Profile::Spectral(p.with_creation_date(date)),
            Profile::Raw(p) => Profile::Raw(p.with_creation_date(date)),
        }
    }
}

impl HasRawProfile for Profile {
    open spec fn raw_view(&self) -> RawProfile {
        self.raw_of()
    }

    fn raw(&self) -> (r: &RawProfile) {
        self.as_raw_profile()
    }

    fn raw_mut(&mut self) -> (r: &mut RawProfile) {
        self.as_raw_profile_mut()
    }
}

impl RawProfile {
    /// Wraps the profile as the variant of its device class; `Raw` when the
    /// class field holds no known class.
    pub fn into_class_profile(self) -> (p: Profile)
        ensures
            p == Profile::of_class(self),
    {
        match self.device_class() {
            DeviceClass::Input => Profile::Input(InputProfile(self)),
            DeviceClass::Display => Profile::Display(DisplayProfile(self)),
            DeviceClass::Output => Profile::Output(OutputProfile(self)),
            DeviceClass::DeviceLink => Profile::DeviceLink(DeviceLinkProfile(self)),
            DeviceClass::Abstract => Profile::Abstract(AbstractProfile(self)),
            DeviceClass::ColorSpace => Profile::ColorSpace(ColorSpaceProfile(self)),
            DeviceClass::NamedColor => Profile::NamedColor(NamedColorProfile(self)),
            DeviceClass::Spectral => Profile::Spectral(SpectralProfile(self)),
            DeviceClass::Unknown => Profile::Raw(self),
        }
    }
}

} // verus!
