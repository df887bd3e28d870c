//! The 128-byte ICC header: typed reads and consuming updates of its fields.
//!
//! Field layout (offsets in bytes, all values big-endian): size 0, cmm 4,
//! version 8, device class 12, color space 16, PCS 20, creation date and time
//! 24..36 (six `u16`), file signature 36, primary platform 40, flags 44,
//! manufacturer 48, model 52, attributes 56..64, rendering intent 64,
//! PCS illuminant 68..80 (three s15Fixed16), creator 80, profile ID 84..100.

pub mod laws;
pub mod summary;

use vstd::prelude::*;

use crate::bytes::{be_bytes_u16, be_bytes_u32, be_u16_at, be_u32_at, read_u16_be, read_u32_be, u16_to_be, u32_to_be};
use crate::datetime::{DateTimeNumber, date_time_text, valid_date_time};
use crate::error::{Error, HeaderParseError};
use crate::profile::RawProfile;
use crate::signatures::{code_text_printable, lemma_code_text_printable, signature_code_of_text, Cmm, ColorSpace, DeviceClass, Pcs, Platform, Signature};
use crate::tag::{GamutCheck, Interpolate, Quality, RenderingIntent};
use crate::text::{decimal_text, push_char, push_decimal};
use crate::{grouped_by_eight, hex_lower_text, is_printable_ascii_bytes, S15Fixed16};

verus! {

/// `h` with `b` written over the bytes from `off` on.
pub open spec fn splice(h: Seq<u8>, off: int, b: Seq<u8>) -> Seq<u8> {
    h.take(off) + b + h.skip(off + b.len())
}

/// A `u32` written into a header is read back, and the other fields keep their values.
pub proof fn lemma_splice_u32(h: Seq<u8>, off: int, v: u32)
    requires
        0 <= off,
        off + 4 <= h.len(),
    ensures
        splice(h, off, be_bytes_u32(v)).len() == h.len(),
        be_u32_at(splice(h, off, be_bytes_u32(v)), off) == v,
        forall|o: int| 0 <= o && o + 4 <= h.len() && (o + 4 <= off || off + 4 <= o) ==>
            #[trigger] be_u32_at(splice(h, off, be_bytes_u32(v)), o) == be_u32_at(h, o),
        forall|o: int| 0 <= o && o + 2 <= h.len() && (o + 2 <= off || off + 4 <= o) ==>
            #[trigger] be_u16_at(splice(h, off, be_bytes_u32(v)), o) == be_u16_at(h, o),
        forall|i: int| 0 <= i < h.len() && (i < off || off + 4 <= i) ==>
            #[trigger] splice(h, off, be_bytes_u32(v))[i] == h[i],
{
    crate::bytes::lemma_be_u32_roundtrip(v);
    let s = splice(h, off, be_bytes_u32(v));
    assert(s.subrange(off, off + 4) =~= be_bytes_u32(v));
    assert(be_u32_at(s, off) == be_u32_at(be_bytes_u32(v), 0));
}

/// A `u16` written into a header is read back, and the other fields keep their values.
pub proof fn lemma_splice_u16(h: Seq<u8>, off: int, v: u16)
    requires
        0 <= off,
        off + 2 <= h.len(),
    ensures
        splice(h, off, be_bytes_u16(v)).len() == h.len(),
        be_u16_at(splice(h, off, be_bytes_u16(v)), off) == v,
        forall|o: int| 0 <= o && o + 4 <= h.len() && (o + 4 <= off || off + 2 <= o) ==>
            #[trigger] be_u32_at(splice(h, off, be_bytes_u16(v)), o) == be_u32_at(h, o),
        forall|o: int| 0 <= o && o + 2 <= h.len() && (o + 2 <= off || off + 2 <= o) ==>
            #[trigger] be_u16_at(splice(h, off, be_bytes_u16(v)), o) == be_u16_at(h, o),
        forall|i: int| 0 <= i < h.len() && (i < off || off + 2 <= i) ==>
            #[trigger] splice(h, off, be_bytes_u16(v))[i] == h[i],
{
}

/// The ICC versions this crate reads and writes.
pub open spec fn is_supported_version(major: u8, minor: u8) -> bool {
    ||| major == 2 && minor <= 4
    ||| major == 4 && (minor == 0 || minor == 2 || minor == 3 || minor == 4)
    ||| major == 5 && minor == 0
}

/// The message of an unsupported-version error.
pub open spec fn version_error_text(major: u8, minor: u8) -> Seq<char> {
    "Invalid ICC profile version: V"@ + decimal_text(major as nat) + seq!['.'] + decimal_text(minor as nat)
}

/// Accepts the supported ICC versions (2.0 to 2.4, 4.0, 4.2 to 4.4, and 5.0) and
/// rejects any other with a header-parse error that names it.
pub fn validate_version(major: u8, minor: u8) -> (res: Result<(u8, u8), Error>)
    ensures
        is_supported_version(major, minor) ==> res == Ok::<(u8, u8), Error>((major, minor)),
        !is_supported_version(major, minor) ==> (res matches Err(Error::HeaderParseError(e))
            && e.0@ == version_error_text(major, minor)),
{
    match (major, minor) {
        (2, 0) | (2, 1) | (2, 2) | (2, 3) | (2, 4) | (4, 0) | (4, 2) | (4, 3) | (4, 4) | (5, 0) => Ok(
            (major, minor),
        ),
        _ => {
            let mut msg = <String as vstd::string::StringExecFns>::from_str("Invalid ICC profile version: V");
            proof {
                reveal_strlit("Invalid ICC profile version: V");
            }
            push_decimal(&mut msg, major as u32);
            push_char(&mut msg, '.');
            push_decimal(&mut msg, minor as u32);
            assert(msg@ =~= version_error_text(major, minor));
            Err(Error::HeaderParseError(HeaderParseError::new(msg)))
        },
    }
}

/// The version field value for a version: major in the top byte, minor in the
/// next four bits.
pub open spec fn version_code(major: u8, minor: u8) -> u32 {
    (major as int * 0x100_0000 + minor as int * 0x10_0000) as u32
}

/// The (major, minor) pair that a version field holds.
pub open spec fn version_of_code(v: u32) -> (u8, u8) {
    ((v / 0x100_0000) as u8, ((v / 0x10_0000) % 16) as u8)
}

/// The Apple hint flags held in a flags field.
pub open spec fn apple_hints_of(f: u32) -> (u32, u32, u32) {
    ((f >> 16u32) & 3u32, (f >> 18u32) & 1u32, (f >> 19u32) & 1u32)
}

/// The Apple quality hint that a two-bit value stands for (3 reads as normal).
pub open spec fn quality_of(q: u32) -> Quality {
    if q == 1 {
        Quality::Draft
    } else if q == 2 {
        Quality::High
    } else {
        Quality::Normal
    }
}

/// The flags field with its Apple hint bits (16 to 19) replaced by the given hints.
pub open spec fn with_apple_hints(f: u32, q: u32, i: u32, g: u32) -> u32 {
    (f & 0xFFF0_FFFFu32) | (q << 16u32) | (i << 18u32) | (g << 19u32)
}

/// The `u64` stored big-endian at `h[off..off + 8]`.
pub open spec fn be_u64_at(h: Seq<u8>, off: int) -> u64 {
    (be_u32_at(h, off) as int * 0x1_0000_0000 + be_u32_at(h, off + 4) as int) as u64
}

/// The creation date and time fields of a header.
pub open spec fn creation_of(h: Seq<u8>) -> DateTimeNumber {
    DateTimeNumber {
        year: be_u16_at(h, 24),
        month: be_u16_at(h, 26),
        day: be_u16_at(h, 28),
        hours: be_u16_at(h, 30),
        minutes: be_u16_at(h, 32),
        seconds: be_u16_at(h, 34),
    }
}

/// The profile ID field of a header.
pub open spec fn profile_id_of(h: Seq<u8>) -> Seq<u8> {
    h.subrange(84, 100)
}

/// The `acsp` file signature.
pub open spec fn acsp() -> u32 {
    0x61637370
}

impl RawProfile {
    fn get_u32(&self, off: usize) -> (v: u32)
        requires
            off + 4 <= 128,
        ensures
            v == be_u32_at(self.header@, off as int),
    {
        read_u32_be(self.header.as_slice(), off)
    }

    fn get_u16(&self, off: usize) -> (v: u16)
        requires
            off + 2 <= 128,
        ensures
            v == be_u16_at(self.header@, off as int),
    {
        read_u16_be(self.header.as_slice(), off)
    }

    fn set_u32(&mut self, off: usize, v: u32)
        requires
            off + 4 <= 128,
        ensures
            final(self).header@ == splice(old(self).header@, off as int, be_bytes_u32(v)),
            final(self).tags == old(self).tags,
            final(self).shared_tags == old(self).shared_tags,
    {
        let b = u32_to_be(v);
        self.header[off] = b[0];
        self.header[off + 1] = b[1];
        self.header[off + 2] = b[2];
        self.header[off + 3] = b[3];
        assert(self.header@ =~= splice(old(self).header@, off as int, be_bytes_u32(v)));
    }

    fn set_u16(&mut self, off: usize, v: u16)
        requires
            off + 2 <= 128,
        ensures
            final(self).header@ == splice(old(self).header@, off as int, be_bytes_u16(v)),
            final(self).tags == old(self).tags,
            final(self).shared_tags == old(self).shared_tags,
    {
        let b = u16_to_be(v);
        self.header[off] = b[0];
        self.header[off + 1] = b[1];
        assert(self.header@ =~= splice(old(self).header@, off as int, be_bytes_u16(v)));
    }

    /// The 128 header bytes.
    pub fn header_bytes(&self) -> (h: &[u8; 128])
        ensures
            h@ == self.header@,
    {
        &self.header
    }

    /// The size of the profile in bytes as the header states it.
    pub fn profile_size(&self) -> (size: usize)
        ensures
            size == be_u32_at(self.header@, 0),
    {
        self.get_u32(0) as usize
    }

    /// Sets the size field; the value is cut to 32 bits as the field holds.
    pub fn with_profile_size(self, size: usize) -> (p: Self)
        ensures
            p.header@ == splice(self.header@, 0, be_bytes_u32(size as u32)),
            p.tags == self.tags,
            p.shared_tags == self.shared_tags,
    {
        let mut q = self;
        q.set_u32(0, size as u32);
        q
    }

    /// The Color Management Module named by the header, if it is a known one.
    pub fn cmm(&self) -> (cmm: Option<Cmm>)
        ensures
            cmm == Cmm::from_code(be_u32_at(self.header@, 4)),
    {
        Cmm::from_u32(self.get_u32(4))
    }

    /// Sets the Color Management Module; never fails.
    pub fn with_cmm(self, cmm: Cmm) -> (res: Result<Self, Error>)
        ensures
            res matches Ok(p) && p.header@ == splice(self.header@, 4, be_bytes_u32(cmm.code()))
                && p.tags == self.tags && p.shared_tags == self.shared_tags,
    {
        let mut q = self;
        q.set_u32(4, cmm.to_u32());
        Ok(q)
    }

    /// The ICC version as (major, minor); an error when it is not a supported one.
    pub fn version(&self) -> (res: Result<(u8, u8), Error>)
        ensures
            ({
                let (major, minor) = version_of_code(be_u32_at(self.header@, 8));
                &&& is_supported_version(major, minor) ==> res == Ok::<(u8, u8), Error>((major, minor))
                &&& !is_supported_version(major, minor) ==> (res matches Err(Error::HeaderParseError(e))
                    && e.0@ == version_error_text(major, minor))
            }),
    {
        let v = self.get_u32(8);
        let major = (v / 0x100_0000) as u8;
        let minor = ((v / 0x10_0000) % 16) as u8;
        validate_version(major, minor)
    }

    /// Sets the ICC version; an error (and no change) for an unsupported version.
    pub fn with_version(self, major: u8, minor: u8) -> (res: Result<Self, Error>)
        ensures
            is_supported_version(major, minor) ==> (res matches Ok(p) && p.header@ == splice(
                self.header@,
                8,
                be_bytes_u32(version_code(major, minor)),
            ) && p.tags == self.tags && p.shared_tags == self.shared_tags),
            !is_supported_version(major, minor) ==> (res matches Err(Error::HeaderParseError(e))
                && e.0@ == version_error_text(major, minor)),
    {
        let mut q = self;
        let (major, minor) = validate_version(major, minor)?;
        q.set_u32(8, (major as u32) * 0x100_0000 + (minor as u32) * 0x10_0000);
        Ok(q)
    }

    /// The device class; `Unknown` for an unrecognised code.
    pub fn device_class(&self) -> (class: DeviceClass)
        ensures
            class == DeviceClass::from_code(be_u32_at(self.header@, 12)),
    {
        DeviceClass::new(Signature(self.get_u32(12)))
    }

    /// Sets the device class.
    pub fn with_device_class(self, device_class: DeviceClass) -> (p: Self)
        ensures
            p.header@ == splice(self.header@, 12, be_bytes_u32(device_class.code())),
            p.tags == self.tags,
            p.shared_tags == self.shared_tags,
    {
        let mut q = self;
        q.set_u32(12, device_class.to_u32());
        q
    }

    /// The data color space, if the code is a known one.
    pub fn data_color_space(&self) -> (cs: Option<ColorSpace>)
        ensures
            cs == ColorSpace::from_code(be_u32_at(self.header@, 16)),
    {
        ColorSpace::from_u32(self.get_u32(16))
    }

    /// Sets the data color space.
    pub fn with_data_color_space(self, color_space: ColorSpace) -> (p: Self)
        ensures
            p.header@ == splice(self.header@, 16, be_bytes_u32(color_space.code())),
            p.tags == self.tags,
            p.shared_tags == self.shared_tags,
    {
        let mut q = self;
        q.set_u32(16, color_space.to_u32());
        q
    }

    /// The Profile Connection Space, if the code is `XYZ `, `Lab ` or `spec`.
    pub fn pcs(&self) -> (pcs: Option<Pcs>)
        ensures
            pcs == Pcs::from_code(be_u32_at(self.header@, 20)),
    {
        match Pcs::new(Signature(self.get_u32(20))) {
            Ok(p) => Some(p),
            Err(_) => None,
        }
    }

    /// Sets the Profile Connection Space.
    pub fn with_pcs(self, pcs: Pcs) -> (p: Self)
        ensures
            p.header@ == splice(self.header@, 20, be_bytes_u32(pcs.code())),
            p.tags == self.tags,
            p.shared_tags == self.shared_tags,
    {
        let mut q = self;
        q.set_u32(20, pcs.to_u32());
        q
    }

    /// The PCS illuminant as three s15Fixed16 numbers (X, Y, Z).
    pub fn pcs_illuminant_s15(&self) -> (xyz: [S15Fixed16; 3])
        ensures
            xyz[0].raw == be_u32_at(self.header@, 68) as i32,
            xyz[1].raw == be_u32_at(self.header@, 72) as i32,
            xyz[2].raw == be_u32_at(self.header@, 76) as i32,
    {
        [
            S15Fixed16::from_raw(self.get_u32(68) as i32),
            S15Fixed16::from_raw(self.get_u32(72) as i32),
            S15Fixed16::from_raw(self.get_u32(76) as i32),
        ]
    }

    /// Sets the PCS illuminant from three s15Fixed16 numbers (X, Y, Z).
    pub fn with_pcs_illuminant_s15(self, xyz: [S15Fixed16; 3]) -> (p: Self)
        ensures
            p.header@ == splice(
                splice(splice(self.header@, 68, be_bytes_u32(xyz[0].raw as u32)), 72, be_bytes_u32(xyz[1].raw as u32)),
                76,
                be_bytes_u32(xyz[2].raw as u32),
            ),
            p.tags == self.tags,
            p.shared_tags == self.shared_tags,
    {
        let mut q = self;
        q.set_u32(68, xyz[0].raw as u32);
        q.set_u32(72, xyz[1].raw as u32);
        q.set_u32(76, xyz[2].raw as u32);
        q
    }

    /// The creation date and time; an `InvalidDate` error carrying the raw date
    /// as text when the fields do not form a valid date and time.
    pub fn creation_date(&self) -> (res: Result<DateTimeNumber, Error>)
        ensures
            valid_date_time(creation_of(self.header@)) ==> res == Ok::<DateTimeNumber, Error>(creation_of(self.header@)),
            !valid_date_time(creation_of(self.header@)) ==> (res matches Err(Error::InvalidDate(t))
                && t@ == date_time_text(creation_of(self.header@))),
    {
        let d = DateTimeNumber {
            year: self.get_u16(24),
            month: self.get_u16(26),
            day: self.get_u16(28),
            hours: self.get_u16(30),
            minutes: self.get_u16(32),
            seconds: self.get_u16(34),
        };
        if d.is_valid() {
            Ok(d)
        } else {
            Err(Error::InvalidDate(d.to_text()))
        }
    }

    /// Sets the creation date and time.
    pub fn with_creation_date(self, date: DateTimeNumber) -> (p: Self)
        ensures
            creation_of(p.header@) == date,
            forall|i: int| 0 <= i < 128 && !(24 <= i < 36) ==> #[trigger] p.header@[i] == self.header@[i],
            p.tags == self.tags,
            p.shared_tags == self.shared_tags,
    {
        let mut q = self;
        let ghost h0 = q.header@;
        q.set_u16(24, date.year);
        proof { lemma_splice_u16(h0, 24, date.year); }
        let ghost h1 = q.header@;
        q.set_u16(26, date.month);
        proof { lemma_splice_u16(h1, 26, date.month); }
        let ghost h2 = q.header@;
        q.set_u16(28, date.day);
        proof { lemma_splice_u16(h2, 28, date.day); }
        let ghost h3 = q.header@;
        q.set_u16(30, date.hours);
        proof { lemma_splice_u16(h3, 30, date.hours); }
        let ghost h4 = q.header@;
        q.set_u16(32, date.minutes);
        proof { lemma_splice_u16(h4, 32, date.minutes); }
        let ghost h5 = q.header@;
        q.set_u16(34, date.seconds);
        proof { lemma_splice_u16(h5, 34, date.seconds); }
        q
    }

    /// Sets the creation date and time to the current UTC time.
    pub fn with_now_as_creation_date(self) -> (p: Self)
        ensures
            crate::datetime::is_clock_reading(creation_of(p.header@)),
            forall|i: int| 0 <= i < 128 && !(24 <= i < 36) ==> #[trigger] p.header@[i] == self.header@[i],
            p.tags == self.tags,
            p.shared_tags == self.shared_tags,
    {
        let now = crate::datetime::current_utc_date_time();
        self.with_creation_date(now)
    }

    /// Checks the `acsp` file signature; `InvalidICCProfile` when it is missing.
    pub fn check_file_signature(&self) -> (res: Result<(), Error>)
        ensures
            (be_u32_at(self.header@, 36) == acsp()) ==> res is Ok,
            (be_u32_at(self.header@, 36) != acsp()) ==> res == Err::<(), Error>(Error::InvalidICCProfile),
    {
        if self.get_u32(36) != 0x61637370 {
            return Err(Error::InvalidICCProfile);
        }
        Ok(())
    }

    /// Writes the `acsp` file signature.
    pub fn with_valid_file_signature(self) -> (p: Self)
        ensures
            p.header@ == splice(self.header@, 36, be_bytes_u32(acsp())),
            p.tags == self.tags,
            p.shared_tags == self.shared_tags,
    {
        let mut q = self;
        q.set_u32(36, 0x61637370);
        q
    }

    /// The primary platform, if the code is a known one.
    pub fn primary_platform(&self) -> (p: Option<Platform>)
        ensures
            p == Platform::from_code(be_u32_at(self.header@, 40)),
    {
        Platform::from_u32(self.get_u32(40))
    }

    /// Sets the primary platform.
    pub fn with_primary_platform(self, platform: Platform) -> (p: Self)
        ensures
            p.header@ == splice(self.header@, 40, be_bytes_u32(platform.code())),
            p.tags == self.tags,
            p.shared_tags == self.shared_tags,
    {
        let mut q = self;
        q.set_u32(40, platform.to_u32());
        q
    }

    /// The (embedded, use-embedded-only) flags: bits 0 and 1 of the flags field.
    pub fn flags(&self) -> (f: (bool, bool))
        ensures
            f == (be_u32_at(self.header@, 44) % 2 == 1, (be_u32_at(self.header@, 44) / 2) % 2 == 1),
    {
        let flags = self.get_u32(44);
        (flags % 2 == 1, (flags / 2) % 2 == 1)
    }

    /// Clears the whole flags field.
    pub fn with_cleared_flags(self) -> (p: Self)
        ensures
            p.header@ == splice(self.header@, 44, be_bytes_u32(0)),
            p.tags == self.tags,
            p.shared_tags == self.shared_tags,
    {
        let mut q = self;
        q.set_u32(44, 0);
        q
    }

    /// Sets the flags field to hold just the embedded (bit 0) and
    /// use-embedded-only (bit 1) flags; never fails.
    pub fn with_flags(self, embedded: bool, use_embedded_only: bool) -> (res: Result<Self, Error>)
        ensures
            res matches Ok(p) && p.header@ == splice(
                self.header@,
                44,
                be_bytes_u32(((if embedded { 1int } else { 0 }) + (if use_embedded_only { 2int } else { 0 })) as u32),
            ) && p.tags == self.tags && p.shared_tags == self.shared_tags,
    {
        let mut q = self;
        let mut flags: u32 = 0;
        if embedded {
            flags = flags + 1;
        }
        if use_embedded_only {
            flags = flags + 2;
        }
        q.set_u32(44, flags);
        Ok(q)
    }

    /// The Apple (ColorSync) hints in bits 16 to 19 of the flags field.
    pub fn apple_flags(&self) -> (hints: (Quality, Interpolate, GamutCheck))
        ensures
            ({
                let (q, i, g) = apple_hints_of(be_u32_at(self.header@, 44));
                hints == (quality_of(q), if i == 1 { Interpolate::False } else { Interpolate::True },
                    if g == 1 { GamutCheck::False } else { GamutCheck::True })
            }),
    {
        let flags = self.get_u32(44);
        let quality = (flags >> 16) & 0x03;
        let interpolate = (flags >> 18) & 0x01;
        let gamut_check = (flags >> 19) & 0x01;
        let quality_hint = if quality == 1 {
            Quality::Draft
        } else if quality == 2 {
            Quality::High
        } else {
            Quality::Normal
        };
        let interpolate_hint = if interpolate == 1 {
            Interpolate::False
        } else {
            Interpolate::True
        };
        let gamut_check_hint = if gamut_check == 1 {
            GamutCheck::False
        } else {
            GamutCheck::True
        };
        (quality_hint, interpolate_hint, gamut_check_hint)
    }

    /// Sets the Apple hints in bits 16 to 19 of the flags field, replacing the
    /// hints held before, and sets the CMM to Apple, since ColorSync reads these
    /// bits only then.
    pub fn with_apple_flags(self, quality: Quality, interpolate: Interpolate, gamut_check: GamutCheck) -> (p: Self)
        ensures
            p.header@ == splice(
                splice(self.header@, 4, be_bytes_u32(Cmm::Apple.code())),
                44,
                be_bytes_u32(with_apple_hints(be_u32_at(self.header@, 44), quality.code(), interpolate.code(), gamut_check.code())),
            ),
            p.tags == self.tags,
            p.shared_tags == self.shared_tags,
    {
        let mut q = self;
        let ghost h0 = q.header@;
        let mut flags = q.get_u32(44);
        flags = flags & 0xFFF0_FFFF;
        flags = flags | (quality.to_u32() << 16);
        flags = flags | (interpolate.to_u32() << 18);
        flags = flags | (gamut_check.to_u32() << 19);
        q.set_u32(4, Cmm::Apple.to_u32());
        proof { lemma_splice_u32(h0, 4, Cmm::Apple.code()); }
        q.set_u32(44, flags);
        q
    }

    /// The manufacturer signature, when the text that shows it is printable
    /// ASCII: four printable ASCII characters, or eight hex digits for a code
    /// with a byte of 0x80 or above.
    pub fn manufacturer(&self) -> (m: Option<Signature>)
        ensures
            m == (if code_text_printable(be_u32_at(self.header@, 48)) {
                Some(Signature(be_u32_at(self.header@, 48)))
            } else {
                None::<Signature>
            }),
    {
        let code = self.get_u32(48);
        let b = u32_to_be(code);
        proof {
            lemma_code_text_printable(code);
        }
        if b[0] >= 0x80 || b[1] >= 0x80 || b[2] >= 0x80 || b[3] >= 0x80 || is_printable_ascii_bytes(b.as_slice()) {
            Some(Signature(code))
        } else {
            None
        }
    }

    /// Sets the manufacturer from its four ASCII characters, e.g. `"APPL"`; any
    /// other text sets the field to zero.
    pub fn with_manufacturer(self, manufacturer: &str) -> (p: Self)
        ensures
            p.header@ == splice(self.header@, 48, be_bytes_u32(match signature_code_of_text(manufacturer@) {
                Some(c) => c,
                None => 0u32,
            })),
            p.tags == self.tags,
            p.shared_tags == self.shared_tags,
    {
        let mut q = self;
        let code = match Signature::from_text(manufacturer) {
            Some(s) => s.0,
            None => 0,
        };
        q.set_u32(48, code);
        q
    }

    /// The model signature.
    pub fn model(&self) -> (m: Signature)
        ensures
            m == Signature(be_u32_at(self.header@, 52)),
    {
        Signature(self.get_u32(52))
    }

    /// Sets the model; `None` sets the field to zero.
    pub fn with_model(self, model: Option<Signature>) -> (p: Self)
        ensures
            p.header@ == splice(self.header@, 52, be_bytes_u32(match model {
                Some(s) => s.0,
                None => 0u32,
            })),
            p.tags == self.tags,
            p.shared_tags == self.shared_tags,
    {
        let mut q = self;
        let code = match model {
            Some(s) => s.0,
            None => 0,
        };
        q.set_u32(52, code);
        q
    }

    /// The 64-bit device attributes.
    pub fn attributes(&self) -> (a: u64)
        ensures
            a == be_u64_at(self.header@, 56),
    {
        let hi = self.get_u32(56) as u64;
        let lo = self.get_u32(60) as u64;
        hi * 0x1_0000_0000 + lo
    }

    /// Sets the 64-bit device attributes.
    pub fn with_attributes(self, attributes: u64) -> (p: Self)
        ensures
            p.header@ == splice(
                splice(self.header@, 56, be_bytes_u32((attributes / 0x1_0000_0000) as u32)),
                60,
                be_bytes_u32((attributes % 0x1_0000_0000) as u32),
            ),
            p.tags == self.tags,
            p.shared_tags == self.shared_tags,
    {
        let mut q = self;
        q.set_u32(56, (attributes / 0x1_0000_0000) as u32);
        q.set_u32(60, (attributes % 0x1_0000_0000) as u32);
        q
    }

    /// The rendering intent (a value above 3 reads as perceptual).
    pub fn rendering_intent(&self) -> (ri: RenderingIntent)
        ensures
            ri == RenderingIntent::from_code(be_u32_at(self.header@, 64)),
    {
        let v = self.get_u32(64);
        if v == 1 {
            RenderingIntent::RelativeColorimetric
        } else if v == 2 {
            RenderingIntent::Saturation
        } else if v == 3 {
            RenderingIntent::AbsoluteColorimetric
        } else {
            RenderingIntent::Perceptual
        }
    }

    /// Sets the rendering intent.
    pub fn with_rendering_intent(self, rendering_intent: RenderingIntent) -> (p: Self)
        ensures
            p.header@ == splice(self.header@, 64, be_bytes_u32(rendering_intent.code())),
            p.tags == self.tags,
            p.shared_tags == self.shared_tags,
    {
        let mut q = self;
        q.set_u32(64, rendering_intent.to_u32());
        q
    }

    /// The creator signature; `None` when the field is zero.
    pub fn creator(&self) -> (c: Option<Signature>)
        ensures
            c == (if be_u32_at(self.header@, 80) == 0 {
                None::<Signature>
            } else {
                Some(Signature(be_u32_at(self.header@, 80)))
            }),
    {
        let c = self.get_u32(80);
        if c == 0 {
            None
        } else {
            Some(Signature(c))
        }
    }

    /// Sets the creator from its four ASCII characters; any other text sets the
    /// field to zero.
    pub fn with_creator(self, creator: &str) -> (p: Self)
        ensures
            p.header@ == splice(self.header@, 80, be_bytes_u32(match signature_code_of_text(creator@) {
                Some(c) => c,
                None => 0u32,
            })),
            p.tags == self.tags,
            p.shared_tags == self.shared_tags,
    {
        let mut q = self;
        let code = match Signature::from_text(creator) {
            Some(s) => s.0,
            None => 0,
        };
        q.set_u32(80, code);
        q
    }

    /// The 16-byte profile ID field.
    pub fn profile_id(&self) -> (id: [u8; 16])
        ensures
            id@ == profile_id_of(self.header@),
    {
        let mut id = [0u8; 16];
        let mut i: usize = 0;
        while i < 16
            invariant
                i <= 16,
                forall|j: int| 0 <= j < i ==> id@[j] == self.header@[84 + j],
            decreases 16 - i,
        {
            id[i] = self.header[84 + i];
            i += 1;
        }
        assert(id@ =~= profile_id_of(self.header@));
        id
    }

    /// The profile ID as lowercase hex in groups of eight digits.
    pub fn profile_id_as_hex_string(&self) -> (s: String)
        ensures
            s@ == grouped_by_eight(hex_lower_text(profile_id_of(self.header@)), 32),
    {
        let id = self.profile_id();
        crate::format_hex_with_spaces(id.as_slice())
    }

    fn set_profile_id_field(&mut self, last: u8)
        ensures
            final(self).header@ == splice(old(self).header@, 84, Seq::new(15, |i: int| 0u8).push(last)),
            final(self).tags == old(self).tags,
            final(self).shared_tags == old(self).shared_tags,
    {
        let mut i: usize = 84;
        while i < 99
            invariant
                84 <= i <= 99,
                self.tags == old(self).tags,
                self.shared_tags == old(self).shared_tags,
                forall|j: int| 0 <= j < 128 && !(84 <= j < i) ==> self.header@[j] == old(self).header@[j],
                forall|j: int| 84 <= j < i ==> self.header@[j] == 0,
            decreases 99 - i,
        {
            self.header[i] = 0;
            i += 1;
        }
        self.header[99] = last;
        assert(self.header@ =~= splice(old(self).header@, 84, Seq::new(15, |i: int| 0u8).push(last)));
    }

    /// Clears the profile ID, so that none is written.
    pub fn without_profile_id(self) -> (p: Self)
        ensures
            p.header@ == splice(self.header@, 84, Seq::new(16, |i: int| 0u8)),
            p.tags == self.tags,
            p.shared_tags == self.shared_tags,
    {
        let mut q = self;
        q.set_profile_id_field(0);
        assert(Seq::new(15, |i: int| 0u8).push(0u8) =~= Seq::new(16, |i: int| 0u8));
        q
    }

    /// Requests a profile ID: the field is set to 1, and serialising the profile
    /// replaces it with the MD5 checksum.
    pub fn with_profile_id(self) -> (p: Self)
        ensures
            p.header@ == splice(self.header@, 84, Seq::new(15, |i: int| 0u8).push(1u8)),
            p.tags == self.tags,
            p.shared_tags == self.shared_tags,
    {
        let mut q = self;
        q.set_profile_id_field(1);
        q
    }
}

} // verus!
