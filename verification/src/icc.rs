//! A reader of ICC headers that walks the bytes front to back, and the
//! signature enumerations it uses.

use vstd::prelude::*;

use crate::bytes::{be_u16_at, be_u32_at, read_u16_be, read_u32_be};
use crate::datetime::{valid_date_time, DateTimeNumber};
use crate::error::{Error, HeaderParseError, ParseError};
use crate::text::{decode_utf8, utf8_decode};

verus! {

/// The profile (device) classes, including those of ICC version 5.
#[derive(Debug, Clone, Copy, PartialEq, Eq, Structural)]
pub enum Class {
    Input,
    Display,
    Output,
    DeviceLink,
    ColorSpace,
    Abstract,
    NamedColor,
    ColorEncodingSpace,
    MultiplexIdentification,
    MultiplexLink,
    MultiplexVisualization,
}

impl Class {
    /// The four-byte code of this value.
    pub open spec fn code(self) -> u32 {
        match self {
            Class::Input => 0x73636E72,
            Class::Display => 0x6D6E7472,
            Class::Output => 0x70727472,
            Class::DeviceLink => 0x6C696E6B,
            Class::ColorSpace => 0x73706163,
            Class::Abstract => 0x61627374,
            Class::NamedColor => 0x6E6D636C,
            Class::ColorEncodingSpace => 0x63656E63,
            Class::MultiplexIdentification => 0x6D696420,
            Class::MultiplexLink => 0x6D6C6E6B,
            Class::MultiplexVisualization => 0x6D766973,
        }
    }

    /// The value a four-byte code stands for, if any.
    pub open spec fn from_code(code: u32) -> Option<Class> {
        match code {
            0x73636E72 => Some(Class::Input),
            0x6D6E7472 => Some(Class::Display),
            0x70727472 => Some(Class::Output),
            0x6C696E6B => Some(Class::DeviceLink),
            0x73706163 => Some(Class::ColorSpace),
            0x61627374 => Some(Class::Abstract),
            0x6E6D636C => Some(Class::NamedColor),
            0x63656E63 => Some(Class::ColorEncodingSpace),
            0x6D696420 => Some(Class::MultiplexIdentification),
            0x6D6C6E6B => Some(Class::MultiplexLink),
            0x6D766973 => Some(Class::MultiplexVisualization),
            _ => None,
        }
    }

    /// The value a four-byte code stands for, if any.
    pub fn from_u32(code: u32) -> (r: Option<Class>)
        ensures
            r == Class::from_code(code),
    {
        match code {
            0x73636E72 => Some(Class::Input),
            0x6D6E7472 => Some(Class::Display),
            0x70727472 => Some(Class::Output),
            0x6C696E6B => Some(Class::DeviceLink),
            0x73706163 => Some(Class::ColorSpace),
            0x61627374 => Some(Class::Abstract),
            0x6E6D636C => Some(Class::NamedColor),
            0x63656E63 => Some(Class::ColorEncodingSpace),
            0x6D696420 => Some(Class::MultiplexIdentification),
            0x6D6C6E6B => Some(Class::MultiplexLink),
            0x6D766973 => Some(Class::MultiplexVisualization),
            _ => None,
        }
    }

    /// Reads the class field and moves past it; an error for an unknown class.
    pub fn read(icc_buf: &mut &[u8]) -> (res: Result<Class, Error>)
        requires
            old(icc_buf)@.len() >= 4,
        ensures
            final(icc_buf)@ == old(icc_buf)@.skip(4),
            res is Ok <==> Class::from_code(be_u32_at(old(icc_buf)@, 0)) is Some,
            res matches Ok(c) ==> Class::from_code(be_u32_at(old(icc_buf)@, 0)) == Some(c),
            res matches Err(e) ==> (e matches Error::HeaderParseError(h) && h.0@ == "illegal profile class"@),
    {
        let code = match read_be_u32(icc_buf) {
            Ok(v) => v,
            Err(e) => return Err(e),
        };
        match Class::from_u32(code) {
            Some(c) => Ok(c),
            None => Err(Error::HeaderParseError(HeaderParseError::new(
                <String as vstd::string::StringExecFns>::from_str("illegal profile class"),
            ))),
        }
    }
}

/// The color space signatures; `NONE` is zero and `NC` stands for n-channel
/// device data (ICC version 5), whose low 16 bits count the channels.
#[derive(Debug, Clone, Copy, PartialEq, Eq, Structural)]
pub enum ColorSpace {
    NONE,
    XYZ,
    Lab,
    Luv,
    YCbr,
    Yxy,
    RGB,
    Gray,
    HSV,
    HLS,
    CMYK,
    CMY,
    CLR2,
    CLR3,
    CLR4,
    CLR5,
    CLR6,
    CLR7,
    CLR8,
    CLR9,
    CLRA,
    CLRB,
    CLRC,
    CLRD,
    CLRE,
    CLRF,
    NC,
}

impl ColorSpace {
    /// The four-byte code of this value.
    pub open spec fn code(self) -> u32 {
        match self {
            ColorSpace::NONE => 0x00000000,
            ColorSpace::XYZ => 0x58595A20,
            ColorSpace::Lab => 0x4C616220,
            ColorSpace::Luv => 0x4C757620,
            ColorSpace::YCbr => 0x59436272,
            ColorSpace::Yxy => 0x59787920,
            ColorSpace::RGB => 0x52474220,
            ColorSpace::Gray => 0x47524159,
            ColorSpace::HSV => 0x48535620,
            ColorSpace::HLS => 0x484C5320,
            ColorSpace::CMYK => 0x434D594B,
            ColorSpace::CMY => 0x434D5920,
            ColorSpace::CLR2 => 0x32434C52,
            ColorSpace::CLR3 => 0x33434C52,
            ColorSpace::CLR4 => 0x34434C52,
            ColorSpace::CLR5 => 0x35434C52,
            ColorSpace::CLR6 => 0x36434C52,
            ColorSpace::CLR7 => 0x37434C52,
            ColorSpace::CLR8 => 0x38434C52,
            ColorSpace::CLR9 => 0x39434C52,
            ColorSpace::CLRA => 0x41434C52,
            ColorSpace::CLRB => 0x42434C52,
            ColorSpace::CLRC => 0x43434C52,
            ColorSpace::CLRD => 0x44434C52,
            ColorSpace::CLRE => 0x45434C52,
            ColorSpace::CLRF => 0x46434C52,
            ColorSpace::NC => 0x6E630000,
        }
    }

    /// The value a four-byte code stands for, if any.
    pub open spec fn from_code(code: u32) -> Option<ColorSpace> {
        match code {
            0x00000000 => Some(ColorSpace::NONE),
            0x58595A20 => Some(ColorSpace::XYZ),
            0x4C616220 => Some(ColorSpace::Lab),
            0x4C757620 => Some(ColorSpace::Luv),
            0x59436272 => Some(ColorSpace::YCbr),
            0x59787920 => Some(ColorSpace::Yxy),
            0x52474220 => Some(ColorSpace::RGB),
            0x47524159 => Some(ColorSpace::Gray),
            0x48535620 => Some(ColorSpace::HSV),
            0x484C5320 => Some(ColorSpace::HLS),
            0x434D594B => Some(ColorSpace::CMYK),
            0x434D5920 => Some(ColorSpace::CMY),
            0x32434C52 => Some(ColorSpace::CLR2),
            0x33434C52 => Some(ColorSpace::CLR3),
            0x34434C52 => Some(ColorSpace::CLR4),
            0x35434C52 => Some(ColorSpace::CLR5),
            0x36434C52 => Some(ColorSpace::CLR6),
            0x37434C52 => Some(ColorSpace::CLR7),
            0x38434C52 => Some(ColorSpace::CLR8),
            0x39434C52 => Some(ColorSpace::CLR9),
            0x41434C52 => Some(ColorSpace::CLRA),
            0x42434C52 => Some(ColorSpace::CLRB),
            0x43434C52 => Some(ColorSpace::CLRC),
            0x44434C52 => Some(ColorSpace::CLRD),
            0x45434C52 => Some(ColorSpace::CLRE),
            0x46434C52 => Some(ColorSpace::CLRF),
            0x6E630000 => Some(ColorSpace::NC),
            _ => None,
        }
    }

    /// The value a four-byte code stands for, if any.
    pub fn from_u32(code: u32) -> (r: Option<ColorSpace>)
        ensures
            r == ColorSpace::from_code(code),
    {
        match code {
            0x00000000 => Some(ColorSpace::NONE),
            0x58595A20 => Some(ColorSpace::XYZ),
            0x4C616220 => Some(ColorSpace::Lab),
            0x4C757620 => Some(ColorSpace::Luv),
            0x59436272 => Some(ColorSpace::YCbr),
            0x59787920 => Some(ColorSpace::Yxy),
            0x52474220 => Some(ColorSpace::RGB),
            0x47524159 => Some(ColorSpace::Gray),
            0x48535620 => Some(ColorSpace::HSV),
            0x484C5320 => Some(ColorSpace::HLS),
            0x434D594B => Some(ColorSpace::CMYK),
            0x434D5920 => Some(ColorSpace::CMY),
            0x32434C52 => Some(ColorSpace::CLR2),
            0x33434C52 => Some(ColorSpace::CLR3),
            0x34434C52 => Some(ColorSpace::CLR4),
            0x35434C52 => Some(ColorSpace::CLR5),
            0x36434C52 => Some(ColorSpace::CLR6),
            0x37434C52 => Some(ColorSpace::CLR7),
            0x38434C52 => Some(ColorSpace::CLR8),
            0x39434C52 => Some(ColorSpace::CLR9),
            0x41434C52 => Some(ColorSpace::CLRA),
            0x42434C52 => Some(ColorSpace::CLRB),
            0x43434C52 => Some(ColorSpace::CLRC),
            0x44434C52 => Some(ColorSpace::CLRD),
            0x45434C52 => Some(ColorSpace::CLRE),
            0x46434C52 => Some(ColorSpace::CLRF),
            0x6E630000 => Some(ColorSpace::NC),
            _ => None,
        }
    }

    /// Reads a color space field and moves past it.  A code `nc` followed by a
    /// non-zero 16-bit count is n-channel data with that many channels; an error
    /// for an unknown code.
    pub fn read(icc_buf: &mut &[u8]) -> (res: Result<(ColorSpace, Option<u16>), Error>)
        requires
            old(icc_buf)@.len() >= 4,
        ensures
            final(icc_buf)@ == old(icc_buf)@.skip(4),
            ({
                let v = be_u32_at(old(icc_buf)@, 0);
                &&& (0x6e63_0001 <= v <= 0x6e63_FFFF) ==> res == Ok::<(ColorSpace, Option<u16>), Error>(
                    (ColorSpace::NC, Some((v - 0x6e63_0000) as u16)),
                )
                &&& !(0x6e63_0001 <= v <= 0x6e63_FFFF) ==> (match ColorSpace::from_code(v) {
                    Some(c) => res == Ok::<(ColorSpace, Option<u16>), Error>((c, None)),
                    None => res matches Err(Error::HeaderParseError(h)) && h.0@ == "illegal profile color space"@,
                })
            }),
    {
        let mut sig = match read_be_u32(icc_buf) {
            Ok(v) => v,
            Err(e) => return Err(e),
        };
        let n_channels = if 0x6e63_0001 <= sig && sig <= 0x6e63_FFFF {
            let n = sig - 0x6e63_0000;
            sig = 0x6e63_0000;
            Some(n as u16)
        } else {
            None
        };
        match ColorSpace::from_u32(sig) {
            Some(c) => Ok((c, n_channels)),
            None => Err(Error::HeaderParseError(HeaderParseError::new(
                <String as vstd::string::StringExecFns>::from_str("illegal profile color space"),
            ))),
        }
    }
}

/// The rendering intents, by their header values 0 to 3.
#[derive(Debug, Clone, Copy, PartialEq, Eq, Structural)]
pub enum RenderingIntent {
    Perceptual,
    MediaRelativeColorimetric,
    Saturation,
    AbsoluteColorimetric,
}

/// The spectral color spaces of ICC version 5, each with its channel count.
#[derive(Debug, Clone, Copy, PartialEq, Eq, Structural)]
pub enum SpectralColorSpace {
    Reflectance(u16),
    Transmission(u16),
    RadiantEmission(u16),
    BiSpectralReflectance(u16),
    BiSpectralReflectanceSparse(u16),
}

/// Reads a big-endian `u32` and moves past it.
pub fn read_be_u32(input: &mut &[u8]) -> (res: Result<u32, Error>)
    requires
        old(input)@.len() >= 4,
    ensures
        res == Ok::<u32, Error>(be_u32_at(old(input)@, 0)),
        final(input)@ == old(input)@.skip(4),
{
    let s: &[u8] = *input;
    let (int_bytes, rest) = s.split_at(4);
    *input = rest;
    Ok(read_u32_be(int_bytes, 0))
}

/// Reads a big-endian `u16` and moves past it.
pub fn read_be_u16(input: &mut &[u8]) -> (res: Result<u16, Error>)
    requires
        old(input)@.len() >= 2,
    ensures
        res == Ok::<u16, Error>(be_u16_at(old(input)@, 0)),
        final(input)@ == old(input)@.skip(2),
{
    let s: &[u8] = *input;
    let (int_bytes, rest) = s.split_at(2);
    *input = rest;
    Ok(read_u16_be(int_bytes, 0))
}

/// Reads a version field and moves past it: the major version, and the two
/// nibbles of the minor and bug-fix version.
pub fn read_version(input: &mut &[u8]) -> (res: Result<[u8; 3], Error>)
    requires
        old(input)@.len() >= 4,
    ensures
        res matches Ok(v) && v@ == seq![old(input)@[0], old(input)@[1] / 16, old(input)@[1] % 16],
        final(input)@ == old(input)@.skip(4),
{
    let s: &[u8] = *input;
    let (version, rest) = s.split_at(4);
    *input = rest;
    let b1 = version[1];
    let v = [version[0], b1 >> 4, b1 & 0x0F];
    assert(b1 >> 4 == b1 / 16) by (bit_vector);
    assert(b1 & 0x0F == b1 % 16) by (bit_vector);
    assert(v@ =~= seq![old(input)@[0], old(input)@[1] / 16, old(input)@[1] % 16]);
    Ok(v)
}

/// The date and time held by twelve header bytes: six big-endian `u16`.
pub open spec fn date_time_at(b: Seq<u8>) -> DateTimeNumber {
    DateTimeNumber {
        year: be_u16_at(b, 0),
        month: be_u16_at(b, 2),
        day: be_u16_at(b, 4),
        hours: be_u16_at(b, 6),
        minutes: be_u16_at(b, 8),
        seconds: be_u16_at(b, 10),
    }
}

/// Reads the date and time fields and moves past them.  The fields must form a
/// valid date and time.
pub fn read_date_time(icc_buf: &mut &[u8]) -> (res: Result<DateTimeNumber, Error>)
    requires
        old(icc_buf)@.len() >= 12,
        valid_date_time(date_time_at(old(icc_buf)@)),
    ensures
        res == Ok::<DateTimeNumber, Error>(date_time_at(old(icc_buf)@)),
        final(icc_buf)@ == old(icc_buf)@.skip(12),
{
    let ghost b = icc_buf@;
    let year = read_be_u16(icc_buf)?;
    let month = read_be_u16(icc_buf)?;
    let day = read_be_u16(icc_buf)?;
    let hours = read_be_u16(icc_buf)?;
    let minutes = read_be_u16(icc_buf)?;
    let seconds = read_be_u16(icc_buf)?;
    assert(b.skip(2).skip(2).skip(2).skip(2).skip(2).skip(2) =~= b.skip(12));
    let d = DateTimeNumber { year, month, day, hours, minutes, seconds };
    assert(d == date_time_at(b));
    Ok(d)
}

/// Reads a four-byte signature and moves past it: its text when no byte is
/// zero (an error when that text is not UTF-8), and `None` when some byte is.
pub fn read_signature(icc_buf: &mut &[u8]) -> (res: Result<Option<String>, Error>)
    requires
        old(icc_buf)@.len() >= 4,
    ensures
        final(icc_buf)@ == old(icc_buf)@.skip(4),
        ({
            let s = old(icc_buf)@.subrange(0, 4);
            &&& (s[0] != 0 && s[1] != 0 && s[2] != 0 && s[3] != 0) ==> match utf8_decode(s) {
                Some(t) => res matches Ok(Some(x)) && x@ == t,
                None => res matches Err(Error::ParseError(p)) && p.0@ == "invalid UTF-8 in signature"@,
            }
            &&& !(s[0] != 0 && s[1] != 0 && s[2] != 0 && s[3] != 0) ==> res matches Ok(None)
        }),
{
    let b: &[u8] = *icc_buf;
    let (s, rest) = b.split_at(4);
    *icc_buf = rest;
    if s[0] != 0 && s[1] != 0 && s[2] != 0 && s[3] != 0 {
        match decode_utf8(s) {
            Some(t) => Ok(Some(t)),
            None => Err(Error::ParseError(ParseError::new(
                <String as vstd::string::StringExecFns>::from_str("invalid UTF-8 in signature"),
            ))),
        }
    } else {
        Ok(None)
    }
}

impl Class {
    /// The four characters of the ICC name of a value, as the ICC specification
    /// writes them; `None` for a value without one.
    pub open spec fn icc_name(self) -> Option<(char, char, char, char)> {
        match self {
            Class::Input => Some(('s', 'c', 'n', 'r')),
            Class::Display => Some(('m', 'n', 't', 'r')),
            Class::Output => Some(('p', 'r', 't', 'r')),
            Class::DeviceLink => Some(('l', 'i', 'n', 'k')),
            Class::ColorSpace => Some(('s', 'p', 'a', 'c')),
            Class::Abstract => Some(('a', 'b', 's', 't')),
            Class::NamedColor => Some(('n', 'm', 'c', 'l')),
            Class::ColorEncodingSpace => Some(('c', 'e', 'n', 'c')),
            Class::MultiplexIdentification => Some(('m', 'i', 'd', ' ')),
            Class::MultiplexLink => Some(('m', 'l', 'n', 'k')),
            Class::MultiplexVisualization => Some(('m', 'v', 'i', 's')),
        }
    }

    /// Each value with an ICC name is written as the big-endian code of the four
    /// characters of that name, and that code is read back as the same value.
    pub proof fn law_codes_are_icc_names(value: Class)
        ensures
            value.icc_name() matches Some(n) ==> value.code() == crate::signatures::fourcc(n),
            value.icc_name() matches Some(n) ==> Class::from_code(crate::signatures::fourcc(n)) == Some(value),
    {
    }
}

impl ColorSpace {
    /// The four characters of the ICC name of a value, as the ICC specification
    /// writes them; `None` for a value without one.
    pub open spec fn icc_name(self) -> Option<(char, char, char, char)> {
        match self {
            ColorSpace::NONE => None,
            ColorSpace::XYZ => Some(('X', 'Y', 'Z', ' ')),
            ColorSpace::Lab => Some(('L', 'a', 'b', ' ')),
            ColorSpace::Luv => Some(('L', 'u', 'v', ' ')),
            ColorSpace::YCbr => Some(('Y', 'C', 'b', 'r')),
            ColorSpace::Yxy => Some(('Y', 'x', 'y', ' ')),
            ColorSpace::RGB => Some(('R', 'G', 'B', ' ')),
            ColorSpace::Gray => Some(('G', 'R', 'A', 'Y')),
            ColorSpace::HSV => Some(('H', 'S', 'V', ' ')),
            ColorSpace::HLS => Some(('H', 'L', 'S', ' ')),
            ColorSpace::CMYK => Some(('C', 'M', 'Y', 'K')),
            ColorSpace::CMY => Some(('C', 'M', 'Y', ' ')),
            ColorSpace::CLR2 => Some(('2', 'C', 'L', 'R')),
            ColorSpace::CLR3 => Some(('3', 'C', 'L', 'R')),
            ColorSpace::CLR4 => Some(('4', 'C', 'L', 'R')),
            ColorSpace::CLR5 => Some(('5', 'C', 'L', 'R')),
            ColorSpace::CLR6 => Some(('6', 'C', 'L', 'R')),
            ColorSpace::CLR7 => Some(('7', 'C', 'L', 'R')),
            ColorSpace::CLR8 => Some(('8', 'C', 'L', 'R')),
            ColorSpace::CLR9 => Some(('9', 'C', 'L', 'R')),
            ColorSpace::CLRA => Some(('A', 'C', 'L', 'R')),
            ColorSpace::CLRB => Some(('B', 'C', 'L', 'R')),
            ColorSpace::CLRC => Some(('C', 'C', 'L', 'R')),
            ColorSpace::CLRD => Some(('D', 'C', 'L', 'R')),
            ColorSpace::CLRE => Some(('E', 'C', 'L', 'R')),
            ColorSpace::CLRF => Some(('F', 'C', 'L', 'R')),
            ColorSpace::NC => None,
        }
    }

    /// Each value with an ICC name is written as the big-endian code of the four
    /// characters of that name, and that code is read back as the same value.
    pub proof fn law_codes_are_icc_names(value: ColorSpace)
        ensures
            value.icc_name() matches Some(n) ==> value.code() == crate::signatures::fourcc(n),
            value.icc_name() matches Some(n) ==> ColorSpace::from_code(crate::signatures::fourcc(n)) == Some(value),
    {
    }
}

} // verus!
