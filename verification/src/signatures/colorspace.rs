use vstd::prelude::*;

verus! {

/// Data color spaces that an ICC header can name in its `color_space` field.
#[derive(Debug, Clone, Copy, PartialEq, Eq, Structural)]
pub enum ColorSpace {
    XYZ,  // 'XYZ '
    Lab,  // 'Lab '
    Luv,  // 'Luv '
    YCbr,  // 'YCbr'
    Yxy,  // 'Yxy '
    RGB,  // 'RGB '
    Gray,  // 'GRAY'
    HSV,  // 'HSV '
    HLS,  // 'HLS '
    CMYK,  // 'CMYK'
    CMY,  // 'CMY '
    CLR2,  // '2CLR'
    CLR3,  // '3CLR'
    CLR4,  // '4CLR'
    CLR5,  // '5CLR'
    CLR6,  // '6CLR'
    CLR7,  // '7CLR'
    CLR8,  // '8CLR'
    CLR9,  // '9CLR'
    CLRA,  // 'ACLR'
    CLRB,  // 'BCLR'
    CLRC,  // 'CCLR'
    CLRD,  // 'DCLR'
    CLRE,  // 'ECLR'
    CLRF,  // 'FCLR'
}

impl ColorSpace {
    /// The four-byte code of this value.
    pub open spec fn code(self) -> u32 {
        match self {
            ColorSpace::XYZ => 0x58595A20,
            ColorSpace::Lab => 0x4C616220,
            ColorSpace::Luv => 0x4C757620,
            ColorSpace::YCbr => 0x59436272,
            ColorSpace::Yxy => 0x59787920,
            ColorSpace::RGB => 0x52474220,
            ColorSpace::Gray => 0x47524159,
            ColorSpace::HSV => 0x48535620,
            ColorSpace::HLS => 0x484C5320,
            ColorSpace::CMYK => 0x434D594B,
            ColorSpace::CMY => 0x434D5920,
            ColorSpace::CLR2 => 0x32434C52,
            ColorSpace::CLR3 => 0x33434C52,
            ColorSpace::CLR4 => 0x34434C52,
            ColorSpace::CLR5 => 0x35434C52,
            ColorSpace::CLR6 => 0x36434C52,
            ColorSpace::CLR7 => 0x37434C52,
            ColorSpace::CLR8 => 0x38434C52,
            ColorSpace::CLR9 => 0x39434C52,
            ColorSpace::CLRA => 0x41434C52,
            ColorSpace::CLRB => 0x42434C52,
            ColorSpace::CLRC => 0x43434C52,
            ColorSpace::CLRD => 0x44434C52,
            ColorSpace::CLRE => 0x45434C52,
            ColorSpace::CLRF => 0x46434C52,
        }
    }

    /// The value that a four-byte code stands for, if any.
    pub open spec fn from_code(code: u32) -> Option<ColorSpace> {
        match code {
            0x58595A20 => Some(ColorSpace::XYZ),
            0x4C616220 => Some(ColorSpace::Lab),
            0x4C757620 => Some(ColorSpace::Luv),
            0x59436272 => Some(ColorSpace::YCbr),
            0x59787920 => Some(ColorSpace::Yxy),
            0x52474220 => Some(ColorSpace::RGB),
            0x47524159 => Some(ColorSpace::Gray),
            0x48535620 => Some(ColorSpace::HSV),
            0x484C5320 => Some(ColorSpace::HLS),
            0x434D594B => Some(ColorSpace::CMYK),
            0x434D5920 => Some(ColorSpace::CMY),
            0x32434C52 => Some(ColorSpace::CLR2),
            0x33434C52 => Some(ColorSpace::CLR3),
            0x34434C52 => Some(ColorSpace::CLR4),
            0x35434C52 => Some(ColorSpace::CLR5),
            0x36434C52 => Some(ColorSpace::CLR6),
            0x37434C52 => Some(ColorSpace::CLR7),
            0x38434C52 => Some(ColorSpace::CLR8),
            0x39434C52 => Some(ColorSpace::CLR9),
            0x41434C52 => Some(ColorSpace::CLRA),
            0x42434C52 => Some(ColorSpace::CLRB),
            0x43434C52 => Some(ColorSpace::CLRC),
            0x44434C52 => Some(ColorSpace::CLRD),
            0x45434C52 => Some(ColorSpace::CLRE),
            0x46434C52 => Some(ColorSpace::CLRF),
            _ => None,
        }
    }

    /// Decodes a four-byte code; `None` when no value has that code.
    pub fn from_u32(code: u32) -> (res: Option<ColorSpace>)
        ensures
            res == ColorSpace::from_code(code),
    {
        match code {
            0x58595A20 => Some(ColorSpace::XYZ),
            0x4C616220 => Some(ColorSpace::Lab),
            0x4C757620 => Some(ColorSpace::Luv),
            0x59436272 => Some(ColorSpace::YCbr),
            0x59787920 => Some(ColorSpace::Yxy),
            0x52474220 => Some(ColorSpace::RGB),
            0x47524159 => Some(ColorSpace::Gray),
            0x48535620 => Some(ColorSpace::HSV),
            0x484C5320 => Some(ColorSpace::HLS),
            0x434D594B => Some(ColorSpace::CMYK),
            0x434D5920 => Some(ColorSpace::CMY),
            0x32434C52 => Some(ColorSpace::CLR2),
            0x33434C52 => Some(ColorSpace::CLR3),
            0x34434C52 => Some(ColorSpace::CLR4),
            0x35434C52 => Some(ColorSpace::CLR5),
            0x36434C52 => Some(ColorSpace::CLR6),
            0x37434C52 => Some(ColorSpace::CLR7),
            0x38434C52 => Some(ColorSpace::CLR8),
            0x39434C52 => Some(ColorSpace::CLR9),
            0x41434C52 => Some(ColorSpace::CLRA),
            0x42434C52 => Some(ColorSpace::CLRB),
            0x43434C52 => Some(ColorSpace::CLRC),
            0x44434C52 => Some(ColorSpace::CLRD),
            0x45434C52 => Some(ColorSpace::CLRE),
            0x46434C52 => Some(ColorSpace::CLRF),
            _ => None,
        }
    }

    /// Returns the four-byte code of this value.
    pub fn to_u32(&self) -> (code: u32)
        ensures
            code == self.code(),
    {
        match self {
            ColorSpace::XYZ => 0x58595A20,
            ColorSpace::Lab => 0x4C616220,
            ColorSpace::Luv => 0x4C757620,
            ColorSpace::YCbr => 0x59436272,
            ColorSpace::Yxy => 0x59787920,
            ColorSpace::RGB => 0x52474220,
            ColorSpace::Gray => 0x47524159,
            ColorSpace::HSV => 0x48535620,
            ColorSpace::HLS => 0x484C5320,
            ColorSpace::CMYK => 0x434D594B,
            ColorSpace::CMY => 0x434D5920,
            ColorSpace::CLR2 => 0x32434C52,
            ColorSpace::CLR3 => 0x33434C52,
            ColorSpace::CLR4 => 0x34434C52,
            ColorSpace::CLR5 => 0x35434C52,
            ColorSpace::CLR6 => 0x36434C52,
            ColorSpace::CLR7 => 0x37434C52,
            ColorSpace::CLR8 => 0x38434C52,
            ColorSpace::CLR9 => 0x39434C52,
            ColorSpace::CLRA => 0x41434C52,
            ColorSpace::CLRB => 0x42434C52,
            ColorSpace::CLRC => 0x43434C52,
            ColorSpace::CLRD => 0x44434C52,
            ColorSpace::CLRE => 0x45434C52,
            ColorSpace::CLRF => 0x46434C52,
        }
    }

    /// Every value's code decodes back to that value.
    pub proof fn lemma_from_code_of_code(value: ColorSpace)
        ensures
            ColorSpace::from_code(value.code()) == Some(value),
    {
    }

    /// A code that decodes to a value is that value's code.
    pub proof fn lemma_code_of_from_code(code: u32)
        ensures
            ColorSpace::from_code(code) matches Some(value) ==> value.code() == code,
    {
    }
}

impl ColorSpace {
    /// The name of the variant, as text.
    pub open spec fn name(self) -> Seq<char> {
        match self {
            ColorSpace::XYZ => "XYZ"@,
            ColorSpace::Lab => "Lab"@,
            ColorSpace::Luv => "Luv"@,
            ColorSpace::YCbr => "YCbr"@,
            ColorSpace::Yxy => "Yxy"@,
            ColorSpace::RGB => "RGB"@,
            ColorSpace::Gray => "Gray"@,
            ColorSpace::HSV => "HSV"@,
            ColorSpace::HLS => "HLS"@,
            ColorSpace::CMYK => "CMYK"@,
            ColorSpace::CMY => "CMY"@,
            ColorSpace::CLR2 => "CLR2"@,
            ColorSpace::CLR3 => "CLR3"@,
            ColorSpace::CLR4 => "CLR4"@,
            ColorSpace::CLR5 => "CLR5"@,
            ColorSpace::CLR6 => "CLR6"@,
            ColorSpace::CLR7 => "CLR7"@,
            ColorSpace::CLR8 => "CLR8"@,
            ColorSpace::CLR9 => "CLR9"@,
            ColorSpace::CLRA => "CLRA"@,
            ColorSpace::CLRB => "CLRB"@,
            ColorSpace::CLRC => "CLRC"@,
            ColorSpace::CLRD => "CLRD"@,
            ColorSpace::CLRE => "CLRE"@,
            ColorSpace::CLRF => "CLRF"@,
        }
    }

    /// The name of the variant, e.g. for a text dump of a profile.
    pub fn to_string(&self) -> (s: String)
        ensures
            s@ == self.name(),
    {
        match self {
            ColorSpace::XYZ => <String as vstd::string::StringExecFns>::from_str("XYZ"),
            ColorSpace::Lab => <String as vstd::string::StringExecFns>::from_str("Lab"),
            ColorSpace::Luv => <String as vstd::string::StringExecFns>::from_str("Luv"),
            ColorSpace::YCbr => <String as vstd::string::StringExecFns>::from_str("YCbr"),
            ColorSpace::Yxy => <String as vstd::string::StringExecFns>::from_str("Yxy"),
            ColorSpace::RGB => <String as vstd::string::StringExecFns>::from_str("RGB"),
            ColorSpace::Gray => <String as vstd::string::StringExecFns>::from_str("Gray"),
            ColorSpace::HSV => <String as vstd::string::StringExecFns>::from_str("HSV"),
            ColorSpace::HLS => <String as vstd::string::StringExecFns>::from_str("HLS"),
            ColorSpace::CMYK => <String as vstd::string::StringExecFns>::from_str("CMYK"),
            ColorSpace::CMY => <String as vstd::string::StringExecFns>::from_str("CMY"),
            ColorSpace::CLR2 => <String as vstd::string::StringExecFns>::from_str("CLR2"),
            ColorSpace::CLR3 => <String as vstd::string::StringExecFns>::from_str("CLR3"),
            ColorSpace::CLR4 => <String as vstd::string::StringExecFns>::from_str("CLR4"),
            ColorSpace::CLR5 => <String as vstd::string::StringExecFns>::from_str("CLR5"),
            ColorSpace::CLR6 => <String as vstd::string::StringExecFns>::from_str("CLR6"),
            ColorSpace::CLR7 => <String as vstd::string::StringExecFns>::from_str("CLR7"),
            ColorSpace::CLR8 => <String as vstd::string::StringExecFns>::from_str("CLR8"),
            ColorSpace::CLR9 => <String as vstd::string::StringExecFns>::from_str("CLR9"),
            ColorSpace::CLRA => <String as vstd::string::StringExecFns>::from_str("CLRA"),
            ColorSpace::CLRB => <String as vstd::string::StringExecFns>::from_str("CLRB"),
            ColorSpace::CLRC => <String as vstd::string::StringExecFns>::from_str("CLRC"),
            ColorSpace::CLRD => <String as vstd::string::StringExecFns>::from_str("CLRD"),
            ColorSpace::CLRE => <String as vstd::string::StringExecFns>::from_str("CLRE"),
            ColorSpace::CLRF => <String as vstd::string::StringExecFns>::from_str("CLRF"),
        }
    }
}

impl ColorSpace {
    /// The four characters of the ICC name of a value, as the ICC specification
    /// writes them; `None` for a value without one.
    pub open spec fn icc_name(self) -> Option<(char, char, char, char)> {
        match self {
            ColorSpace::XYZ => Some(('X', 'Y', 'Z', ' ')),
            ColorSpace::Lab => Some(('L', 'a', 'b', ' ')),
            ColorSpace::Luv => Some(('L', 'u', 'v', ' ')),
            ColorSpace::YCbr => Some(('Y', 'C', 'b', 'r')),
            ColorSpace::Yxy => Some(('Y', 'x', 'y', ' ')),
            ColorSpace::RGB => Some(('R', 'G', 'B', ' ')),
            ColorSpace::Gray => Some(('G', 'R', 'A', 'Y')),
            ColorSpace::HSV => Some(('H', 'S', 'V', ' ')),
            ColorSpace::HLS => Some(('H', 'L', 'S', ' ')),
            ColorSpace::CMYK => Some(('C', 'M', 'Y', 'K')),
            ColorSpace::CMY => Some(('C', 'M', 'Y', ' ')),
            ColorSpace::CLR2 => Some(('2', 'C', 'L', 'R')),
            ColorSpace::CLR3 => Some(('3', 'C', 'L', 'R')),
            ColorSpace::CLR4 => Some(('4', 'C', 'L', 'R')),
            ColorSpace::CLR5 => Some(('5', 'C', 'L', 'R')),
            ColorSpace::CLR6 => Some(('6', 'C', 'L', 'R')),
            ColorSpace::CLR7 => Some(('7', 'C', 'L', 'R')),
            ColorSpace::CLR8 => Some(('8', 'C', 'L', 'R')),
            ColorSpace::CLR9 => Some(('9', 'C', 'L', 'R')),
            ColorSpace::CLRA => Some(('A', 'C', 'L', 'R')),
            ColorSpace::CLRB => Some(('B', 'C', 'L', 'R')),
            ColorSpace::CLRC => Some(('C', 'C', 'L', 'R')),
            ColorSpace::CLRD => Some(('D', 'C', 'L', 'R')),
            ColorSpace::CLRE => Some(('E', 'C', 'L', 'R')),
            ColorSpace::CLRF => Some(('F', 'C', 'L', 'R')),
        }
    }

    /// Each value with an ICC name is written as the big-endian code of the four
    /// characters of that name, and that code is read back as the same value.
    pub proof fn law_codes_are_icc_names(value: ColorSpace)
        ensures
            value.icc_name() matches Some(n) ==> value.code() == crate::signatures::fourcc(n),
            value.icc_name() matches Some(n) ==> ColorSpace::from_code(crate::signatures::fourcc(n)) == Some(value),
    {
    }
}

} // verus!
