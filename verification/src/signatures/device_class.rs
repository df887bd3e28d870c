use vstd::prelude::*;

use crate::signatures::Signature;

verus! {

/// The ICC device classes, plus `Unknown` for a header whose class field holds
/// no known code.
#[derive(Debug, Clone, Copy, PartialEq, Eq, Structural)]
pub enum DeviceClass {
    Unknown,
    Input,  // 'scnr'
    Display,  // 'mntr'
    Output,  // 'prtr'
    DeviceLink,  // 'link'
    Abstract,  // 'abst'
    ColorSpace,  // 'spac'
    NamedColor,  // 'nmcl'
    Spectral,  // 'cenc' (ICC.2)
}

impl DeviceClass {
    /// The four-byte code of the class; 0 for `Unknown`.
    pub open spec fn code(self) -> u32 {
        match self {
            DeviceClass::Unknown => 0,
            DeviceClass::Input => 0x73636E72,
            DeviceClass::Display => 0x6D6E7472,
            DeviceClass::Output => 0x70727472,
            DeviceClass::DeviceLink => 0x6C696E6B,
            DeviceClass::Abstract => 0x61627374,
            DeviceClass::ColorSpace => 0x73706163,
            DeviceClass::NamedColor => 0x6E6D636C,
            DeviceClass::Spectral => 0x63656E63,
        }
    }

    /// The class a four-byte code stands for; `Unknown` for any other code.
    pub open spec fn from_code(code: u32) -> DeviceClass {
        match code {
            0x73636E72 => DeviceClass::Input,
            0x6D6E7472 => DeviceClass::Display,
            0x70727472 => DeviceClass::Output,
            0x6C696E6B => DeviceClass::DeviceLink,
            0x61627374 => DeviceClass::Abstract,
            0x73706163 => DeviceClass::ColorSpace,
            0x6E6D636C => DeviceClass::NamedColor,
            0x63656E63 => DeviceClass::Spectral,
            _ => DeviceClass::Unknown,
        }
    }

    /// The device class that a signature stands for.
    pub fn new(tag: Signature) -> (class: DeviceClass)
        ensures
            class == DeviceClass::from_code(tag.0),
    {
        match tag.0 {
            0x73636E72 => DeviceClass::Input,
            0x6D6E7472 => DeviceClass::Display,
            0x70727472 => DeviceClass::Output,
            0x6C696E6B => DeviceClass::DeviceLink,
            0x61627374 => DeviceClass::Abstract,
            0x73706163 => DeviceClass::ColorSpace,
            0x6E6D636C => DeviceClass::NamedColor,
            0x63656E63 => DeviceClass::Spectral,
            _ => DeviceClass::Unknown,
        }
    }

    /// The four-byte code of the class; 0 for `Unknown`.
    pub fn to_u32(self) -> (code: u32)
        ensures
            code == self.code(),
    {
        match self {
            DeviceClass::Unknown => 0,
            DeviceClass::Input => 0x73636E72,
            DeviceClass::Display => 0x6D6E7472,
            DeviceClass::Output => 0x70727472,
            DeviceClass::DeviceLink => 0x6C696E6B,
            DeviceClass::Abstract => 0x61627374,
            DeviceClass::ColorSpace => 0x73706163,
            DeviceClass::NamedColor => 0x6E6D636C,
            DeviceClass::Spectral => 0x63656E63,
        }
    }

    /// Every class, `Unknown` included, is recovered from its code.
    pub proof fn lemma_from_code_of_code(class: DeviceClass)
        ensures
            DeviceClass::from_code(class.code()) == class,
    {
    }
}

impl Default for DeviceClass {
    fn default() -> (class: DeviceClass)
        ensures
            class == DeviceClass::Unknown,
    {
        DeviceClass::Unknown
    }
}

impl From<DeviceClass> for Signature {
    fn from(device_class: DeviceClass) -> (s: Signature) {
        Signature(device_class.to_u32())
    }
}

impl vstd::std_specs::convert::FromSpecImpl<DeviceClass> for Signature {
    open spec fn obeys_from_spec() -> bool {
        true
    }

    open spec fn from_spec(device_class: DeviceClass) -> Signature {
        Signature(device_class.code())
    }
}

impl From<DeviceClass> for u32 {
    fn from(device_class: DeviceClass) -> (code: u32) {
        device_class.to_u32()
    }
}

impl vstd::std_specs::convert::FromSpecImpl<DeviceClass> for u32 {
    open spec fn obeys_from_spec() -> bool {
        true
    }

    open spec fn from_spec(device_class: DeviceClass) -> u32 {
        device_class.code()
    }
}

impl DeviceClass {
    /// The name of the variant, as text.
    pub open spec fn name(self) -> Seq<char> {
        match self {
            DeviceClass::Unknown => "Unknown"@,
            DeviceClass::Input => "Input"@,
            DeviceClass::Display => "Display"@,
            DeviceClass::Output => "Output"@,
            DeviceClass::DeviceLink => "DeviceLink"@,
            DeviceClass::Abstract => "Abstract"@,
            DeviceClass::ColorSpace => "ColorSpace"@,
            DeviceClass::NamedColor => "NamedColor"@,
            DeviceClass::Spectral => "Spectral"@,
        }
    }

    /// The name of the variant, e.g. for a text dump of a profile.
    pub fn to_string(&self) -> (s: String)
        ensures
            s@ == self.name(),
    {
        match self {
            DeviceClass::Unknown => <String as vstd::string::StringExecFns>::from_str("Unknown"),
            DeviceClass::Input => <String as vstd::string::StringExecFns>::from_str("Input"),
            DeviceClass::Display => <String as vstd::string::StringExecFns>::from_str("Display"),
            DeviceClass::Output => <String as vstd::string::StringExecFns>::from_str("Output"),
            DeviceClass::DeviceLink => <String as vstd::string::StringExecFns>::from_str("DeviceLink"),
            DeviceClass::Abstract => <String as vstd::string::StringExecFns>::from_str("Abstract"),
            DeviceClass::ColorSpace => <String as vstd::string::StringExecFns>::from_str("ColorSpace"),
            DeviceClass::NamedColor => <String as vstd::string::StringExecFns>::from_str("NamedColor"),
            DeviceClass::Spectral => <String as vstd::string::StringExecFns>::from_str("Spectral"),
        }
    }
}

impl DeviceClass {
    /// The four characters of the ICC name of a value, as the ICC specification
    /// writes them; `None` for a value without one.
    pub open spec fn icc_name(self) -> Option<(char, char, char, char)> {
        match self {
            DeviceClass::Unknown => None,
            DeviceClass::Input => Some(('s', 'c', 'n', 'r')),
            DeviceClass::Display => Some(('m', 'n', 't', 'r')),
            DeviceClass::Output => Some(('p', 'r', 't', 'r')),
            DeviceClass::DeviceLink => Some(('l', 'i', 'n', 'k')),
            DeviceClass::Abstract => Some(('a', 'b', 's', 't')),
            DeviceClass::ColorSpace => Some(('s', 'p', 'a', 'c')),
            DeviceClass::NamedColor => Some(('n', 'm', 'c', 'l')),
            DeviceClass::Spectral => Some(('c', 'e', 'n', 'c')),
        }
    }

    /// Each value with an ICC name is written as the big-endian code of the four
    /// characters of that name, and that code is read back as the same value.
    pub proof fn law_codes_are_icc_names(value: DeviceClass)
        ensures
            value.icc_name() matches Some(n) ==> value.code() == crate::signatures::fourcc(n),
            value.icc_name() matches Some(n) ==> DeviceClass::from_code(crate::signatures::fourcc(n)) == value,
    {
    }
}

} // verus!
