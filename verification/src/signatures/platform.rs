use vstd::prelude::*;

verus! {

/// Primary platforms that an ICC header can name.
#[derive(Debug, Clone, Copy, PartialEq, Eq, Structural)]
pub enum Platform {
    Apple,  // 'APPL'
    Microsoft,  // 'MSFT'
    SiliconGraphics,  // 'SGI '
    SunMicrosystems,  // 'SUNW'
}

impl Platform {
    /// The four-byte code of this value.
    pub open spec fn code(self) -> u32 {
        match self {
            Platform::Apple => 0x4150504C,
            Platform::Microsoft => 0x4D534654,
            Platform::SiliconGraphics => 0x53474920,
            Platform::SunMicrosystems => 0x53554E57,
        }
    }

    /// The value that a four-byte code stands for, if any.
    pub open spec fn from_code(code: u32) -> Option<Platform> {
        match code {
            0x4150504C => Some(Platform::Apple),
            0x4D534654 => Some(Platform::Microsoft),
            0x53474920 => Some(Platform::SiliconGraphics),
            0x53554E57 => Some(Platform::SunMicrosystems),
            _ => None,
        }
    }

    /// Decodes a four-byte code; `None` when no value has that code.
    pub fn from_u32(code: u32) -> (res: Option<Platform>)
        ensures
            res == Platform::from_code(code),
    {
        match code {
            0x4150504C => Some(Platform::Apple),
            0x4D534654 => Some(Platform::Microsoft),
            0x53474920 => Some(Platform::SiliconGraphics),
            0x53554E57 => Some(Platform::SunMicrosystems),
            _ => None,
        }
    }

    /// Returns the four-byte code of this value.
    pub fn to_u32(&self) -> (code: u32)
        ensures
            code == self.code(),
    {
        match self {
            Platform::Apple => 0x4150504C,
            Platform::Microsoft => 0x4D534654,
            Platform::SiliconGraphics => 0x53474920,
            Platform::SunMicrosystems => 0x53554E57,
        }
    }

    /// Every value's code decodes back to that value.
    pub proof fn lemma_from_code_of_code(value: Platform)
        ensures
            Platform::from_code(value.code()) == Some(value),
    {
    }

    /// A code that decodes to a value is that value's code.
    pub proof fn lemma_code_of_from_code(code: u32)
        ensures
            Platform::from_code(code) matches Some(value) ==> value.code() == code,
    {
    }
}

impl Platform {
    /// The name of the variant, as text.
    pub open spec fn name(self) -> Seq<char> {
        match self {
            Platform::Apple => "Apple"@,
            Platform::Microsoft => "Microsoft"@,
            Platform::SiliconGraphics => "SiliconGraphics"@,
            Platform::SunMicrosystems => "SunMicrosystems"@,
        }
    }

    /// The name of the variant, e.g. for a text dump of a profile.
    pub fn to_string(&self) -> (s: String)
        ensures
            s@ == self.name(),
    {
        match self {
            Platform::Apple => <String as vstd::string::StringExecFns>::from_str("Apple"),
            Platform::Microsoft => <String as vstd::string::StringExecFns>::from_str("Microsoft"),
            Platform::SiliconGraphics => <String as vstd::string::StringExecFns>::from_str("SiliconGraphics"),
            Platform::SunMicrosystems => <String as vstd::string::StringExecFns>::from_str("SunMicrosystems"),
        }
    }
}

impl Platform {
    /// The four characters of the ICC name of a value, as the ICC specification
    /// writes them; `None` for a value without one.
    pub open spec fn icc_name(self) -> Option<(char, char, char, char)> {
        match self {
            Platform::Apple => Some(('A', 'P', 'P', 'L')),
            Platform::Microsoft => Some(('M', 'S', 'F', 'T')),
            Platform::SiliconGraphics => Some(('S', 'G', 'I', ' ')),
            Platform::SunMicrosystems => Some(('S', 'U', 'N', 'W')),
        }
    }

    /// Each value with an ICC name is written as the big-endian code of the four
    /// characters of that name, and that code is read back as the same value.
    pub proof fn law_codes_are_icc_names(value: Platform)
        ensures
            value.icc_name() matches Some(n) ==> value.code() == crate::signatures::fourcc(n),
            value.icc_name() matches Some(n) ==> Platform::from_code(crate::signatures::fourcc(n)) == Some(value),
    {
    }
}

} // verus!
