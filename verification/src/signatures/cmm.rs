use vstd::prelude::*;

verus! {

/// Color Management Modules, identified by the four-byte signature that an ICC
/// header carries in its `cmm` field.
#[derive(Debug, Clone, Copy, PartialEq, Eq, Structural)]
pub enum Cmm {
    Adobe,  // 'ADBE'
    Agfa,  // 'ACMS'
    Apple,  // 'appl'
    ColorGear,  // 'CCMS'
    ColorGearLite,  // 'UCCM'
    ColorGearC,  // 'UCMS'
    EFI,  // 'EFI '
    ExactScan,  // 'EXAC'
    FujiFilm,  // 'FF  '
    HarlequinRIP,  // 'HCMM'
    ArgyllCMS,  // 'argl'
    Lino,  // 'Lino'
    LogoSync,  // 'DgoS'
    Heidelberg,  // 'HDM '
    LittleCMS,  // 'lcms'
    Kodak,  // 'KCMS'
    KonicaMinolta,  // 'MCMD'
    WindowsCMS,  // 'WCS '
    Mutoh,  // 'SIGN'
    OnyxGraphics,  // 'ONYX'
    RefIccMAX,  // 'RICC'
    DemoIccMAX,  // 'DIMX'
    RolfGierling,  // 'RGMS'
    SampleICC,  // 'SICC'
    Toshiba,  // 'TCMM'
    TheImagingFactory,  // '32BT'
    Vivo,  // 'vivo'
    WareToGo,  // 'WTG '
    Zoran,  // 'zc00'
}

impl Cmm {
    /// The four-byte code of this value.
    pub open spec fn code(self) -> u32 {
        match self {
            Cmm::Adobe => 0x41444245,
            Cmm::Agfa => 0x41434D53,
            Cmm::Apple => 0x6170706C,
            Cmm::ColorGear => 0x43434D53,
            Cmm::ColorGearLite => 0x5543434D,
            Cmm::ColorGearC => 0x55434D53,
            Cmm::EFI => 0x45464920,
            Cmm::ExactScan => 0x45584143,
            Cmm::FujiFilm => 0x46462020,
            Cmm::HarlequinRIP => 0x48434D4D,
            Cmm::ArgyllCMS => 0x6172676C,
            Cmm::Lino => 0x4C696E6F,
            Cmm::LogoSync => 0x44676F53,
            Cmm::Heidelberg => 0x48444D20,
            Cmm::LittleCMS => 0x6C636D73,
            Cmm::Kodak => 0x4B434D53,
            Cmm::KonicaMinolta => 0x4D434D44,
            Cmm::WindowsCMS => 0x57435320,
            Cmm::Mutoh => 0x5349474E,
            Cmm::OnyxGraphics => 0x4F4E5958,
            Cmm::RefIccMAX => 0x52494343,
            Cmm::DemoIccMAX => 0x44494D58,
            Cmm::RolfGierling => 0x52474D53,
            Cmm::SampleICC => 0x53494343,
            Cmm::Toshiba => 0x54434D4D,
            Cmm::TheImagingFactory => 0x33324254,
            Cmm::Vivo => 0x7669766F,
            Cmm::WareToGo => 0x57544720,
            Cmm::Zoran => 0x7A633030,
        }
    }

    /// The value that a four-byte code stands for, if any.
    pub open spec fn from_code(code: u32) -> Option<Cmm> {
        match code {
            0x41444245 => Some(Cmm::Adobe),
            0x41434D53 => Some(Cmm::Agfa),
            0x6170706C => Some(Cmm::Apple),
            0x43434D53 => Some(Cmm::ColorGear),
            0x5543434D => Some(Cmm::ColorGearLite),
            0x55434D53 => Some(Cmm::ColorGearC),
            0x45464920 => Some(Cmm::EFI),
            0x45584143 => Some(Cmm::ExactScan),
            0x46462020 => Some(Cmm::FujiFilm),
            0x48434D4D => Some(Cmm::HarlequinRIP),
            0x6172676C => Some(Cmm::ArgyllCMS),
            0x4C696E6F => Some(Cmm::Lino),
            0x44676F53 => Some(Cmm::LogoSync),
            0x48444D20 => Some(Cmm::Heidelberg),
            0x6C636D73 => Some(Cmm::LittleCMS),
            0x4B434D53 => Some(Cmm::Kodak),
            0x4D434D44 => Some(Cmm::KonicaMinolta),
            0x57435320 => Some(Cmm::WindowsCMS),
            0x5349474E => Some(Cmm::Mutoh),
            0x4F4E5958 => Some(Cmm::OnyxGraphics),
            0x52494343 => Some(Cmm::RefIccMAX),
            0x44494D58 => Some(Cmm::DemoIccMAX),
            0x52474D53 => Some(Cmm::RolfGierling),
            0x53494343 => Some(Cmm::SampleICC),
            0x54434D4D => Some(Cmm::Toshiba),
            0x33324254 => Some(Cmm::TheImagingFactory),
            0x7669766F => Some(Cmm::Vivo),
            0x57544720 => Some(Cmm::WareToGo),
            0x7A633030 => Some(Cmm::Zoran),
            _ => None,
        }
    }

    /// Decodes a four-byte code; `None` when no value has that code.
    pub fn from_u32(code: u32) -> (res: Option<Cmm>)
        ensures
            res == Cmm::from_code(code),
    {
        match code {
            0x41444245 => Some(Cmm::Adobe),
            0x41434D53 => Some(Cmm::Agfa),
            0x6170706C => Some(Cmm::Apple),
            0x43434D53 => Some(Cmm::ColorGear),
            0x5543434D => Some(Cmm::ColorGearLite),
            0x55434D53 => Some(Cmm::ColorGearC),
            0x45464920 => Some(Cmm::EFI),
            0x45584143 => Some(Cmm::ExactScan),
            0x46462020 => Some(Cmm::FujiFilm),
            0x48434D4D => Some(Cmm::HarlequinRIP),
            0x6172676C => Some(Cmm::ArgyllCMS),
            0x4C696E6F => Some(Cmm::Lino),
            0x44676F53 => Some(Cmm::LogoSync),
            0x48444D20 => Some(Cmm::Heidelberg),
            0x6C636D73 => Some(Cmm::LittleCMS),
            0x4B434D53 => Some(Cmm::Kodak),
            0x4D434D44 => Some(Cmm::KonicaMinolta),
            0x57435320 => Some(Cmm::WindowsCMS),
            0x5349474E => Some(Cmm::Mutoh),
            0x4F4E5958 => Some(Cmm::OnyxGraphics),
            0x52494343 => Some(Cmm::RefIccMAX),
            0x44494D58 => Some(Cmm::DemoIccMAX),
            0x52474D53 => Some(Cmm::RolfGierling),
            0x53494343 => Some(Cmm::SampleICC),
            0x54434D4D => Some(Cmm::Toshiba),
            0x33324254 => Some(Cmm::TheImagingFactory),
            0x7669766F => Some(Cmm::Vivo),
            0x57544720 => Some(Cmm::WareToGo),
            0x7A633030 => Some(Cmm::Zoran),
            _ => None,
        }
    }

    /// Returns the four-byte code of this value.
    pub fn to_u32(&self) -> (code: u32)
        ensures
            code == self.code(),
    {
        match self {
            Cmm::Adobe => 0x41444245,
            Cmm::Agfa => 0x41434D53,
            Cmm::Apple => 0x6170706C,
            Cmm::ColorGear => 0x43434D53,
            Cmm::ColorGearLite => 0x5543434D,
            Cmm::ColorGearC => 0x55434D53,
            Cmm::EFI => 0x45464920,
            Cmm::ExactScan => 0x45584143,
            Cmm::FujiFilm => 0x46462020,
            Cmm::HarlequinRIP => 0x48434D4D,
            Cmm::ArgyllCMS => 0x6172676C,
            Cmm::Lino => 0x4C696E6F,
            Cmm::LogoSync => 0x44676F53,
            Cmm::Heidelberg => 0x48444D20,
            Cmm::LittleCMS => 0x6C636D73,
            Cmm::Kodak => 0x4B434D53,
            Cmm::KonicaMinolta => 0x4D434D44,
            Cmm::WindowsCMS => 0x57435320,
            Cmm::Mutoh => 0x5349474E,
            Cmm::OnyxGraphics => 0x4F4E5958,
            Cmm::RefIccMAX => 0x52494343,
            Cmm::DemoIccMAX => 0x44494D58,
            Cmm::RolfGierling => 0x52474D53,
            Cmm::SampleICC => 0x53494343,
            Cmm::Toshiba => 0x54434D4D,
            Cmm::TheImagingFactory => 0x33324254,
            Cmm::Vivo => 0x7669766F,
            Cmm::WareToGo => 0x57544720,
            Cmm::Zoran => 0x7A633030,
        }
    }

    /// Every value's code decodes back to that value.
    pub proof fn lemma_from_code_of_code(value: Cmm)
        ensures
            Cmm::from_code(value.code()) == Some(value),
    {
    }

    /// A code that decodes to a value is that value's code.
    pub proof fn lemma_code_of_from_code(code: u32)
        ensures
            Cmm::from_code(code) matches Some(value) ==> value.code() == code,
    {
    }
}

impl Cmm {
    /// The name of the variant, as text.
    pub open spec fn name(self) -> Seq<char> {
        match self {
            Cmm::Adobe => "Adobe"@,
            Cmm::Agfa => "Agfa"@,
            Cmm::Apple => "Apple"@,
            Cmm::ColorGear => "ColorGear"@,
            Cmm::ColorGearLite => "ColorGearLite"@,
            Cmm::ColorGearC => "ColorGearC"@,
            Cmm::EFI => "EFI"@,
            Cmm::ExactScan => "ExactScan"@,
            Cmm::FujiFilm => "FujiFilm"@,
            Cmm::HarlequinRIP => "HarlequinRIP"@,
            Cmm::ArgyllCMS => "ArgyllCMS"@,
            Cmm::Lino => "Lino"@,
            Cmm::LogoSync => "LogoSync"@,
            Cmm::Heidelberg => "Heidelberg"@,
            Cmm::LittleCMS => "LittleCMS"@,
            Cmm::Kodak => "Kodak"@,
            Cmm::KonicaMinolta => "KonicaMinolta"@,
            Cmm::WindowsCMS => "WindowsCMS"@,
            Cmm::Mutoh => "Mutoh"@,
            Cmm::OnyxGraphics => "OnyxGraphics"@,
            Cmm::RefIccMAX => "RefIccMAX"@,
            Cmm::DemoIccMAX => "DemoIccMAX"@,
            Cmm::RolfGierling => "RolfGierling"@,
            Cmm::SampleICC => "SampleICC"@,
            Cmm::Toshiba => "Toshiba"@,
            Cmm::TheImagingFactory => "TheImagingFactory"@,
            Cmm::Vivo => "Vivo"@,
            Cmm::WareToGo => "WareToGo"@,
            Cmm::Zoran => "Zoran"@,
        }
    }

    /// The name of the variant, e.g. for a text dump of a profile.
    pub fn to_string(&self) -> (s: String)
        ensures
            s@ == self.name(),
    {
        match self {
            Cmm::Adobe => <String as vstd::string::StringExecFns>::from_str("Adobe"),
            Cmm::Agfa => <String as vstd::string::StringExecFns>::from_str("Agfa"),
            Cmm::Apple => <String as vstd::string::StringExecFns>::from_str("Apple"),
            Cmm::ColorGear => <String as vstd::string::StringExecFns>::from_str("ColorGear"),
            Cmm::ColorGearLite => <String as vstd::string::StringExecFns>::from_str("ColorGearLite"),
            Cmm::ColorGearC => <String as vstd::string::StringExecFns>::from_str("ColorGearC"),
            Cmm::EFI => <String as vstd::string::StringExecFns>::from_str("EFI"),
            Cmm::ExactScan => <String as vstd::string::StringExecFns>::from_str("ExactScan"),
            Cmm::FujiFilm => <String as vstd::string::StringExecFns>::from_str("FujiFilm"),
            Cmm::HarlequinRIP => <String as vstd::string::StringExecFns>::from_str("HarlequinRIP"),
            Cmm::ArgyllCMS => <String as vstd::string::StringExecFns>::from_str("ArgyllCMS"),
            Cmm::Lino => <String as vstd::string::StringExecFns>::from_str("Lino"),
            Cmm::LogoSync => <String as vstd::string::StringExecFns>::from_str("LogoSync"),
            Cmm::Heidelberg => <String as vstd::string::StringExecFns>::from_str("Heidelberg"),
            Cmm::LittleCMS => <String as vstd::string::StringExecFns>::from_str("LittleCMS"),
            Cmm::Kodak => <String as vstd::string::StringExecFns>::from_str("Kodak"),
            Cmm::KonicaMinolta => <String as vstd::string::StringExecFns>::from_str("KonicaMinolta"),
            Cmm::WindowsCMS => <String as vstd::string::StringExecFns>::from_str("WindowsCMS"),
            Cmm::Mutoh => <String as vstd::string::StringExecFns>::from_str("Mutoh"),
            Cmm::OnyxGraphics => <String as vstd::string::StringExecFns>::from_str("OnyxGraphics"),
            Cmm::RefIccMAX => <String as vstd::string::StringExecFns>::from_str("RefIccMAX"),
            Cmm::DemoIccMAX => <String as vstd::string::StringExecFns>::from_str("DemoIccMAX"),
            Cmm::RolfGierling => <String as vstd::string::StringExecFns>::from_str("RolfGierling"),
            Cmm::SampleICC => <String as vstd::string::StringExecFns>::from_str("SampleICC"),
            Cmm::Toshiba => <String as vstd::string::StringExecFns>::from_str("Toshiba"),
            Cmm::TheImagingFactory => <String as vstd::string::StringExecFns>::from_str("TheImagingFactory"),
            Cmm::Vivo => <String as vstd::string::StringExecFns>::from_str("Vivo"),
            Cmm::WareToGo => <String as vstd::string::StringExecFns>::from_str("WareToGo"),
            Cmm::Zoran => <String as vstd::string::StringExecFns>::from_str("Zoran"),
        }
    }
}

impl Cmm {
    /// The four characters of the ICC name of a value, as the ICC specification
    /// writes them; `None` for a value without one.
    pub open spec fn icc_name(self) -> Option<(char, char, char, char)> {
        match self {
            Cmm::Adobe => Some(('A', 'D', 'B', 'E')),
            Cmm::Agfa => Some(('A', 'C', 'M', 'S')),
            Cmm::Apple => Some(('a', 'p', 'p', 'l')),
            Cmm::ColorGear => Some(('C', 'C', 'M', 'S')),
            Cmm::ColorGearLite => Some(('U', 'C', 'C', 'M')),
            Cmm::ColorGearC => Some(('U', 'C', 'M', 'S')),
            Cmm::EFI => Some(('E', 'F', 'I', ' ')),
            Cmm::ExactScan => Some(('E', 'X', 'A', 'C')),
            Cmm::FujiFilm => Some(('F', 'F', ' ', ' ')),
            Cmm::HarlequinRIP => Some(('H', 'C', 'M', 'M')),
            Cmm::ArgyllCMS => Some(('a', 'r', 'g', 'l')),
            Cmm::Lino => Some(('L', 'i', 'n', 'o')),
            Cmm::LogoSync => Some(('D', 'g', 'o', 'S')),
            Cmm::Heidelberg => Some(('H', 'D', 'M', ' ')),
            Cmm::LittleCMS => Some(('l', 'c', 'm', 's')),
            Cmm::Kodak => Some(('K', 'C', 'M', 'S')),
            Cmm::KonicaMinolta => Some(('M', 'C', 'M', 'D')),
            Cmm::WindowsCMS => Some(('W', 'C', 'S', ' ')),
            Cmm::Mutoh => Some(('S', 'I', 'G', 'N')),
            Cmm::OnyxGraphics => Some(('O', 'N', 'Y', 'X')),
            Cmm::RefIccMAX => Some(('R', 'I', 'C', 'C')),
            Cmm::DemoIccMAX => Some(('D', 'I', 'M', 'X')),
            Cmm::RolfGierling => Some(('R', 'G', 'M', 'S')),
            Cmm::SampleICC => Some(('S', 'I', 'C', 'C')),
            Cmm::Toshiba => Some(('T', 'C', 'M', 'M')),
            Cmm::TheImagingFactory => Some(('3', '2', 'B', 'T')),
            Cmm::Vivo => Some(('v', 'i', 'v', 'o')),
            Cmm::WareToGo => Some(('W', 'T', 'G', ' ')),
            Cmm::Zoran => Some(('z', 'c', '0', '0')),
        }
    }

    /// Each value with an ICC name is written as the big-endian code of the four
    /// characters of that name, and that code is read back as the same value.
    pub proof fn law_codes_are_icc_names(value: Cmm)
        ensures
            value.icc_name() matches Some(n) ==> value.code() == crate::signatures::fourcc(n),
            value.icc_name() matches Some(n) ==> Cmm::from_code(crate::signatures::fourcc(n)) == Some(value),
    {
    }
}

} // verus!
