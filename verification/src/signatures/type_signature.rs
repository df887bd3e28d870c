use vstd::prelude::*;

use crate::bytes::{be_u32_at, read_u32_be};
use crate::error::{Error, ParseError};
use crate::signatures::{code_hex_string, hex8_text};
use crate::text::{hex_u32_of, parse_hex_u32};

verus! {

/// ICC type signatures, naming the type of data stored in a tag data block.
/// Unknown or vendor-specific type signatures are kept in `Unknown`.
#[derive(Debug, Clone, Copy, PartialEq, Eq, Hash, Structural)]
pub enum TypeSignature {
    UndefinedType,
    ChromaticityType,  // 'chrm'
    ColorantOrderType,  // 'clro'
    ColorantTableType,  // 'clrt'
    CrdInfoType,  // 'crdi'
    CurveType,  // 'curv'
    DataType,  // 'data'
    DictType,  // 'dict'
    DateTimeType,  // 'dtim'
    DeviceSettingsType,  // 'devs'
    EmbeddedHeightImageType,  // 'ehim'
    EmbeddedNormalImageType,  // 'enim'
    Float16ArrayType,  // 'fl16'
    Float32ArrayType,  // 'fl32'
    Float64ArrayType,  // 'fl64'
    GamutBoundaryDescType,  // 'gbd '
    Lut16Type,  // 'mft2'
    Lut8Type,  // 'mft1'
    LutAtoBType,  // 'mAB '
    LutBtoAType,  // 'mBA '
    MeasurementType,  // 'meas'
    MakeAndModelType,  // 'mmod'
    MultiLocalizedUnicodeType,  // 'mluc'
    MultiProcessElementType,  // 'mpet'
    NamedColor2Type,  // 'ncl2'
    NativeDisplayInfoType,  // 'ndin'
    ParametricCurveType,  // 'para'
    ProfileSequenceDescType,  // 'pseq'
    ProfileSequceIdType,  // 'psid'
    ResponseCurveSet16Type,  // 'rcs2'
    S15Fixed16ArrayType,  // 'sf32'
    ScreeningType,  // 'scrn'
    SegmentedCurveType,  // 'curf'
    SignatureType,  // 'sig '
    SparseMatrixArrayType,  // 'smat'
    SpectralViewingConditionsType,  // 'svcn'
    SpectralDataInfoType,  // 'sdin'
    TagArrayType,  // 'tary'
    TagStructType,  // 'tstr'
    TextType,  // 'text'
    TextDescriptionType,  // 'desc'
    U16Fixed16ArrayType,  // 'uf32'
    UcrBgType,  // 'bfd '
    UInt16ArrayType,  // 'ui16'
    UInt32ArrayType,  // 'ui32'
    UInt64ArrayType,  // 'ui64'
    UInt8ArrayType,  // 'ui08'
    ViewingConditionsType,  // 'view'
    VcgpType,  // 'vcgp'
    VcgtType,  // 'vcgt'
    Utf8TextType,  // 'utf8'
    Utf16TextType,  // 'ut16'
    XYZArrayType,  // 'XYZ '
    ZipUtf8TextType,  // 'zut8'
    ZipXmlType,  // 'ZXML'
    EmbeddedProfileType,  // 'ICCp'
    /// A type signature that no named variant stands for.
    Unknown(u32),
}

impl TypeSignature {
    /// The four-byte code of this signature.
    pub open spec fn code(self) -> u32 {
        match self {
            TypeSignature::UndefinedType => 0x00000000,
            TypeSignature::ChromaticityType => 0x6368726D,
            TypeSignature::ColorantOrderType => 0x636C726F,
            TypeSignature::ColorantTableType => 0x636C7274,
            TypeSignature::CrdInfoType => 0x63726469,
            TypeSignature::CurveType => 0x63757276,
            TypeSignature::DataType => 0x64617461,
            TypeSignature::DictType => 0x64696374,
            TypeSignature::DateTimeType => 0x6474696D,
            TypeSignature::DeviceSettingsType => 0x64657673,
            TypeSignature::EmbeddedHeightImageType => 0x6568696D,
            TypeSignature::EmbeddedNormalImageType => 0x656E696D,
            TypeSignature::Float16ArrayType => 0x666C3136,
            TypeSignature::Float32ArrayType => 0x666C3332,
            TypeSignature::Float64ArrayType => 0x666C3634,
            TypeSignature::GamutBoundaryDescType => 0x67626420,
            TypeSignature::Lut16Type => 0x6D667432,
            TypeSignature::Lut8Type => 0x6D667431,
            TypeSignature::LutAtoBType => 0x6D414220,
            TypeSignature::LutBtoAType => 0x6D424120,
            TypeSignature::MeasurementType => 0x6D656173,
            TypeSignature::MakeAndModelType => 0x6D6D6F64,
            TypeSignature::MultiLocalizedUnicodeType => 0x6D6C7563,
            TypeSignature::MultiProcessElementType => 0x6D706574,
            TypeSignature::NamedColor2Type => 0x6E636C32,
            TypeSignature::NativeDisplayInfoType => 0x6E64696E,
            TypeSignature::ParametricCurveType => 0x70617261,
            TypeSignature::ProfileSequenceDescType => 0x70736571,
            TypeSignature::ProfileSequceIdType => 0x70736964,
            TypeSignature::ResponseCurveSet16Type => 0x72637332,
            TypeSignature::S15Fixed16ArrayType => 0x73663332,
            TypeSignature::ScreeningType => 0x7363726E,
            TypeSignature::SegmentedCurveType => 0x63757266,
            TypeSignature::SignatureType => 0x73696720,
            TypeSignature::SparseMatrixArrayType => 0x736D6174,
            TypeSignature::SpectralViewingConditionsType => 0x7376636E,
            TypeSignature::SpectralDataInfoType => 0x7364696E,
            TypeSignature::TagArrayType => 0x74617279,
            TypeSignature::TagStructType => 0x74737472,
            TypeSignature::TextType => 0x74657874,
            TypeSignature::TextDescriptionType => 0x64657363,
            TypeSignature::U16Fixed16ArrayType => 0x75663332,
            TypeSignature::UcrBgType => 0x62666420,
            TypeSignature::UInt16ArrayType => 0x75693136,
            TypeSignature::UInt32ArrayType => 0x75693332,
            TypeSignature::UInt64ArrayType => 0x75693634,
            TypeSignature::UInt8ArrayType => 0x75693038,
            TypeSignature::ViewingConditionsType => 0x76696577,
            TypeSignature::VcgpType => 0x76636770,
            TypeSignature::VcgtType => 0x76636774,
            TypeSignature::Utf8TextType => 0x75746638,
            TypeSignature::Utf16TextType => 0x75743136,
            TypeSignature::XYZArrayType => 0x58595A20,
            TypeSignature::ZipUtf8TextType => 0x7A757438,
            TypeSignature::ZipXmlType => 0x5A584D4C,
            TypeSignature::EmbeddedProfileType => 0x49434370,
            TypeSignature::Unknown(value) => value,
        }
    }

    /// The signature that a four-byte code stands for.
    pub open spec fn from_code(code: u32) -> TypeSignature {
        match code {
            0x00000000 => TypeSignature::UndefinedType,
            0x6368726D => TypeSignature::ChromaticityType,
            0x636C726F => TypeSignature::ColorantOrderType,
            0x636C7274 => TypeSignature::ColorantTableType,
            0x63726469 => TypeSignature::CrdInfoType,
            0x63757276 => TypeSignature::CurveType,
            0x64617461 => TypeSignature::DataType,
            0x64696374 => TypeSignature::DictType,
            0x6474696D => TypeSignature::DateTimeType,
            0x64657673 => TypeSignature::DeviceSettingsType,
            0x6568696D => TypeSignature::EmbeddedHeightImageType,
            0x656E696D => TypeSignature::EmbeddedNormalImageType,
            0x666C3136 => TypeSignature::Float16ArrayType,
            0x666C3332 => TypeSignature::Float32ArrayType,
            0x666C3634 => TypeSignature::Float64ArrayType,
            0x67626420 => TypeSignature::GamutBoundaryDescType,
            0x6D667432 => TypeSignature::Lut16Type,
            0x6D667431 => TypeSignature::Lut8Type,
            0x6D414220 => TypeSignature::LutAtoBType,
            0x6D424120 => TypeSignature::LutBtoAType,
            0x6D656173 => TypeSignature::MeasurementType,
            0x6D6D6F64 => TypeSignature::MakeAndModelType,
            0x6D6C7563 => TypeSignature::MultiLocalizedUnicodeType,
            0x6D706574 => TypeSignature::MultiProcessElementType,
            0x6E636C32 => TypeSignature::NamedColor2Type,
            0x6E64696E => TypeSignature::NativeDisplayInfoType,
            0x70617261 => TypeSignature::ParametricCurveType,
            0x70736571 => TypeSignature::ProfileSequenceDescType,
            0x70736964 => TypeSignature::ProfileSequceIdType,
            0x72637332 => TypeSignature::ResponseCurveSet16Type,
            0x73663332 => TypeSignature::S15Fixed16ArrayType,
            0x7363726E => TypeSignature::ScreeningType,
            0x63757266 => TypeSignature::SegmentedCurveType,
            0x73696720 => TypeSignature::SignatureType,
            0x736D6174 => TypeSignature::SparseMatrixArrayType,
            0x7376636E => TypeSignature::SpectralViewingConditionsType,
            0x7364696E => TypeSignature::SpectralDataInfoType,
            0x74617279 => TypeSignature::TagArrayType,
            0x74737472 => TypeSignature::TagStructType,
            0x74657874 => TypeSignature::TextType,
            0x64657363 => TypeSignature::TextDescriptionType,
            0x75663332 => TypeSignature::U16Fixed16ArrayType,
            0x62666420 => TypeSignature::UcrBgType,
            0x75693136 => TypeSignature::UInt16ArrayType,
            0x75693332 => TypeSignature::UInt32ArrayType,
            0x75693634 => TypeSignature::UInt64ArrayType,
            0x75693038 => TypeSignature::UInt8ArrayType,
            0x76696577 => TypeSignature::ViewingConditionsType,
            0x76636770 => TypeSignature::VcgpType,
            0x76636774 => TypeSignature::VcgtType,
            0x75746638 => TypeSignature::Utf8TextType,
            0x75743136 => TypeSignature::Utf16TextType,
            0x58595A20 => TypeSignature::XYZArrayType,
            0x7A757438 => TypeSignature::ZipUtf8TextType,
            0x5A584D4C => TypeSignature::ZipXmlType,
            0x49434370 => TypeSignature::EmbeddedProfileType,
            other => TypeSignature::Unknown(other),
        }
    }

    /// Decodes a four-byte type code.
    pub fn from_u32(tag: u32) -> (sig: TypeSignature)
        ensures
            sig == TypeSignature::from_code(tag),
    {
        match tag {
            0x00000000 => TypeSignature::UndefinedType,
            0x6368726D => TypeSignature::ChromaticityType,
            0x636C726F => TypeSignature::ColorantOrderType,
            0x636C7274 => TypeSignature::ColorantTableType,
            0x63726469 => TypeSignature::CrdInfoType,
            0x63757276 => TypeSignature::CurveType,
            0x64617461 => TypeSignature::DataType,
            0x64696374 => TypeSignature::DictType,
            0x6474696D => TypeSignature::DateTimeType,
            0x64657673 => TypeSignature::DeviceSettingsType,
            0x6568696D => TypeSignature::EmbeddedHeightImageType,
            0x656E696D => TypeSignature::EmbeddedNormalImageType,
            0x666C3136 => TypeSignature::Float16ArrayType,
            0x666C3332 => TypeSignature::Float32ArrayType,
            0x666C3634 => TypeSignature::Float64ArrayType,
            0x67626420 => TypeSignature::GamutBoundaryDescType,
            0x6D667432 => TypeSignature::Lut16Type,
            0x6D667431 => TypeSignature::Lut8Type,
            0x6D414220 => TypeSignature::LutAtoBType,
            0x6D424120 => TypeSignature::LutBtoAType,
            0x6D656173 => TypeSignature::MeasurementType,
            0x6D6D6F64 => TypeSignature::MakeAndModelType,
            0x6D6C7563 => TypeSignature::MultiLocalizedUnicodeType,
            0x6D706574 => TypeSignature::MultiProcessElementType,
            0x6E636C32 => TypeSignature::NamedColor2Type,
            0x6E64696E => TypeSignature::NativeDisplayInfoType,
            0x70617261 => TypeSignature::ParametricCurveType,
            0x70736571 => TypeSignature::ProfileSequenceDescType,
            0x70736964 => TypeSignature::ProfileSequceIdType,
            0x72637332 => TypeSignature::ResponseCurveSet16Type,
            0x73663332 => TypeSignature::S15Fixed16ArrayType,
            0x7363726E => TypeSignature::ScreeningType,
            0x63757266 => TypeSignature::SegmentedCurveType,
            0x73696720 => TypeSignature::SignatureType,
            0x736D6174 => TypeSignature::SparseMatrixArrayType,
            0x7376636E => TypeSignature::SpectralViewingConditionsType,
            0x7364696E => TypeSignature::SpectralDataInfoType,
            0x74617279 => TypeSignature::TagArrayType,
            0x74737472 => TypeSignature::TagStructType,
            0x74657874 => TypeSignature::TextType,
            0x64657363 => TypeSignature::TextDescriptionType,
            0x75663332 => TypeSignature::U16Fixed16ArrayType,
            0x62666420 => TypeSignature::UcrBgType,
            0x75693136 => TypeSignature::UInt16ArrayType,
            0x75693332 => TypeSignature::UInt32ArrayType,
            0x75693634 => TypeSignature::UInt64ArrayType,
            0x75693038 => TypeSignature::UInt8ArrayType,
            0x76696577 => TypeSignature::ViewingConditionsType,
            0x76636770 => TypeSignature::VcgpType,
            0x76636774 => TypeSignature::VcgtType,
            0x75746638 => TypeSignature::Utf8TextType,
            0x75743136 => TypeSignature::Utf16TextType,
            0x58595A20 => TypeSignature::XYZArrayType,
            0x7A757438 => TypeSignature::ZipUtf8TextType,
            0x5A584D4C => TypeSignature::ZipXmlType,
            0x49434370 => TypeSignature::EmbeddedProfileType,
            other => TypeSignature::Unknown(other),
        }
    }

    /// Returns the four-byte code of this signature.
    pub fn to_u32(self) -> (code: u32)
        ensures
            code == self.code(),
    {
        match self {
            TypeSignature::UndefinedType => 0x00000000,
            TypeSignature::ChromaticityType => 0x6368726D,
            TypeSignature::ColorantOrderType => 0x636C726F,
            TypeSignature::ColorantTableType => 0x636C7274,
            TypeSignature::CrdInfoType => 0x63726469,
            TypeSignature::CurveType => 0x63757276,
            TypeSignature::DataType => 0x64617461,
            TypeSignature::DictType => 0x64696374,
            TypeSignature::DateTimeType => 0x6474696D,
            TypeSignature::DeviceSettingsType => 0x64657673,
            TypeSignature::EmbeddedHeightImageType => 0x6568696D,
            TypeSignature::EmbeddedNormalImageType => 0x656E696D,
            TypeSignature::Float16ArrayType => 0x666C3136,
            TypeSignature::Float32ArrayType => 0x666C3332,
            TypeSignature::Float64ArrayType => 0x666C3634,
            TypeSignature::GamutBoundaryDescType => 0x67626420,
            TypeSignature::Lut16Type => 0x6D667432,
            TypeSignature::Lut8Type => 0x6D667431,
            TypeSignature::LutAtoBType => 0x6D414220,
            TypeSignature::LutBtoAType => 0x6D424120,
            TypeSignature::MeasurementType => 0x6D656173,
            TypeSignature::MakeAndModelType => 0x6D6D6F64,
            TypeSignature::MultiLocalizedUnicodeType => 0x6D6C7563,
            TypeSignature::MultiProcessElementType => 0x6D706574,
            TypeSignature::NamedColor2Type => 0x6E636C32,
            TypeSignature::NativeDisplayInfoType => 0x6E64696E,
            TypeSignature::ParametricCurveType => 0x70617261,
            TypeSignature::ProfileSequenceDescType => 0x70736571,
            TypeSignature::ProfileSequceIdType => 0x70736964,
            TypeSignature::ResponseCurveSet16Type => 0x72637332,
            TypeSignature::S15Fixed16ArrayType => 0x73663332,
            TypeSignature::ScreeningType => 0x7363726E,
            TypeSignature::SegmentedCurveType => 0x63757266,
            TypeSignature::SignatureType => 0x73696720,
            TypeSignature::SparseMatrixArrayType => 0x736D6174,
            TypeSignature::SpectralViewingConditionsType => 0x7376636E,
            TypeSignature::SpectralDataInfoType => 0x7364696E,
            TypeSignature::TagArrayType => 0x74617279,
            TypeSignature::TagStructType => 0x74737472,
            TypeSignature::TextType => 0x74657874,
            TypeSignature::TextDescriptionType => 0x64657363,
            TypeSignature::U16Fixed16ArrayType => 0x75663332,
            TypeSignature::UcrBgType => 0x62666420,
            TypeSignature::UInt16ArrayType => 0x75693136,
            TypeSignature::UInt32ArrayType => 0x75693332,
            TypeSignature::UInt64ArrayType => 0x75693634,
            TypeSignature::UInt8ArrayType => 0x75693038,
            TypeSignature::ViewingConditionsType => 0x76696577,
            TypeSignature::VcgpType => 0x76636770,
            TypeSignature::VcgtType => 0x76636774,
            TypeSignature::Utf8TextType => 0x75746638,
            TypeSignature::Utf16TextType => 0x75743136,
            TypeSignature::XYZArrayType => 0x58595A20,
            TypeSignature::ZipUtf8TextType => 0x7A757438,
            TypeSignature::ZipXmlType => 0x5A584D4C,
            TypeSignature::EmbeddedProfileType => 0x49434370,
            TypeSignature::Unknown(value) => value,
        }
    }

    /// Decoding a code and encoding the result gives the code back, for every code.
    pub proof fn lemma_code_of_from_code(code: u32)
        ensures
            TypeSignature::from_code(code).code() == code,
    {
    }

    /// Encoding a named signature and decoding the code gives the signature back.
    pub proof fn lemma_from_code_of_code(sig: TypeSignature)
        requires
            !(sig is Unknown),
        ensures
            TypeSignature::from_code(sig.code()) == sig,
    {
    }
}

impl TypeSignature {
    /// The code as eight uppercase hexadecimal digits.
    pub fn to_string(&self) -> (s: String)
        ensures
            s@ == hex8_text(self.code()),
    {
        code_hex_string(self.to_u32())
    }
}

impl From<[u8; 4]> for TypeSignature {
    /// The type signature that four big-endian bytes hold.
    fn from(bytes: [u8; 4]) -> (sig: TypeSignature) {
        TypeSignature::from_u32(read_u32_be(bytes.as_slice(), 0))
    }
}

impl vstd::std_specs::convert::FromSpecImpl<[u8; 4]> for TypeSignature {
    open spec fn obeys_from_spec() -> bool {
        true
    }

    open spec fn from_spec(bytes: [u8; 4]) -> TypeSignature {
        TypeSignature::from_code(be_u32_at(bytes@, 0))
    }
}

/// What parsing hexadecimal text gives: the type signature of its value, or a
/// parse error carrying the message of why the text is not a number.
pub open spec fn type_signature_of_text(t: Seq<char>) -> Result<TypeSignature, Seq<char>> {
    match hex_u32_of(t) {
        Ok(v) => Ok(TypeSignature::from_code(v)),
        Err(e) => Err(e.message()),
    }
}

impl TypeSignature {
    /// Parses the code from hexadecimal text, e.g. `6368726D` for `chrm`.
    pub fn from_hex_text(s: &str) -> (r: Result<TypeSignature, Error>)
        ensures
            match type_signature_of_text(s@) {
                Ok(t) => r == Ok::<TypeSignature, Error>(t),
                Err(m) => r matches Err(Error::ParseError(e)) && e.0@ == m,
            },
    {
        match parse_hex_u32(s) {
            Ok(v) => Ok(TypeSignature::from_u32(v)),
            Err(e) => Err(Error::ParseError(ParseError::new(e.to_string()))),
        }
    }
}

impl std::str::FromStr for TypeSignature {
    type Err = Error;

    /// Parses the code from hexadecimal text (see [`TypeSignature::from_hex_text`]).
    fn from_str(s: &str) -> Result<Self, Error> {
        TypeSignature::from_hex_text(s)
    }
}

impl TypeSignature {
    /// The four characters of the ICC name of a value, as the ICC specification
    /// writes them; `None` for a value without one.
    pub open spec fn icc_name(self) -> Option<(char, char, char, char)> {
        match self {
            TypeSignature::UndefinedType => None,
            TypeSignature::ChromaticityType => Some(('c', 'h', 'r', 'm')),
            TypeSignature::ColorantOrderType => Some(('c', 'l', 'r', 'o')),
            TypeSignature::ColorantTableType => Some(('c', 'l', 'r', 't')),
            TypeSignature::CrdInfoType => Some(('c', 'r', 'd', 'i')),
            TypeSignature::CurveType => Some(('c', 'u', 'r', 'v')),
            TypeSignature::DataType => Some(('d', 'a', 't', 'a')),
            TypeSignature::DictType => Some(('d', 'i', 'c', 't')),
            TypeSignature::DateTimeType => Some(('d', 't', 'i', 'm')),
            TypeSignature::DeviceSettingsType => Some(('d', 'e', 'v', 's')),
            TypeSignature::EmbeddedHeightImageType => Some(('e', 'h', 'i', 'm')),
            TypeSignature::EmbeddedNormalImageType => Some(('e', 'n', 'i', 'm')),
            TypeSignature::Float16ArrayType => Some(('f', 'l', '1', '6')),
            TypeSignature::Float32ArrayType => Some(('f', 'l', '3', '2')),
            TypeSignature::Float64ArrayType => Some(('f', 'l', '6', '4')),
            TypeSignature::GamutBoundaryDescType => Some(('g', 'b', 'd', ' ')),
            TypeSignature::Lut16Type => Some(('m', 'f', 't', '2')),
            TypeSignature::Lut8Type => Some(('m', 'f', 't', '1')),
            TypeSignature::LutAtoBType => Some(('m', 'A', 'B', ' ')),
            TypeSignature::LutBtoAType => Some(('m', 'B', 'A', ' ')),
            TypeSignature::MeasurementType => Some(('m', 'e', 'a', 's')),
            TypeSignature::MakeAndModelType => Some(('m', 'm', 'o', 'd')),
            TypeSignature::MultiLocalizedUnicodeType => Some(('m', 'l', 'u', 'c')),
            TypeSignature::MultiProcessElementType => Some(('m', 'p', 'e', 't')),
            TypeSignature::NamedColor2Type => Some(('n', 'c', 'l', '2')),
            TypeSignature::NativeDisplayInfoType => Some(('n', 'd', 'i', 'n')),
            TypeSignature::ParametricCurveType => Some(('p', 'a', 'r', 'a')),
            TypeSignature::ProfileSequenceDescType => Some(('p', 's', 'e', 'q')),
            TypeSignature::ProfileSequceIdType => Some(('p', 's', 'i', 'd')),
            TypeSignature::ResponseCurveSet16Type => Some(('r', 'c', 's', '2')),
            TypeSignature::S15Fixed16ArrayType => Some(('s', 'f', '3', '2')),
            TypeSignature::ScreeningType => Some(('s', 'c', 'r', 'n')),
            TypeSignature::SegmentedCurveType => Some(('c', 'u', 'r', 'f')),
            TypeSignature::SignatureType => Some(('s', 'i', 'g', ' ')),
            TypeSignature::SparseMatrixArrayType => Some(('s', 'm', 'a', 't')),
            TypeSignature::SpectralViewingConditionsType => Some(('s', 'v', 'c', 'n')),
            TypeSignature::SpectralDataInfoType => Some(('s', 'd', 'i', 'n')),
            TypeSignature::TagArrayType => Some(('t', 'a', 'r', 'y')),
            TypeSignature::TagStructType => Some(('t', 's', 't', 'r')),
            TypeSignature::TextType => Some(('t', 'e', 'x', 't')),
            TypeSignature::TextDescriptionType => Some(('d', 'e', 's', 'c')),
            TypeSignature::U16Fixed16ArrayType => Some(('u', 'f', '3', '2')),
            TypeSignature::UcrBgType => Some(('b', 'f', 'd', ' ')),
            TypeSignature::UInt16ArrayType => Some(('u', 'i', '1', '6')),
            TypeSignature::UInt32ArrayType => Some(('u', 'i', '3', '2')),
            TypeSignature::UInt64ArrayType => Some(('u', 'i', '6', '4')),
            TypeSignature::UInt8ArrayType => Some(('u', 'i', '0', '8')),
            TypeSignature::ViewingConditionsType => Some(('v', 'i', 'e', 'w')),
            TypeSignature::VcgpType => Some(('v', 'c', 'g', 'p')),
            TypeSignature::VcgtType => Some(('v', 'c', 'g', 't')),
            TypeSignature::Utf8TextType => Some(('u', 't', 'f', '8')),
            TypeSignature::Utf16TextType => Some(('u', 't', '1', '6')),
            TypeSignature::XYZArrayType => Some(('X', 'Y', 'Z', ' ')),
            TypeSignature::ZipUtf8TextType => Some(('z', 'u', 't', '8')),
            TypeSignature::ZipXmlType => Some(('Z', 'X', 'M', 'L')),
            TypeSignature::EmbeddedProfileType => Some(('I', 'C', 'C', 'p')),
            TypeSignature::Unknown(_) => None,
        }
    }

    /// Each value with an ICC name is written as the big-endian code of the four
    /// characters of that name, and that code is read back as the same value.
    pub proof fn law_codes_are_icc_names(value: TypeSignature)
        ensures
            value.icc_name() matches Some(n) ==> value.code() == crate::signatures::fourcc(n),
            value.icc_name() matches Some(n) ==> TypeSignature::from_code(crate::signatures::fourcc(n)) == value,
    {
    }
}

} // verus!
