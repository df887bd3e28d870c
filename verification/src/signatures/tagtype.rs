use vstd::prelude::*;

verus! {

/// The ICC tag type signatures of the earlier, closed table (no fallback variant).
#[derive(Debug, Clone, Copy, PartialEq, Eq, Structural)]
pub enum TagTypeSignature {
    UndefinedType,
    ChromaticityType,  // 'chrm'
    ColorantOrderType,  // 'clro'
    ColorantTableType,  // 'clrt'
    CrdInfoType,  // 'crdi'
    CurveType,  // 'curv'
    DataType,  // 'data'
    DictType,  // 'dict'
    DateTimeType,  // 'dtim'
    DeviceSettingsType,  // 'devs'
    EmbeddedHeightImageType,  // 'ehim'
    EmbeddedNormalImageType,  // 'enim'
    Float16ArrayType,  // 'fl16'
    Float32ArrayType,  // 'fl32'
    Float64ArrayType,  // 'fl64'
    GamutBoundaryDescType,  // 'gbd '
    Lut16Type,  // 'mft2'
    Lut8Type,  // 'mft1'
    LutAtoBType,  // 'mAB '
    LutBtoAType,  // 'mBA '
    MeasurementType,  // 'meas'
    MakeAndModelType,  // 'mmod'
    MultiLocalizedUnicodeType,  // 'mluc'
    MultiProcessElementType,  // 'mpet'
    NamedColor2Type,  // 'ncl2'
    ParametricCurveType,  // 'para'
    ProfileSequenceDescType,  // 'pseq'
    ProfileSequceIdType,  // 'psid'
    ResponseCurveSet16Type,  // 'rcs2'
    S15Fixed16ArrayType,  // 'sf32'
    ScreeningType,  // 'scrn'
    SegmentedCurveType,  // 'curf'
    SignatureType,  // 'sig '
    SparseMatrixArrayType,  // 'smat'
    SpectralViewingConditionsType,  // 'svcn'
    SpectralDataInfoType,  // 'sdin'
    TagArrayType,  // 'tary'
    TagStructType,  // 'tstr'
    TextType,  // 'text'
    TextDescriptionType,  // 'desc'
    U16Fixed16ArrayType,  // 'uf32'
    UcrBgType,  // 'bfd '
    UInt16ArrayType,  // 'ui16'
    UInt32ArrayType,  // 'ui32'
    UInt64ArrayType,  // 'ui64'
    UInt8ArrayType,  // 'ui08'
    ViewingConditionsType,  // 'view'
    VcgtType,  // 'vcgt'
    Utf8TextType,  // 'utf8'
    Utf16TextType,  // 'ut16'
    XYZArrayType,  // 'XYZ '
    ZipUtf8TextType,  // 'zut8'
    ZipXmlType,  // 'ZXML'
    EmbeddedProfileType,  // 'ICCp'
}

impl TagTypeSignature {
    /// The four-byte code of this value.
    pub open spec fn code(self) -> u32 {
        match self {
            TagTypeSignature::UndefinedType => 0x00000000,
            TagTypeSignature::ChromaticityType => 0x6368726D,
            TagTypeSignature::ColorantOrderType => 0x636C726F,
            TagTypeSignature::ColorantTableType => 0x636C7274,
            TagTypeSignature::CrdInfoType => 0x63726469,
            TagTypeSignature::CurveType => 0x63757276,
            TagTypeSignature::DataType => 0x64617461,
            TagTypeSignature::DictType => 0x64696374,
            TagTypeSignature::DateTimeType => 0x6474696D,
            TagTypeSignature::DeviceSettingsType => 0x64657673,
            TagTypeSignature::EmbeddedHeightImageType => 0x6568696D,
            TagTypeSignature::EmbeddedNormalImageType => 0x656E696D,
            TagTypeSignature::Float16ArrayType => 0x666C3136,
            TagTypeSignature::Float32ArrayType => 0x666C3332,
            TagTypeSignature::Float64ArrayType => 0x666C3634,
            TagTypeSignature::GamutBoundaryDescType => 0x67626420,
            TagTypeSignature::Lut16Type => 0x6D667432,
            TagTypeSignature::Lut8Type => 0x6D667431,
            TagTypeSignature::LutAtoBType => 0x6D414220,
            TagTypeSignature::LutBtoAType => 0x6D424120,
            TagTypeSignature::MeasurementType => 0x6D656173,
            TagTypeSignature::MakeAndModelType => 0x6D6D6F64,
            TagTypeSignature::MultiLocalizedUnicodeType => 0x6D6C7563,
            TagTypeSignature::MultiProcessElementType => 0x6D706574,
            TagTypeSignature::NamedColor2Type => 0x6E636C32,
            TagTypeSignature::ParametricCurveType => 0x70617261,
            TagTypeSignature::ProfileSequenceDescType => 0x70736571,
            TagTypeSignature::ProfileSequceIdType => 0x70736964,
            TagTypeSignature::ResponseCurveSet16Type => 0x72637332,
            TagTypeSignature::S15Fixed16ArrayType => 0x73663332,
            TagTypeSignature::ScreeningType => 0x7363726E,
            TagTypeSignature::SegmentedCurveType => 0x63757266,
            TagTypeSignature::SignatureType => 0x73696720,
            TagTypeSignature::SparseMatrixArrayType => 0x736D6174,
            TagTypeSignature::SpectralViewingConditionsType => 0x7376636E,
            TagTypeSignature::SpectralDataInfoType => 0x7364696E,
            TagTypeSignature::TagArrayType => 0x74617279,
            TagTypeSignature::TagStructType => 0x74737472,
            TagTypeSignature::TextType => 0x74657874,
            TagTypeSignature::TextDescriptionType => 0x64657363,
            TagTypeSignature::U16Fixed16ArrayType => 0x75663332,
            TagTypeSignature::UcrBgType => 0x62666420,
            TagTypeSignature::UInt16ArrayType => 0x75693136,
            TagTypeSignature::UInt32ArrayType => 0x75693332,
            TagTypeSignature::UInt64ArrayType => 0x75693634,
            TagTypeSignature::UInt8ArrayType => 0x75693038,
            TagTypeSignature::ViewingConditionsType => 0x76696577,
            TagTypeSignature::VcgtType => 0x76636774,
            TagTypeSignature::Utf8TextType => 0x75746638,
            TagTypeSignature::Utf16TextType => 0x75743136,
            TagTypeSignature::XYZArrayType => 0x58595A20,
            TagTypeSignature::ZipUtf8TextType => 0x7A757438,
            TagTypeSignature::ZipXmlType => 0x5A584D4C,
            TagTypeSignature::EmbeddedProfileType => 0x49434370,
        }
    }

    /// The value that a four-byte code stands for, if any.
    pub open spec fn from_code(code: u32) -> Option<TagTypeSignature> {
        match code {
            0x00000000 => Some(TagTypeSignature::UndefinedType),
            0x6368726D => Some(TagTypeSignature::ChromaticityType),
            0x636C726F => Some(TagTypeSignature::ColorantOrderType),
            0x636C7274 => Some(TagTypeSignature::ColorantTableType),
            0x63726469 => Some(TagTypeSignature::CrdInfoType),
            0x63757276 => Some(TagTypeSignature::CurveType),
            0x64617461 => Some(TagTypeSignature::DataType),
            0x64696374 => Some(TagTypeSignature::DictType),
            0x6474696D => Some(TagTypeSignature::DateTimeType),
            0x64657673 => Some(TagTypeSignature::DeviceSettingsType),
            0x6568696D => Some(TagTypeSignature::EmbeddedHeightImageType),
            0x656E696D => Some(TagTypeSignature::EmbeddedNormalImageType),
            0x666C3136 => Some(TagTypeSignature::Float16ArrayType),
            0x666C3332 => Some(TagTypeSignature::Float32ArrayType),
            0x666C3634 => Some(TagTypeSignature::Float64ArrayType),
            0x67626420 => Some(TagTypeSignature::GamutBoundaryDescType),
            0x6D667432 => Some(TagTypeSignature::Lut16Type),
            0x6D667431 => Some(TagTypeSignature::Lut8Type),
            0x6D414220 => Some(TagTypeSignature::LutAtoBType),
            0x6D424120 => Some(TagTypeSignature::LutBtoAType),
            0x6D656173 => Some(TagTypeSignature::MeasurementType),
            0x6D6D6F64 => Some(TagTypeSignature::MakeAndModelType),
            0x6D6C7563 => Some(TagTypeSignature::MultiLocalizedUnicodeType),
            0x6D706574 => Some(TagTypeSignature::MultiProcessElementType),
            0x6E636C32 => Some(TagTypeSignature::NamedColor2Type),
            0x70617261 => Some(TagTypeSignature::ParametricCurveType),
            0x70736571 => Some(TagTypeSignature::ProfileSequenceDescType),
            0x70736964 => Some(TagTypeSignature::ProfileSequceIdType),
            0x72637332 => Some(TagTypeSignature::ResponseCurveSet16Type),
            0x73663332 => Some(TagTypeSignature::S15Fixed16ArrayType),
            0x7363726E => Some(TagTypeSignature::ScreeningType),
            0x63757266 => Some(TagTypeSignature::SegmentedCurveType),
            0x73696720 => Some(TagTypeSignature::SignatureType),
            0x736D6174 => Some(TagTypeSignature::SparseMatrixArrayType),
            0x7376636E => Some(TagTypeSignature::SpectralViewingConditionsType),
            0x7364696E => Some(TagTypeSignature::SpectralDataInfoType),
            0x74617279 => Some(TagTypeSignature::TagArrayType),
            0x74737472 => Some(TagTypeSignature::TagStructType),
            0x74657874 => Some(TagTypeSignature::TextType),
            0x64657363 => Some(TagTypeSignature::TextDescriptionType),
            0x75663332 => Some(TagTypeSignature::U16Fixed16ArrayType),
            0x62666420 => Some(TagTypeSignature::UcrBgType),
            0x75693136 => Some(TagTypeSignature::UInt16ArrayType),
            0x75693332 => Some(TagTypeSignature::UInt32ArrayType),
            0x75693634 => Some(TagTypeSignature::UInt64ArrayType),
            0x75693038 => Some(TagTypeSignature::UInt8ArrayType),
            0x76696577 => Some(TagTypeSignature::ViewingConditionsType),
            0x76636774 => Some(TagTypeSignature::VcgtType),
            0x75746638 => Some(TagTypeSignature::Utf8TextType),
            0x75743136 => Some(TagTypeSignature::Utf16TextType),
            0x58595A20 => Some(TagTypeSignature::XYZArrayType),
            0x7A757438 => Some(TagTypeSignature::ZipUtf8TextType),
            0x5A584D4C => Some(TagTypeSignature::ZipXmlType),
            0x49434370 => Some(TagTypeSignature::EmbeddedProfileType),
            _ => None,
        }
    }

    /// Decodes a four-byte code; `None` when no value has that code.
    pub fn from_u32(code: u32) -> (res: Option<TagTypeSignature>)
        ensures
            res == TagTypeSignature::from_code(code),
    {
        match code {
            0x00000000 => Some(TagTypeSignature::UndefinedType),
            0x6368726D => Some(TagTypeSignature::ChromaticityType),
            0x636C726F => Some(TagTypeSignature::ColorantOrderType),
            0x636C7274 => Some(TagTypeSignature::ColorantTableType),
            0x63726469 => Some(TagTypeSignature::CrdInfoType),
            0x63757276 => Some(TagTypeSignature::CurveType),
            0x64617461 => Some(TagTypeSignature::DataType),
            0x64696374 => Some(TagTypeSignature::DictType),
            0x6474696D => Some(TagTypeSignature::DateTimeType),
            0x64657673 => Some(TagTypeSignature::DeviceSettingsType),
            0x6568696D => Some(TagTypeSignature::EmbeddedHeightImageType),
            0x656E696D => Some(TagTypeSignature::EmbeddedNormalImageType),
            0x666C3136 => Some(TagTypeSignature::Float16ArrayType),
            0x666C3332 => Some(TagTypeSignature::Float32ArrayType),
            0x666C3634 => Some(TagTypeSignature::Float64ArrayType),
            0x67626420 => Some(TagTypeSignature::GamutBoundaryDescType),
            0x6D667432 => Some(TagTypeSignature::Lut16Type),
            0x6D667431 => Some(TagTypeSignature::Lut8Type),
            0x6D414220 => Some(TagTypeSignature::LutAtoBType),
            0x6D424120 => Some(TagTypeSignature::LutBtoAType),
            0x6D656173 => Some(TagTypeSignature::MeasurementType),
            0x6D6D6F64 => Some(TagTypeSignature::MakeAndModelType),
            0x6D6C7563 => Some(TagTypeSignature::MultiLocalizedUnicodeType),
            0x6D706574 => Some(TagTypeSignature::MultiProcessElementType),
            0x6E636C32 => Some(TagTypeSignature::NamedColor2Type),
            0x70617261 => Some(TagTypeSignature::ParametricCurveType),
            0x70736571 => Some(TagTypeSignature::ProfileSequenceDescType),
            0x70736964 => Some(TagTypeSignature::ProfileSequceIdType),
            0x72637332 => Some(TagTypeSignature::ResponseCurveSet16Type),
            0x73663332 => Some(TagTypeSignature::S15Fixed16ArrayType),
            0x7363726E => Some(TagTypeSignature::ScreeningType),
            0x63757266 => Some(TagTypeSignature::SegmentedCurveType),
            0x73696720 => Some(TagTypeSignature::SignatureType),
            0x736D6174 => Some(TagTypeSignature::SparseMatrixArrayType),
            0x7376636E => Some(TagTypeSignature::SpectralViewingConditionsType),
            0x7364696E => Some(TagTypeSignature::SpectralDataInfoType),
            0x74617279 => Some(TagTypeSignature::TagArrayType),
            0x74737472 => Some(TagTypeSignature::TagStructType),
            0x74657874 => Some(TagTypeSignature::TextType),
            0x64657363 => Some(TagTypeSignature::TextDescriptionType),
            0x75663332 => Some(TagTypeSignature::U16Fixed16ArrayType),
            0x62666420 => Some(TagTypeSignature::UcrBgType),
            0x75693136 => Some(TagTypeSignature::UInt16ArrayType),
            0x75693332 => Some(TagTypeSignature::UInt32ArrayType),
            0x75693634 => Some(TagTypeSignature::UInt64ArrayType),
            0x75693038 => Some(TagTypeSignature::UInt8ArrayType),
            0x76696577 => Some(TagTypeSignature::ViewingConditionsType),
            0x76636774 => Some(TagTypeSignature::VcgtType),
            0x75746638 => Some(TagTypeSignature::Utf8TextType),
            0x75743136 => Some(TagTypeSignature::Utf16TextType),
            0x58595A20 => Some(TagTypeSignature::XYZArrayType),
            0x7A757438 => Some(TagTypeSignature::ZipUtf8TextType),
            0x5A584D4C => Some(TagTypeSignature::ZipXmlType),
            0x49434370 => Some(TagTypeSignature::EmbeddedProfileType),
            _ => None,
        }
    }

    /// Returns the four-byte code of this value.
    pub fn to_u32(&self) -> (code: u32)
        ensures
            code == self.code(),
    {
        match self {
            TagTypeSignature::UndefinedType => 0x00000000,
            TagTypeSignature::ChromaticityType => 0x6368726D,
            TagTypeSignature::ColorantOrderType => 0x636C726F,
            TagTypeSignature::ColorantTableType => 0x636C7274,
            TagTypeSignature::CrdInfoType => 0x63726469,
            TagTypeSignature::CurveType => 0x63757276,
            TagTypeSignature::DataType => 0x64617461,
            TagTypeSignature::DictType => 0x64696374,
            TagTypeSignature::DateTimeType => 0x6474696D,
            TagTypeSignature::DeviceSettingsType => 0x64657673,
            TagTypeSignature::EmbeddedHeightImageType => 0x6568696D,
            TagTypeSignature::EmbeddedNormalImageType => 0x656E696D,
            TagTypeSignature::Float16ArrayType => 0x666C3136,
            TagTypeSignature::Float32ArrayType => 0x666C3332,
            TagTypeSignature::Float64ArrayType => 0x666C3634,
            TagTypeSignature::GamutBoundaryDescType => 0x67626420,
            TagTypeSignature::Lut16Type => 0x6D667432,
            TagTypeSignature::Lut8Type => 0x6D667431,
            TagTypeSignature::LutAtoBType => 0x6D414220,
            TagTypeSignature::LutBtoAType => 0x6D424120,
            TagTypeSignature::MeasurementType => 0x6D656173,
            TagTypeSignature::MakeAndModelType => 0x6D6D6F64,
            TagTypeSignature::MultiLocalizedUnicodeType => 0x6D6C7563,
            TagTypeSignature::MultiProcessElementType => 0x6D706574,
            TagTypeSignature::NamedColor2Type => 0x6E636C32,
            TagTypeSignature::ParametricCurveType => 0x70617261,
            TagTypeSignature::ProfileSequenceDescType => 0x70736571,
            TagTypeSignature::ProfileSequceIdType => 0x70736964,
            TagTypeSignature::ResponseCurveSet16Type => 0x72637332,
            TagTypeSignature::S15Fixed16ArrayType => 0x73663332,
            TagTypeSignature::ScreeningType => 0x7363726E,
            TagTypeSignature::SegmentedCurveType => 0x63757266,
            TagTypeSignature::SignatureType => 0x73696720,
            TagTypeSignature::SparseMatrixArrayType => 0x736D6174,
            TagTypeSignature::SpectralViewingConditionsType => 0x7376636E,
            TagTypeSignature::SpectralDataInfoType => 0x7364696E,
            TagTypeSignature::TagArrayType => 0x74617279,
            TagTypeSignature::TagStructType => 0x74737472,
            TagTypeSignature::TextType => 0x74657874,
            TagTypeSignature::TextDescriptionType => 0x64657363,
            TagTypeSignature::U16Fixed16ArrayType => 0x75663332,
            TagTypeSignature::UcrBgType => 0x62666420,
            TagTypeSignature::UInt16ArrayType => 0x75693136,
            TagTypeSignature::UInt32ArrayType => 0x75693332,
            TagTypeSignature::UInt64ArrayType => 0x75693634,
            TagTypeSignature::UInt8ArrayType => 0x75693038,
            TagTypeSignature::ViewingConditionsType => 0x76696577,
            TagTypeSignature::VcgtType => 0x76636774,
            TagTypeSignature::Utf8TextType => 0x75746638,
            TagTypeSignature::Utf16TextType => 0x75743136,
            TagTypeSignature::XYZArrayType => 0x58595A20,
            TagTypeSignature::ZipUtf8TextType => 0x7A757438,
            TagTypeSignature::ZipXmlType => 0x5A584D4C,
            TagTypeSignature::EmbeddedProfileType => 0x49434370,
        }
    }

    /// Every value's code decodes back to that value.
    pub proof fn lemma_from_code_of_code(value: TagTypeSignature)
        ensures
            TagTypeSignature::from_code(value.code()) == Some(value),
    {
    }

    /// A code that decodes to a value is that value's code.
    pub proof fn lemma_code_of_from_code(code: u32)
        ensures
            TagTypeSignature::from_code(code) matches Some(value) ==> value.code() == code,
    {
    }
}

impl TagTypeSignature {
    /// The four characters of the ICC name of a value, as the ICC specification
    /// writes them; `None` for a value without one.
    pub open spec fn icc_name(self) -> Option<(char, char, char, char)> {
        match self {
            TagTypeSignature::UndefinedType => None,
            TagTypeSignature::ChromaticityType => Some(('c', 'h', 'r', 'm')),
            TagTypeSignature::ColorantOrderType => Some(('c', 'l', 'r', 'o')),
            TagTypeSignature::ColorantTableType => Some(('c', 'l', 'r', 't')),
            TagTypeSignature::CrdInfoType => Some(('c', 'r', 'd', 'i')),
            TagTypeSignature::CurveType => Some(('c', 'u', 'r', 'v')),
            TagTypeSignature::DataType => Some(('d', 'a', 't', 'a')),
            TagTypeSignature::DictType => Some(('d', 'i', 'c', 't')),
            TagTypeSignature::DateTimeType => Some(('d', 't', 'i', 'm')),
            TagTypeSignature::DeviceSettingsType => Some(('d', 'e', 'v', 's')),
            TagTypeSignature::EmbeddedHeightImageType => Some(('e', 'h', 'i', 'm')),
            TagTypeSignature::EmbeddedNormalImageType => Some(('e', 'n', 'i', 'm')),
            TagTypeSignature::Float16ArrayType => Some(('f', 'l', '1', '6')),
            TagTypeSignature::Float32ArrayType => Some(('f', 'l', '3', '2')),
            TagTypeSignature::Float64ArrayType => Some(('f', 'l', '6', '4')),
            TagTypeSignature::GamutBoundaryDescType => Some(('g', 'b', 'd', ' ')),
            TagTypeSignature::Lut16Type => Some(('m', 'f', 't', '2')),
            TagTypeSignature::Lut8Type => Some(('m', 'f', 't', '1')),
            TagTypeSignature::LutAtoBType => Some(('m', 'A', 'B', ' ')),
            TagTypeSignature::LutBtoAType => Some(('m', 'B', 'A', ' ')),
            TagTypeSignature::MeasurementType => Some(('m', 'e', 'a', 's')),
            TagTypeSignature::MakeAndModelType => Some(('m', 'm', 'o', 'd')),
            TagTypeSignature::MultiLocalizedUnicodeType => Some(('m', 'l', 'u', 'c')),
            TagTypeSignature::MultiProcessElementType => Some(('m', 'p', 'e', 't')),
            TagTypeSignature::NamedColor2Type => Some(('n', 'c', 'l', '2')),
            TagTypeSignature::ParametricCurveType => Some(('p', 'a', 'r', 'a')),
            TagTypeSignature::ProfileSequenceDescType => Some(('p', 's', 'e', 'q')),
            TagTypeSignature::ProfileSequceIdType => Some(('p', 's', 'i', 'd')),
            TagTypeSignature::ResponseCurveSet16Type => Some(('r', 'c', 's', '2')),
            TagTypeSignature::S15Fixed16ArrayType => Some(('s', 'f', '3', '2')),
            TagTypeSignature::ScreeningType => Some(('s', 'c', 'r', 'n')),
            TagTypeSignature::SegmentedCurveType => Some(('c', 'u', 'r', 'f')),
            TagTypeSignature::SignatureType => Some(('s', 'i', 'g', ' ')),
            TagTypeSignature::SparseMatrixArrayType => Some(('s', 'm', 'a', 't')),
            TagTypeSignature::SpectralViewingConditionsType => Some(('s', 'v', 'c', 'n')),
            TagTypeSignature::SpectralDataInfoType => Some(('s', 'd', 'i', 'n')),
            TagTypeSignature::TagArrayType => Some(('t', 'a', 'r', 'y')),
            TagTypeSignature::TagStructType => Some(('t', 's', 't', 'r')),
            TagTypeSignature::TextType => Some(('t', 'e', 'x', 't')),
            TagTypeSignature::TextDescriptionType => Some(('d', 'e', 's', 'c')),
            TagTypeSignature::U16Fixed16ArrayType => Some(('u', 'f', '3', '2')),
            TagTypeSignature::UcrBgType => Some(('b', 'f', 'd', ' ')),
            TagTypeSignature::UInt16ArrayType => Some(('u', 'i', '1', '6')),
            TagTypeSignature::UInt32ArrayType => Some(('u', 'i', '3', '2')),
            TagTypeSignature::UInt64ArrayType => Some(('u', 'i', '6', '4')),
            TagTypeSignature::UInt8ArrayType => Some(('u', 'i', '0', '8')),
            TagTypeSignature::ViewingConditionsType => Some(('v', 'i', 'e', 'w')),
            TagTypeSignature::VcgtType => Some(('v', 'c', 'g', 't')),
            TagTypeSignature::Utf8TextType => Some(('u', 't', 'f', '8')),
            TagTypeSignature::Utf16TextType => Some(('u', 't', '1', '6')),
            TagTypeSignature::XYZArrayType => Some(('X', 'Y', 'Z', ' ')),
            TagTypeSignature::ZipUtf8TextType => Some(('z', 'u', 't', '8')),
            TagTypeSignature::ZipXmlType => Some(('Z', 'X', 'M', 'L')),
            TagTypeSignature::EmbeddedProfileType => Some(('I', 'C', 'C', 'p')),
        }
    }

    /// Each value with an ICC name is written as the big-endian code of the four
    /// characters of that name, and that code is read back as the same value.
    pub proof fn law_codes_are_icc_names(value: TagTypeSignature)
        ensures
            value.icc_name() matches Some(n) ==> value.code() == crate::signatures::fourcc(n),
            value.icc_name() matches Some(n) ==> TagTypeSignature::from_code(crate::signatures::fourcc(n)) == Some(value),
    {
    }
}

} // verus!
