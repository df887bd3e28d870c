pub mod markers;

use vstd::prelude::*;

use crate::signatures::{code_text, code_to_string, fourcc};

verus! {

/// The full table of ICC tag signatures (ICC.1, ICC.2 and common private tags),
/// each variant standing for one four-byte code; `Unknown` keeps any other code.
#[derive(Debug, Clone, Copy, PartialEq, Eq, Hash, Structural)]
pub enum TagSignature {
    AToB0Tag,  // 'A2B0'
    AToB1Tag,  // 'A2B1'
    AToB2Tag,  // 'A2B2'
    AToB3Tag,  // 'A2B3'
    AToM0Tag,  // 'A2M0'
    BlueMatrixColumnTag,  // 'bXYZ'
    BlueTRCTag,  // 'bTRC'
    BrdfColorimetricParameter0Tag,  // 'bcp0'
    BrdfColorimetricParameter1Tag,  // 'bcp1'
    BrdfColorimetricParameter2Tag,  // 'bcp2'
    BrdfColorimetricParameter3Tag,  // 'bcp3'
    BrdfSpectralParameter0Tag,  // 'bsp0'
    BrdfSpectralParameter1Tag,  // 'bsp1'
    BrdfSpectralParameter2Tag,  // 'bsp2'
    BrdfSpectralParameter3Tag,  // 'bsp3'
    BRDFAToB0Tag,  // 'bAB0'
    BRDFAToB1Tag,  // 'bAB1'
    BRDFAToB2Tag,  // 'bAB2'
    BRDFAToB3Tag,  // 'bAB3'
    BRDFDToB0Tag,  // 'bDB0'
    BRDFDToB1Tag,  // 'bDB1'
    BRDFDToB2Tag,  // 'bDB2'
    BRDFDToB3Tag,  // 'bDB3'
    BRDFMToB0Tag,  // 'bMB0'
    BRDFMToB1Tag,  // 'bMB1'
    BRDFMToB2Tag,  // 'bMB2'
    BRDFMToB3Tag,  // 'bMB3'
    BRDFMToS0Tag,  // 'bMS0'
    BRDFMToS1Tag,  // 'bMS1'
    BRDFMToS2Tag,  // 'bMS2'
    BRDFMToS3Tag,  // 'bMS3'
    BToA0Tag,  // 'B2A0'
    BToA1Tag,  // 'B2A1'
    BToA2Tag,  // 'B2A2'
    BToA3Tag,  // 'B2A3'
    CalibrationDateTimeTag,  // 'calt'
    CharTargetTag,  // 'targ'
    ChromaticAdaptationTag,  // 'chad'
    ChromaticityTag,  // 'chrm'
    ColorEncodingParamsTag,  // 'cept'
    ColorSpaceNameTag,  // 'csnm'
    ColorantInfoTag,  // 'clin'
    ColorantInfoOutTag,  // 'clio'
    ColorantOrderTag,  // 'clro'
    ColorantOrderOutTag,  // 'cloo'
    ColorantTableTag,  // 'clrt'
    ColorantTableOutTag,  // 'clot'
    ColorimetricIntentImageStateTag,  // 'ciis'
    CopyrightTag,  // 'cprt'
    CrdInfoTag,  // 'crdi'
    CustomToStandardPccTag,  // 'c2sp'
    CxFTag,  // 'CxF '
    DataTag,  // 'data'
    DateTimeTag,  // 'dtim'
    DeviceMediaWhitePointTag,  // 'dmwp'
    DeviceMfgDescTag,  // 'dmnd'
    DeviceModelDescTag,  // 'dmdd'
    DeviceSettingsTag,  // 'devs'
    DToB0Tag,  // 'D2B0'
    DToB1Tag,  // 'D2B1'
    DToB2Tag,  // 'D2B2'
    DToB3Tag,  // 'D2B3'
    BToD0Tag,  // 'B2D0'
    BToD1Tag,  // 'B2D1'
    BToD2Tag,  // 'B2D2'
    BToD3Tag,  // 'B2D3'
    GamutTag,  // 'gamt'
    GamutBoundaryDescription0Tag,  // 'gbd0'
    GamutBoundaryDescription1Tag,  // 'gbd1'
    GamutBoundaryDescription2Tag,  // 'gbd2'
    GamutBoundaryDescription3Tag,  // 'gbd3'
    GrayTRCTag,  // 'kTRC'
    GreenMatrixColumnTag,  // 'gXYZ'
    GreenTRCTag,  // 'gTRC'
    LuminanceTag,  // 'lumi'
    MaterialDefaultValuesTag,  // 'mdv '
    MaterialTypeArrayTag,  // 'mcta'
    MToA0Tag,  // 'M2A0'
    MToB0Tag,  // 'M2B0'
    MToB1Tag,  // 'M2B1'
    MToB2Tag,  // 'M2B2'
    MToB3Tag,  // 'M2B3'
    MToS0Tag,  // 'M2S0'
    MToS1Tag,  // 'M2S1'
    MToS2Tag,  // 'M2S2'
    MToS3Tag,  // 'M2S3'
    MeasurementTag,  // 'meas'
    MediaBlackPointTag,  // 'bkpt'
    MediaWhitePointTag,  // 'wtpt'
    MetaDataTag,  // 'meta'
    NamedColorTag,  // 'ncol'
    NamedColorV5Tag,  // 'nmcl'
    NamedColor2Tag,  // 'ncl2'
    OutputResponseTag,  // 'resp'
    PerceptualRenderingIntentGamutTag,  // 'rig0'
    Preview0Tag,  // 'pre0'
    Preview1Tag,  // 'pre1'
    Preview2Tag,  // 'pre2'
    PrintConditionTag,  // 'ptcn'
    ProfileDescriptionTag,  // 'desc'
    ProfileSequenceDescTag,  // 'pseq'
    ProfileSequceIdTag,  // 'psid'
    Ps2CRD0Tag,  // 'psd0'
    Ps2CRD1Tag,  // 'psd1'
    Ps2CRD2Tag,  // 'psd2'
    Ps2CRD3Tag,  // 'psd3'
    Ps2CSATag,  // 'ps2s'
    Ps2RenderingIntentTag,  // 'ps2i'
    RedMatrixColumnTag,  // 'rXYZ'
    RedTRCTag,  // 'rTRC'
    ReferenceNameTag,  // 'rfnm'
    SaturationRenderingIntentGamutTag,  // 'rig2'
    ScreeningDescTag,  // 'scrd'
    ScreeningTag,  // 'scrn'
    SpectralDataInfoTag,  // 'sdin'
    SpectralWhitePointTag,  // 'swpt'
    SpectralViewingConditionsTag,  // 'svcn'
    StandardToCustomPccTag,  // 's2cp'
    SurfaceMapTag,  // 'smap'
    TechnologyTag,  // 'tech'
    UcrBgTag,  // 'bfd '
    ViewingCondDescTag,  // 'vued'
    ViewingConditionsTag,  // 'view'
    EmbeddedV5ProfileTag,  // 'ICC5'
    MakeAndModelTag,  // 'mmod'
    MultilocalizedDescriptionStringTag,  // 'dscm'
    NativeDisplayInfoTag,  // 'ndin'
    VcgtTag,  // 'vcgt'
    VcgpTag,  // 'vcgp'
    AbsToRelTransSpaceTag,  // 'arts'
    /// A code that no named variant stands for.
    Unknown(u32),
}

impl TagSignature {
    /// The four-byte code of this signature.
    pub open spec fn code(self) -> u32 {
        match self {
            TagSignature::AToB0Tag => 0x41324230,
            TagSignature::AToB1Tag => 0x41324231,
            TagSignature::AToB2Tag => 0x41324232,
            TagSignature::AToB3Tag => 0x41324233,
            TagSignature::AToM0Tag => 0x41324D30,
            TagSignature::BlueMatrixColumnTag => 0x6258595A,
            TagSignature::BlueTRCTag => 0x62545243,
            TagSignature::BrdfColorimetricParameter0Tag => 0x62637030,
            TagSignature::BrdfColorimetricParameter1Tag => 0x62637031,
            TagSignature::BrdfColorimetricParameter2Tag => 0x62637032,
            TagSignature::BrdfColorimetricParameter3Tag => 0x62637033,
            TagSignature::BrdfSpectralParameter0Tag => 0x62737030,
            TagSignature::BrdfSpectralParameter1Tag => 0x62737031,
            TagSignature::BrdfSpectralParameter2Tag => 0x62737032,
            TagSignature::BrdfSpectralParameter3Tag => 0x62737033,
            TagSignature::BRDFAToB0Tag => 0x62414230,
            TagSignature::BRDFAToB1Tag => 0x62414231,
            TagSignature::BRDFAToB2Tag => 0x62414232,
            TagSignature::BRDFAToB3Tag => 0x62414233,
            TagSignature::BRDFDToB0Tag => 0x62444230,
            TagSignature::BRDFDToB1Tag => 0x62444231,
            TagSignature::BRDFDToB2Tag => 0x62444232,
            TagSignature::BRDFDToB3Tag => 0x62444233,
            TagSignature::BRDFMToB0Tag => 0x624D4230,
            TagSignature::BRDFMToB1Tag => 0x624D4231,
            TagSignature::BRDFMToB2Tag => 0x624D4232,
            TagSignature::BRDFMToB3Tag => 0x624D4233,
            TagSignature::BRDFMToS0Tag => 0x624D5330,
            TagSignature::BRDFMToS1Tag => 0x624D5331,
            TagSignature::BRDFMToS2Tag => 0x624D5332,
            TagSignature::BRDFMToS3Tag => 0x624D5333,
            TagSignature::BToA0Tag => 0x42324130,
            TagSignature::BToA1Tag => 0x42324131,
            TagSignature::BToA2Tag => 0x42324132,
            TagSignature::BToA3Tag => 0x42324133,
            TagSignature::CalibrationDateTimeTag => 0x63616C74,
            TagSignature::CharTargetTag => 0x74617267,
            TagSignature::ChromaticAdaptationTag => 0x63686164,
            TagSignature::ChromaticityTag => 0x6368726D,
            TagSignature::ColorEncodingParamsTag => 0x63657074,
            TagSignature::ColorSpaceNameTag => 0x63736E6D,
            TagSignature::ColorantInfoTag => 0x636C696E,
            TagSignature::ColorantInfoOutTag => 0x636C696F,
            TagSignature::ColorantOrderTag => 0x636C726F,
            TagSignature::ColorantOrderOutTag => 0x636C6F6F,
            TagSignature::ColorantTableTag => 0x636C7274,
            TagSignature::ColorantTableOutTag => 0x636C6F74,
            TagSignature::ColorimetricIntentImageStateTag => 0x63696973,
            TagSignature::CopyrightTag => 0x63707274,
            TagSignature::CrdInfoTag => 0x63726469,
            TagSignature::CustomToStandardPccTag => 0x63327370,
            TagSignature::CxFTag => 0x43784620,
            TagSignature::DataTag => 0x64617461,
            TagSignature::DateTimeTag => 0x6474696D,
            TagSignature::DeviceMediaWhitePointTag => 0x646D7770,
            TagSignature::DeviceMfgDescTag => 0x646D6E64,
            TagSignature::DeviceModelDescTag => 0x646D6464,
            TagSignature::DeviceSettingsTag => 0x64657673,
            TagSignature::DToB0Tag => 0x44324230,
            TagSignature::DToB1Tag => 0x44324231,
            TagSignature::DToB2Tag => 0x44324232,
            TagSignature::DToB3Tag => 0x44324233,
            TagSignature::BToD0Tag => 0x42324430,
            TagSignature::BToD1Tag => 0x42324431,
            TagSignature::BToD2Tag => 0x42324432,
            TagSignature::BToD3Tag => 0x42324433,
            TagSignature::GamutTag => 0x67616D74,
            TagSignature::GamutBoundaryDescription0Tag => 0x67626430,
            TagSignature::GamutBoundaryDescription1Tag => 0x67626431,
            TagSignature::GamutBoundaryDescription2Tag => 0x67626432,
            TagSignature::GamutBoundaryDescription3Tag => 0x67626433,
            TagSignature::GrayTRCTag => 0x6B545243,
            TagSignature::GreenMatrixColumnTag => 0x6758595A,
            TagSignature::GreenTRCTag => 0x67545243,
            TagSignature::LuminanceTag => 0x6C756D69,
            TagSignature::MaterialDefaultValuesTag => 0x6D647620,
            TagSignature::MaterialTypeArrayTag => 0x6D637461,
            TagSignature::MToA0Tag => 0x4D324130,
            TagSignature::MToB0Tag => 0x4D324230,
            TagSignature::MToB1Tag => 0x4D324231,
            TagSignature::MToB2Tag => 0x4D324232,
            TagSignature::MToB3Tag => 0x4D324233,
            TagSignature::MToS0Tag => 0x4D325330,
            TagSignature::MToS1Tag => 0x4D325331,
            TagSignature::MToS2Tag => 0x4D325332,
            TagSignature::MToS3Tag => 0x4D325333,
            TagSignature::MeasurementTag => 0x6D656173,
            TagSignature::MediaBlackPointTag => 0x626B7074,
            TagSignature::MediaWhitePointTag => 0x77747074,
            TagSignature::MetaDataTag => 0x6D657461,
            TagSignature::NamedColorTag => 0x6E636F6C,
            TagSignature::NamedColorV5Tag => 0x6E6D636C,
            TagSignature::NamedColor2Tag => 0x6E636C32,
            TagSignature::OutputResponseTag => 0x72657370,
            TagSignature::PerceptualRenderingIntentGamutTag => 0x72696730,
            TagSignature::Preview0Tag => 0x70726530,
            TagSignature::Preview1Tag => 0x70726531,
            TagSignature::Preview2Tag => 0x70726532,
            TagSignature::PrintConditionTag => 0x7074636E,
            TagSignature::ProfileDescriptionTag => 0x64657363,
            TagSignature::ProfileSequenceDescTag => 0x70736571,
            TagSignature::ProfileSequceIdTag => 0x70736964,
            TagSignature::Ps2CRD0Tag => 0x70736430,
            TagSignature::Ps2CRD1Tag => 0x70736431,
            TagSignature::Ps2CRD2Tag => 0x70736432,
            TagSignature::Ps2CRD3Tag => 0x70736433,
            TagSignature::Ps2CSATag => 0x70733273,
            TagSignature::Ps2RenderingIntentTag => 0x70733269,
            TagSignature::RedMatrixColumnTag => 0x7258595A,
            TagSignature::RedTRCTag => 0x72545243,
            TagSignature::ReferenceNameTag => 0x72666E6D,
            TagSignature::SaturationRenderingIntentGamutTag => 0x72696732,
            TagSignature::ScreeningDescTag => 0x73637264,
            TagSignature::ScreeningTag => 0x7363726E,
            TagSignature::SpectralDataInfoTag => 0x7364696E,
            TagSignature::SpectralWhitePointTag => 0x73777074,
            TagSignature::SpectralViewingConditionsTag => 0x7376636E,
            TagSignature::StandardToCustomPccTag => 0x73326370,
            TagSignature::SurfaceMapTag => 0x736D6170,
            TagSignature::TechnologyTag => 0x74656368,
            TagSignature::UcrBgTag => 0x62666420,
            TagSignature::ViewingCondDescTag => 0x76756564,
            TagSignature::ViewingConditionsTag => 0x76696577,
            TagSignature::EmbeddedV5ProfileTag => 0x49434335,
            TagSignature::MakeAndModelTag => 0x6D6D6F64,
            TagSignature::MultilocalizedDescriptionStringTag => 0x6473636D,
            TagSignature::NativeDisplayInfoTag => 0x6E64696E,
            TagSignature::VcgtTag => 0x76636774,
            TagSignature::VcgpTag => 0x76636770,
            TagSignature::AbsToRelTransSpaceTag => 0x61727473,
            TagSignature::Unknown(value) => value,
        }
    }

    /// The signature that a four-byte code stands for.
    pub open spec fn from_code(code: u32) -> TagSignature {
        match code {
            0x41324230 => TagSignature::AToB0Tag,
            0x41324231 => TagSignature::AToB1Tag,
            0x41324232 => TagSignature::AToB2Tag,
            0x41324233 => TagSignature::AToB3Tag,
            0x41324D30 => TagSignature::AToM0Tag,
            0x6258595A => TagSignature::BlueMatrixColumnTag,
            0x62545243 => TagSignature::BlueTRCTag,
            0x62637030 => TagSignature::BrdfColorimetricParameter0Tag,
            0x62637031 => TagSignature::BrdfColorimetricParameter1Tag,
            0x62637032 => TagSignature::BrdfColorimetricParameter2Tag,
            0x62637033 => TagSignature::BrdfColorimetricParameter3Tag,
            0x62737030 => TagSignature::BrdfSpectralParameter0Tag,
            0x62737031 => TagSignature::BrdfSpectralParameter1Tag,
            0x62737032 => TagSignature::BrdfSpectralParameter2Tag,
            0x62737033 => TagSignature::BrdfSpectralParameter3Tag,
            0x62414230 => TagSignature::BRDFAToB0Tag,
            0x62414231 => TagSignature::BRDFAToB1Tag,
            0x62414232 => TagSignature::BRDFAToB2Tag,
            0x62414233 => TagSignature::BRDFAToB3Tag,
            0x62444230 => TagSignature::BRDFDToB0Tag,
            0x62444231 => TagSignature::BRDFDToB1Tag,
            0x62444232 => TagSignature::BRDFDToB2Tag,
            0x62444233 => TagSignature::BRDFDToB3Tag,
            0x624D4230 => TagSignature::BRDFMToB0Tag,
            0x624D4231 => TagSignature::BRDFMToB1Tag,
            0x624D4232 => TagSignature::BRDFMToB2Tag,
            0x624D4233 => TagSignature::BRDFMToB3Tag,
            0x624D5330 => TagSignature::BRDFMToS0Tag,
            0x624D5331 => TagSignature::BRDFMToS1Tag,
            0x624D5332 => TagSignature::BRDFMToS2Tag,
            0x624D5333 => TagSignature::BRDFMToS3Tag,
            0x42324130 => TagSignature::BToA0Tag,
            0x42324131 => TagSignature::BToA1Tag,
            0x42324132 => TagSignature::BToA2Tag,
            0x42324133 => TagSignature::BToA3Tag,
            0x63616C74 => TagSignature::CalibrationDateTimeTag,
            0x74617267 => TagSignature::CharTargetTag,
            0x63686164 => TagSignature::ChromaticAdaptationTag,
            0x6368726D => TagSignature::ChromaticityTag,
            0x63657074 => TagSignature::ColorEncodingParamsTag,
            0x63736E6D => TagSignature::ColorSpaceNameTag,
            0x636C696E => TagSignature::ColorantInfoTag,
            0x636C696F => TagSignature::ColorantInfoOutTag,
            0x636C726F => TagSignature::ColorantOrderTag,
            0x636C6F6F => TagSignature::ColorantOrderOutTag,
            0x636C7274 => TagSignature::ColorantTableTag,
            0x636C6F74 => TagSignature::ColorantTableOutTag,
            0x63696973 => TagSignature::ColorimetricIntentImageStateTag,
            0x63707274 => TagSignature::CopyrightTag,
            0x63726469 => TagSignature::CrdInfoTag,
            0x63327370 => TagSignature::CustomToStandardPccTag,
            0x43784620 => TagSignature::CxFTag,
            0x64617461 => TagSignature::DataTag,
            0x6474696D => TagSignature::DateTimeTag,
            0x646D7770 => TagSignature::DeviceMediaWhitePointTag,
            0x646D6E64 => TagSignature::DeviceMfgDescTag,
            0x646D6464 => TagSignature::DeviceModelDescTag,
            0x64657673 => TagSignature::DeviceSettingsTag,
            0x44324230 => TagSignature::DToB0Tag,
            0x44324231 => TagSignature::DToB1Tag,
            0x44324232 => TagSignature::DToB2Tag,
            0x44324233 => TagSignature::DToB3Tag,
            0x42324430 => TagSignature::BToD0Tag,
            0x42324431 => TagSignature::BToD1Tag,
            0x42324432 => TagSignature::BToD2Tag,
            0x42324433 => TagSignature::BToD3Tag,
            0x67616D74 => TagSignature::GamutTag,
            0x67626430 => TagSignature::GamutBoundaryDescription0Tag,
            0x67626431 => TagSignature::GamutBoundaryDescription1Tag,
            0x67626432 => TagSignature::GamutBoundaryDescription2Tag,
            0x67626433 => TagSignature::GamutBoundaryDescription3Tag,
            0x6B545243 => TagSignature::GrayTRCTag,
            0x6758595A => TagSignature::GreenMatrixColumnTag,
            0x67545243 => TagSignature::GreenTRCTag,
            0x6C756D69 => TagSignature::LuminanceTag,
            0x6D647620 => TagSignature::MaterialDefaultValuesTag,
            0x6D637461 => TagSignature::MaterialTypeArrayTag,
            0x4D324130 => TagSignature::MToA0Tag,
            0x4D324230 => TagSignature::MToB0Tag,
            0x4D324231 => TagSignature::MToB1Tag,
            0x4D324232 => TagSignature::MToB2Tag,
            0x4D324233 => TagSignature::MToB3Tag,
            0x4D325330 => TagSignature::MToS0Tag,
            0x4D325331 => TagSignature::MToS1Tag,
            0x4D325332 => TagSignature::MToS2Tag,
            0x4D325333 => TagSignature::MToS3Tag,
            0x6D656173 => TagSignature::MeasurementTag,
            0x626B7074 => TagSignature::MediaBlackPointTag,
            0x77747074 => TagSignature::MediaWhitePointTag,
            0x6D657461 => TagSignature::MetaDataTag,
            0x6E636F6C => TagSignature::NamedColorTag,
            0x6E6D636C => TagSignature::NamedColorV5Tag,
            0x6E636C32 => TagSignature::NamedColor2Tag,
            0x72657370 => TagSignature::OutputResponseTag,
            0x72696730 => TagSignature::PerceptualRenderingIntentGamutTag,
            0x70726530 => TagSignature::Preview0Tag,
            0x70726531 => TagSignature::Preview1Tag,
            0x70726532 => TagSignature::Preview2Tag,
            0x7074636E => TagSignature::PrintConditionTag,
            0x64657363 => TagSignature::ProfileDescriptionTag,
            0x70736571 => TagSignature::ProfileSequenceDescTag,
            0x70736964 => TagSignature::ProfileSequceIdTag,
            0x70736430 => TagSignature::Ps2CRD0Tag,
            0x70736431 => TagSignature::Ps2CRD1Tag,
            0x70736432 => TagSignature::Ps2CRD2Tag,
            0x70736433 => TagSignature::Ps2CRD3Tag,
            0x70733273 => TagSignature::Ps2CSATag,
            0x70733269 => TagSignature::Ps2RenderingIntentTag,
            0x7258595A => TagSignature::RedMatrixColumnTag,
            0x72545243 => TagSignature::RedTRCTag,
            0x72666E6D => TagSignature::ReferenceNameTag,
            0x72696732 => TagSignature::SaturationRenderingIntentGamutTag,
            0x73637264 => TagSignature::ScreeningDescTag,
            0x7363726E => TagSignature::ScreeningTag,
            0x7364696E => TagSignature::SpectralDataInfoTag,
            0x73777074 => TagSignature::SpectralWhitePointTag,
            0x7376636E => TagSignature::SpectralViewingConditionsTag,
            0x73326370 => TagSignature::StandardToCustomPccTag,
            0x736D6170 => TagSignature::SurfaceMapTag,
            0x74656368 => TagSignature::TechnologyTag,
            0x62666420 => TagSignature::UcrBgTag,
            0x76756564 => TagSignature::ViewingCondDescTag,
            0x76696577 => TagSignature::ViewingConditionsTag,
            0x49434335 => TagSignature::EmbeddedV5ProfileTag,
            0x6D6D6F64 => TagSignature::MakeAndModelTag,
            0x6473636D => TagSignature::MultilocalizedDescriptionStringTag,
            0x6E64696E => TagSignature::NativeDisplayInfoTag,
            0x76636774 => TagSignature::VcgtTag,
            0x76636770 => TagSignature::VcgpTag,
            0x61727473 => TagSignature::AbsToRelTransSpaceTag,
            other => TagSignature::Unknown(other),
        }
    }

    /// Creates the signature for a four-byte code.
    pub fn new(tag: u32) -> (sig: TagSignature)
        ensures
            sig == TagSignature::from_code(tag),
    {
        match tag {
            0x41324230 => TagSignature::AToB0Tag,
            0x41324231 => TagSignature::AToB1Tag,
            0x41324232 => TagSignature::AToB2Tag,
            0x41324233 => TagSignature::AToB3Tag,
            0x41324D30 => TagSignature::AToM0Tag,
            0x6258595A => TagSignature::BlueMatrixColumnTag,
            0x62545243 => TagSignature::BlueTRCTag,
            0x62637030 => TagSignature::BrdfColorimetricParameter0Tag,
            0x62637031 => TagSignature::BrdfColorimetricParameter1Tag,
            0x62637032 => TagSignature::BrdfColorimetricParameter2Tag,
            0x62637033 => TagSignature::BrdfColorimetricParameter3Tag,
            0x62737030 => TagSignature::BrdfSpectralParameter0Tag,
            0x62737031 => TagSignature::BrdfSpectralParameter1Tag,
            0x62737032 => TagSignature::BrdfSpectralParameter2Tag,
            0x62737033 => TagSignature::BrdfSpectralParameter3Tag,
            0x62414230 => TagSignature::BRDFAToB0Tag,
            0x62414231 => TagSignature::BRDFAToB1Tag,
            0x62414232 => TagSignature::BRDFAToB2Tag,
            0x62414233 => TagSignature::BRDFAToB3Tag,
            0x62444230 => TagSignature::BRDFDToB0Tag,
            0x62444231 => TagSignature::BRDFDToB1Tag,
            0x62444232 => TagSignature::BRDFDToB2Tag,
            0x62444233 => TagSignature::BRDFDToB3Tag,
            0x624D4230 => TagSignature::BRDFMToB0Tag,
            0x624D4231 => TagSignature::BRDFMToB1Tag,
            0x624D4232 => TagSignature::BRDFMToB2Tag,
            0x624D4233 => TagSignature::BRDFMToB3Tag,
            0x624D5330 => TagSignature::BRDFMToS0Tag,
            0x624D5331 => TagSignature::BRDFMToS1Tag,
            0x624D5332 => TagSignature::BRDFMToS2Tag,
            0x624D5333 => TagSignature::BRDFMToS3Tag,
            0x42324130 => TagSignature::BToA0Tag,
            0x42324131 => TagSignature::BToA1Tag,
            0x42324132 => TagSignature::BToA2Tag,
            0x42324133 => TagSignature::BToA3Tag,
            0x63616C74 => TagSignature::CalibrationDateTimeTag,
            0x74617267 => TagSignature::CharTargetTag,
            0x63686164 => TagSignature::ChromaticAdaptationTag,
            0x6368726D => TagSignature::ChromaticityTag,
            0x63657074 => TagSignature::ColorEncodingParamsTag,
            0x63736E6D => TagSignature::ColorSpaceNameTag,
            0x636C696E => TagSignature::ColorantInfoTag,
            0x636C696F => TagSignature::ColorantInfoOutTag,
            0x636C726F => TagSignature::ColorantOrderTag,
            0x636C6F6F => TagSignature::ColorantOrderOutTag,
            0x636C7274 => TagSignature::ColorantTableTag,
            0x636C6F74 => TagSignature::ColorantTableOutTag,
            0x63696973 => TagSignature::ColorimetricIntentImageStateTag,
            0x63707274 => TagSignature::CopyrightTag,
            0x63726469 => TagSignature::CrdInfoTag,
            0x63327370 => TagSignature::CustomToStandardPccTag,
            0x43784620 => TagSignature::CxFTag,
            0x64617461 => TagSignature::DataTag,
            0x6474696D => TagSignature::DateTimeTag,
            0x646D7770 => TagSignature::DeviceMediaWhitePointTag,
            0x646D6E64 => TagSignature::DeviceMfgDescTag,
            0x646D6464 => TagSignature::DeviceModelDescTag,
            0x64657673 => TagSignature::DeviceSettingsTag,
            0x44324230 => TagSignature::DToB0Tag,
            0x44324231 => TagSignature::DToB1Tag,
            0x44324232 => TagSignature::DToB2Tag,
            0x44324233 => TagSignature::DToB3Tag,
            0x42324430 => TagSignature::BToD0Tag,
            0x42324431 => TagSignature::BToD1Tag,
            0x42324432 => TagSignature::BToD2Tag,
            0x42324433 => TagSignature::BToD3Tag,
            0x67616D74 => TagSignature::GamutTag,
            0x67626430 => TagSignature::GamutBoundaryDescription0Tag,
            0x67626431 => TagSignature::GamutBoundaryDescription1Tag,
            0x67626432 => TagSignature::GamutBoundaryDescription2Tag,
            0x67626433 => TagSignature::GamutBoundaryDescription3Tag,
            0x6B545243 => TagSignature::GrayTRCTag,
            0x6758595A => TagSignature::GreenMatrixColumnTag,
            0x67545243 => TagSignature::GreenTRCTag,
            0x6C756D69 => TagSignature::LuminanceTag,
            0x6D647620 => TagSignature::MaterialDefaultValuesTag,
            0x6D637461 => TagSignature::MaterialTypeArrayTag,
            0x4D324130 => TagSignature::MToA0Tag,
            0x4D324230 => TagSignature::MToB0Tag,
            0x4D324231 => TagSignature::MToB1Tag,
            0x4D324232 => TagSignature::MToB2Tag,
            0x4D324233 => TagSignature::MToB3Tag,
            0x4D325330 => TagSignature::MToS0Tag,
            0x4D325331 => TagSignature::MToS1Tag,
            0x4D325332 => TagSignature::MToS2Tag,
            0x4D325333 => TagSignature::MToS3Tag,
            0x6D656173 => TagSignature::MeasurementTag,
            0x626B7074 => TagSignature::MediaBlackPointTag,
            0x77747074 => TagSignature::MediaWhitePointTag,
            0x6D657461 => TagSignature::MetaDataTag,
            0x6E636F6C => TagSignature::NamedColorTag,
            0x6E6D636C => TagSignature::NamedColorV5Tag,
            0x6E636C32 => TagSignature::NamedColor2Tag,
            0x72657370 => TagSignature::OutputResponseTag,
            0x72696730 => TagSignature::PerceptualRenderingIntentGamutTag,
            0x70726530 => TagSignature::Preview0Tag,
            0x70726531 => TagSignature::Preview1Tag,
            0x70726532 => TagSignature::Preview2Tag,
            0x7074636E => TagSignature::PrintConditionTag,
            0x64657363 => TagSignature::ProfileDescriptionTag,
            0x70736571 => TagSignature::ProfileSequenceDescTag,
            0x70736964 => TagSignature::ProfileSequceIdTag,
            0x70736430 => TagSignature::Ps2CRD0Tag,
            0x70736431 => TagSignature::Ps2CRD1Tag,
            0x70736432 => TagSignature::Ps2CRD2Tag,
            0x70736433 => TagSignature::Ps2CRD3Tag,
            0x70733273 => TagSignature::Ps2CSATag,
            0x70733269 => TagSignature::Ps2RenderingIntentTag,
            0x7258595A => TagSignature::RedMatrixColumnTag,
            0x72545243 => TagSignature::RedTRCTag,
            0x72666E6D => TagSignature::ReferenceNameTag,
            0x72696732 => TagSignature::SaturationRenderingIntentGamutTag,
            0x73637264 => TagSignature::ScreeningDescTag,
            0x7363726E => TagSignature::ScreeningTag,
            0x7364696E => TagSignature::SpectralDataInfoTag,
            0x73777074 => TagSignature::SpectralWhitePointTag,
            0x7376636E => TagSignature::SpectralViewingConditionsTag,
            0x73326370 => TagSignature::StandardToCustomPccTag,
            0x736D6170 => TagSignature::SurfaceMapTag,
            0x74656368 => TagSignature::TechnologyTag,
            0x62666420 => TagSignature::UcrBgTag,
            0x76756564 => TagSignature::ViewingCondDescTag,
            0x76696577 => TagSignature::ViewingConditionsTag,
            0x49434335 => TagSignature::EmbeddedV5ProfileTag,
            0x6D6D6F64 => TagSignature::MakeAndModelTag,
            0x6473636D => TagSignature::MultilocalizedDescriptionStringTag,
            0x6E64696E => TagSignature::NativeDisplayInfoTag,
            0x76636774 => TagSignature::VcgtTag,
            0x76636770 => TagSignature::VcgpTag,
            0x61727473 => TagSignature::AbsToRelTransSpaceTag,
            other => TagSignature::Unknown(other),
        }
    }

    /// Shows the signature: its four characters when they are ASCII, else eight
    /// uppercase hexadecimal digits.
    pub fn to_string(&self) -> (s: String)
        ensures
            s@ == code_text(self.code()),
    {
        code_to_string(self.to_u32())
    }

    /// Returns the four-byte code of this signature.
    pub fn to_u32(&self) -> (code: u32)
        ensures
            code == self.code(),
    {
        match self {
            TagSignature::AToB0Tag => 0x41324230,
            TagSignature::AToB1Tag => 0x41324231,
            TagSignature::AToB2Tag => 0x41324232,
            TagSignature::AToB3Tag => 0x41324233,
            TagSignature::AToM0Tag => 0x41324D30,
            TagSignature::BlueMatrixColumnTag => 0x6258595A,
            TagSignature::BlueTRCTag => 0x62545243,
            TagSignature::BrdfColorimetricParameter0Tag => 0x62637030,
            TagSignature::BrdfColorimetricParameter1Tag => 0x62637031,
            TagSignature::BrdfColorimetricParameter2Tag => 0x62637032,
            TagSignature::BrdfColorimetricParameter3Tag => 0x62637033,
            TagSignature::BrdfSpectralParameter0Tag => 0x62737030,
            TagSignature::BrdfSpectralParameter1Tag => 0x62737031,
            TagSignature::BrdfSpectralParameter2Tag => 0x62737032,
            TagSignature::BrdfSpectralParameter3Tag => 0x62737033,
            TagSignature::BRDFAToB0Tag => 0x62414230,
            TagSignature::BRDFAToB1Tag => 0x62414231,
            TagSignature::BRDFAToB2Tag => 0x62414232,
            TagSignature::BRDFAToB3Tag => 0x62414233,
            TagSignature::BRDFDToB0Tag => 0x62444230,
            TagSignature::BRDFDToB1Tag => 0x62444231,
            TagSignature::BRDFDToB2Tag => 0x62444232,
            TagSignature::BRDFDToB3Tag => 0x62444233,
            TagSignature::BRDFMToB0Tag => 0x624D4230,
            TagSignature::BRDFMToB1Tag => 0x624D4231,
            TagSignature::BRDFMToB2Tag => 0x624D4232,
            TagSignature::BRDFMToB3Tag => 0x624D4233,
            TagSignature::BRDFMToS0Tag => 0x624D5330,
            TagSignature::BRDFMToS1Tag => 0x624D5331,
            TagSignature::BRDFMToS2Tag => 0x624D5332,
            TagSignature::BRDFMToS3Tag => 0x624D5333,
            TagSignature::BToA0Tag => 0x42324130,
            TagSignature::BToA1Tag => 0x42324131,
            TagSignature::BToA2Tag => 0x42324132,
            TagSignature::BToA3Tag => 0x42324133,
            TagSignature::CalibrationDateTimeTag => 0x63616C74,
            TagSignature::CharTargetTag => 0x74617267,
            TagSignature::ChromaticAdaptationTag => 0x63686164,
            TagSignature::ChromaticityTag => 0x6368726D,
            TagSignature::ColorEncodingParamsTag => 0x63657074,
            TagSignature::ColorSpaceNameTag => 0x63736E6D,
            TagSignature::ColorantInfoTag => 0x636C696E,
            TagSignature::ColorantInfoOutTag => 0x636C696F,
            TagSignature::ColorantOrderTag => 0x636C726F,
            TagSignature::ColorantOrderOutTag => 0x636C6F6F,
            TagSignature::ColorantTableTag => 0x636C7274,
            TagSignature::ColorantTableOutTag => 0x636C6F74,
            TagSignature::ColorimetricIntentImageStateTag => 0x63696973,
            TagSignature::CopyrightTag => 0x63707274,
            TagSignature::CrdInfoTag => 0x63726469,
            TagSignature::CustomToStandardPccTag => 0x63327370,
            TagSignature::CxFTag => 0x43784620,
            TagSignature::DataTag => 0x64617461,
            TagSignature::DateTimeTag => 0x6474696D,
            TagSignature::DeviceMediaWhitePointTag => 0x646D7770,
            TagSignature::DeviceMfgDescTag => 0x646D6E64,
            TagSignature::DeviceModelDescTag => 0x646D6464,
            TagSignature::DeviceSettingsTag => 0x64657673,
            TagSignature::DToB0Tag => 0x44324230,
            TagSignature::DToB1Tag => 0x44324231,
            TagSignature::DToB2Tag => 0x44324232,
            TagSignature::DToB3Tag => 0x44324233,
            TagSignature::BToD0Tag => 0x42324430,
            TagSignature::BToD1Tag => 0x42324431,
            TagSignature::BToD2Tag => 0x42324432,
            TagSignature::BToD3Tag => 0x42324433,
            TagSignature::GamutTag => 0x67616D74,
            TagSignature::GamutBoundaryDescription0Tag => 0x67626430,
            TagSignature::GamutBoundaryDescription1Tag => 0x67626431,
            TagSignature::GamutBoundaryDescription2Tag => 0x67626432,
            TagSignature::GamutBoundaryDescription3Tag => 0x67626433,
            TagSignature::GrayTRCTag => 0x6B545243,
            TagSignature::GreenMatrixColumnTag => 0x6758595A,
            TagSignature::GreenTRCTag => 0x67545243,
            TagSignature::LuminanceTag => 0x6C756D69,
            TagSignature::MaterialDefaultValuesTag => 0x6D647620,
            TagSignature::MaterialTypeArrayTag => 0x6D637461,
            TagSignature::MToA0Tag => 0x4D324130,
            TagSignature::MToB0Tag => 0x4D324230,
            TagSignature::MToB1Tag => 0x4D324231,
            TagSignature::MToB2Tag => 0x4D324232,
            TagSignature::MToB3Tag => 0x4D324233,
            TagSignature::MToS0Tag => 0x4D325330,
            TagSignature::MToS1Tag => 0x4D325331,
            TagSignature::MToS2Tag => 0x4D325332,
            TagSignature::MToS3Tag => 0x4D325333,
            TagSignature::MeasurementTag => 0x6D656173,
            TagSignature::MediaBlackPointTag => 0x626B7074,
            TagSignature::MediaWhitePointTag => 0x77747074,
            TagSignature::MetaDataTag => 0x6D657461,
            TagSignature::NamedColorTag => 0x6E636F6C,
            TagSignature::NamedColorV5Tag => 0x6E6D636C,
            TagSignature::NamedColor2Tag => 0x6E636C32,
            TagSignature::OutputResponseTag => 0x72657370,
            TagSignature::PerceptualRenderingIntentGamutTag => 0x72696730,
            TagSignature::Preview0Tag => 0x70726530,
            TagSignature::Preview1Tag => 0x70726531,
            TagSignature::Preview2Tag => 0x70726532,
            TagSignature::PrintConditionTag => 0x7074636E,
            TagSignature::ProfileDescriptionTag => 0x64657363,
            TagSignature::ProfileSequenceDescTag => 0x70736571,
            TagSignature::ProfileSequceIdTag => 0x70736964,
            TagSignature::Ps2CRD0Tag => 0x70736430,
            TagSignature::Ps2CRD1Tag => 0x70736431,
            TagSignature::Ps2CRD2Tag => 0x70736432,
            TagSignature::Ps2CRD3Tag => 0x70736433,
            TagSignature::Ps2CSATag => 0x70733273,
            TagSignature::Ps2RenderingIntentTag => 0x70733269,
            TagSignature::RedMatrixColumnTag => 0x7258595A,
            TagSignature::RedTRCTag => 0x72545243,
            TagSignature::ReferenceNameTag => 0x72666E6D,
            TagSignature::SaturationRenderingIntentGamutTag => 0x72696732,
            TagSignature::ScreeningDescTag => 0x73637264,
            TagSignature::ScreeningTag => 0x7363726E,
            TagSignature::SpectralDataInfoTag => 0x7364696E,
            TagSignature::SpectralWhitePointTag => 0x73777074,
            TagSignature::SpectralViewingConditionsTag => 0x7376636E,
            TagSignature::StandardToCustomPccTag => 0x73326370,
            TagSignature::SurfaceMapTag => 0x736D6170,
            TagSignature::TechnologyTag => 0x74656368,
            TagSignature::UcrBgTag => 0x62666420,
            TagSignature::ViewingCondDescTag => 0x76756564,
            TagSignature::ViewingConditionsTag => 0x76696577,
            TagSignature::EmbeddedV5ProfileTag => 0x49434335,
            TagSignature::MakeAndModelTag => 0x6D6D6F64,
            TagSignature::MultilocalizedDescriptionStringTag => 0x6473636D,
            TagSignature::NativeDisplayInfoTag => 0x6E64696E,
            TagSignature::VcgtTag => 0x76636774,
            TagSignature::VcgpTag => 0x76636770,
            TagSignature::AbsToRelTransSpaceTag => 0x61727473,
            TagSignature::Unknown(value) => *value,
        }
    }

    /// Decoding a code and encoding the result gives the code back, for every code.
    pub proof fn lemma_code_of_from_code(code: u32)
        ensures
            TagSignature::from_code(code).code() == code,
    {
    }

    /// Encoding a named signature and decoding the code gives the signature back.
    pub proof fn lemma_from_code_of_code(sig: TagSignature)
        requires
            !(sig is Unknown),
        ensures
            TagSignature::from_code(sig.code()) == sig,
    {
    }
}

impl TagSignature {
    /// The four characters of the ICC name of a named signature, as the ICC
    /// specification writes them (e.g. `bTRC` for the blue tone curve); `None`
    /// for `Unknown`.
    pub open spec fn icc_name(self) -> Option<(char, char, char, char)> {
        match self {
            TagSignature::AToB0Tag => Some(('A', '2', 'B', '0')),
            TagSignature::AToB1Tag => Some(('A', '2', 'B', '1')),
            TagSignature::AToB2Tag => Some(('A', '2', 'B', '2')),
            TagSignature::AToB3Tag => Some(('A', '2', 'B', '3')),
            TagSignature::AToM0Tag => Some(('A', '2', 'M', '0')),
            TagSignature::BlueMatrixColumnTag => Some(('b', 'X', 'Y', 'Z')),
            TagSignature::BlueTRCTag => Some(('b', 'T', 'R', 'C')),
            TagSignature::BrdfColorimetricParameter0Tag => Some(('b', 'c', 'p', '0')),
            TagSignature::BrdfColorimetricParameter1Tag => Some(('b', 'c', 'p', '1')),
            TagSignature::BrdfColorimetricParameter2Tag => Some(('b', 'c', 'p', '2')),
            TagSignature::BrdfColorimetricParameter3Tag => Some(('b', 'c', 'p', '3')),
            TagSignature::BrdfSpectralParameter0Tag => Some(('b', 's', 'p', '0')),
            TagSignature::BrdfSpectralParameter1Tag => Some(('b', 's', 'p', '1')),
            TagSignature::BrdfSpectralParameter2Tag => Some(('b', 's', 'p', '2')),
            TagSignature::BrdfSpectralParameter3Tag => Some(('b', 's', 'p', '3')),
            TagSignature::BRDFAToB0Tag => Some(('b', 'A', 'B', '0')),
            TagSignature::BRDFAToB1Tag => Some(('b', 'A', 'B', '1')),
            TagSignature::BRDFAToB2Tag => Some(('b', 'A', 'B', '2')),
            TagSignature::BRDFAToB3Tag => Some(('b', 'A', 'B', '3')),
            TagSignature::BRDFDToB0Tag => Some(('b', 'D', 'B', '0')),
            TagSignature::BRDFDToB1Tag => Some(('b', 'D', 'B', '1')),
            TagSignature::BRDFDToB2Tag => Some(('b', 'D', 'B', '2')),
            TagSignature::BRDFDToB3Tag => Some(('b', 'D', 'B', '3')),
            TagSignature::BRDFMToB0Tag => Some(('b', 'M', 'B', '0')),
            TagSignature::BRDFMToB1Tag => Some(('b', 'M', 'B', '1')),
            TagSignature::BRDFMToB2Tag => Some(('b', 'M', 'B', '2')),
            TagSignature::BRDFMToB3Tag => Some(('b', 'M', 'B', '3')),
            TagSignature::BRDFMToS0Tag => Some(('b', 'M', 'S', '0')),
            TagSignature::BRDFMToS1Tag => Some(('b', 'M', 'S', '1')),
            TagSignature::BRDFMToS2Tag => Some(('b', 'M', 'S', '2')),
            TagSignature::BRDFMToS3Tag => Some(('b', 'M', 'S', '3')),
            TagSignature::BToA0Tag => Some(('B', '2', 'A', '0')),
            TagSignature::BToA1Tag => Some(('B', '2', 'A', '1')),
            TagSignature::BToA2Tag => Some(('B', '2', 'A', '2')),
            TagSignature::BToA3Tag => Some(('B', '2', 'A', '3')),
            TagSignature::CalibrationDateTimeTag => Some(('c', 'a', 'l', 't')),
            TagSignature::CharTargetTag => Some(('t', 'a', 'r', 'g')),
            TagSignature::ChromaticAdaptationTag => Some(('c', 'h', 'a', 'd')),
            TagSignature::ChromaticityTag => Some(('c', 'h', 'r', 'm')),
            TagSignature::ColorEncodingParamsTag => Some(('c', 'e', 'p', 't')),
            TagSignature::ColorSpaceNameTag => Some(('c', 's', 'n', 'm')),
            TagSignature::ColorantInfoTag => Some(('c', 'l', 'i', 'n')),
            TagSignature::ColorantInfoOutTag => Some(('c', 'l', 'i', 'o')),
            TagSignature::ColorantOrderTag => Some(('c', 'l', 'r', 'o')),
            TagSignature::ColorantOrderOutTag => Some(('c', 'l', 'o', 'o')),
            TagSignature::ColorantTableTag => Some(('c', 'l', 'r', 't')),
            TagSignature::ColorantTableOutTag => Some(('c', 'l', 'o', 't')),
            TagSignature::ColorimetricIntentImageStateTag => Some(('c', 'i', 'i', 's')),
            TagSignature::CopyrightTag => Some(('c', 'p', 'r', 't')),
            TagSignature::CrdInfoTag => Some(('c', 'r', 'd', 'i')),
            TagSignature::CustomToStandardPccTag => Some(('c', '2', 's', 'p')),
            TagSignature::CxFTag => Some(('C', 'x', 'F', ' ')),
            TagSignature::DataTag => Some(('d', 'a', 't', 'a')),
            TagSignature::DateTimeTag => Some(('d', 't', 'i', 'm')),
            TagSignature::DeviceMediaWhitePointTag => Some(('d', 'm', 'w', 'p')),
            TagSignature::DeviceMfgDescTag => Some(('d', 'm', 'n', 'd')),
            TagSignature::DeviceModelDescTag => Some(('d', 'm', 'd', 'd')),
            TagSignature::DeviceSettingsTag => Some(('d', 'e', 'v', 's')),
            TagSignature::DToB0Tag => Some(('D', '2', 'B', '0')),
            TagSignature::DToB1Tag => Some(('D', '2', 'B', '1')),
            TagSignature::DToB2Tag => Some(('D', '2', 'B', '2')),
            TagSignature::DToB3Tag => Some(('D', '2', 'B', '3')),
            TagSignature::BToD0Tag => Some(('B', '2', 'D', '0')),
            TagSignature::BToD1Tag => Some(('B', '2', 'D', '1')),
            TagSignature::BToD2Tag => Some(('B', '2', 'D', '2')),
            TagSignature::BToD3Tag => Some(('B', '2', 'D', '3')),
            TagSignature::GamutTag => Some(('g', 'a', 'm', 't')),
            TagSignature::GamutBoundaryDescription0Tag => Some(('g', 'b', 'd', '0')),
            TagSignature::GamutBoundaryDescription1Tag => Some(('g', 'b', 'd', '1')),
            TagSignature::GamutBoundaryDescription2Tag => Some(('g', 'b', 'd', '2')),
            TagSignature::GamutBoundaryDescription3Tag => Some(('g', 'b', 'd', '3')),
            TagSignature::GrayTRCTag => Some(('k', 'T', 'R', 'C')),
            TagSignature::GreenMatrixColumnTag => Some(('g', 'X', 'Y', 'Z')),
            TagSignature::GreenTRCTag => Some(('g', 'T', 'R', 'C')),
            TagSignature::LuminanceTag => Some(('l', 'u', 'm', 'i')),
            TagSignature::MaterialDefaultValuesTag => Some(('m', 'd', 'v', ' ')),
            TagSignature::MaterialTypeArrayTag => Some(('m', 'c', 't', 'a')),
            TagSignature::MToA0Tag => Some(('M', '2', 'A', '0')),
            TagSignature::MToB0Tag => Some(('M', '2', 'B', '0')),
            TagSignature::MToB1Tag => Some(('M', '2', 'B', '1')),
            TagSignature::MToB2Tag => Some(('M', '2', 'B', '2')),
            TagSignature::MToB3Tag => Some(('M', '2', 'B', '3')),
            TagSignature::MToS0Tag => Some(('M', '2', 'S', '0')),
            TagSignature::MToS1Tag => Some(('M', '2', 'S', '1')),
            TagSignature::MToS2Tag => Some(('M', '2', 'S', '2')),
            TagSignature::MToS3Tag => Some(('M', '2', 'S', '3')),
            TagSignature::MeasurementTag => Some(('m', 'e', 'a', 's')),
            TagSignature::MediaBlackPointTag => Some(('b', 'k', 'p', 't')),
            TagSignature::MediaWhitePointTag => Some(('w', 't', 'p', 't')),
            TagSignature::MetaDataTag => Some(('m', 'e', 't', 'a')),
            TagSignature::NamedColorTag => Some(('n', 'c', 'o', 'l')),
            TagSignature::NamedColorV5Tag => Some(('n', 'm', 'c', 'l')),
            TagSignature::NamedColor2Tag => Some(('n', 'c', 'l', '2')),
            TagSignature::OutputResponseTag => Some(('r', 'e', 's', 'p')),
            TagSignature::PerceptualRenderingIntentGamutTag => Some(('r', 'i', 'g', '0')),
            TagSignature::Preview0Tag => Some(('p', 'r', 'e', '0')),
            TagSignature::Preview1Tag => Some(('p', 'r', 'e', '1')),
            TagSignature::Preview2Tag => Some(('p', 'r', 'e', '2')),
            TagSignature::PrintConditionTag => Some(('p', 't', 'c', 'n')),
            TagSignature::ProfileDescriptionTag => Some(('d', 'e', 's', 'c')),
            TagSignature::ProfileSequenceDescTag => Some(('p', 's', 'e', 'q')),
            TagSignature::ProfileSequceIdTag => Some(('p', 's', 'i', 'd')),
            TagSignature::Ps2CRD0Tag => Some(('p', 's', 'd', '0')),
            TagSignature::Ps2CRD1Tag => Some(('p', 's', 'd', '1')),
            TagSignature::Ps2CRD2Tag => Some(('p', 's', 'd', '2')),
            TagSignature::Ps2CRD3Tag => Some(('p', 's', 'd', '3')),
            TagSignature::Ps2CSATag => Some(('p', 's', '2', 's')),
            TagSignature::Ps2RenderingIntentTag => Some(('p', 's', '2', 'i')),
            TagSignature::RedMatrixColumnTag => Some(('r', 'X', 'Y', 'Z')),
            TagSignature::RedTRCTag => Some(('r', 'T', 'R', 'C')),
            TagSignature::ReferenceNameTag => Some(('r', 'f', 'n', 'm')),
            TagSignature::SaturationRenderingIntentGamutTag => Some(('r', 'i', 'g', '2')),
            TagSignature::ScreeningDescTag => Some(('s', 'c', 'r', 'd')),
            TagSignature::ScreeningTag => Some(('s', 'c', 'r', 'n')),
            TagSignature::SpectralDataInfoTag => Some(('s', 'd', 'i', 'n')),
            TagSignature::SpectralWhitePointTag => Some(('s', 'w', 'p', 't')),
            TagSignature::SpectralViewingConditionsTag => Some(('s', 'v', 'c', 'n')),
            TagSignature::StandardToCustomPccTag => Some(('s', '2', 'c', 'p')),
            TagSignature::SurfaceMapTag => Some(('s', 'm', 'a', 'p')),
            TagSignature::TechnologyTag => Some(('t', 'e', 'c', 'h')),
            TagSignature::UcrBgTag => Some(('b', 'f', 'd', ' ')),
            TagSignature::ViewingCondDescTag => Some(('v', 'u', 'e', 'd')),
            TagSignature::ViewingConditionsTag => Some(('v', 'i', 'e', 'w')),
            TagSignature::EmbeddedV5ProfileTag => Some(('I', 'C', 'C', '5')),
            TagSignature::MakeAndModelTag => Some(('m', 'm', 'o', 'd')),
            TagSignature::MultilocalizedDescriptionStringTag => Some(('d', 's', 'c', 'm')),
            TagSignature::NativeDisplayInfoTag => Some(('n', 'd', 'i', 'n')),
            TagSignature::VcgtTag => Some(('v', 'c', 'g', 't')),
            TagSignature::VcgpTag => Some(('v', 'c', 'g', 'p')),
            TagSignature::AbsToRelTransSpaceTag => Some(('a', 'r', 't', 's')),
            TagSignature::Unknown(_) => None,
        }
    }

    /// Each named signature is written as the big-endian code of the four
    /// characters of its ICC name, and that code is read back as the same
    /// signature; an `Unknown` signature keeps its code both ways.
    pub proof fn law_codes_are_icc_names(sig: TagSignature)
        ensures
            sig.icc_name() matches Some(n) ==> sig.code() == fourcc(n),
            sig.icc_name() matches Some(n) ==> TagSignature::from_code(fourcc(n)) == sig,
            sig matches TagSignature::Unknown(v) ==> sig.code() == v,
    {
    }
}

} // verus!
