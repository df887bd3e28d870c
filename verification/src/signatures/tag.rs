//! Tag signatures by name: every tag of ICC versions 2 to 5, and any other tag
//! by its four-character text.

use vstd::prelude::*;

use crate::bytes::{be_bytes_u32, u32_to_be};
use crate::text::{decode_utf8, utf8_decode};

verus! {

/// A tag signature: a named tag of ICC versions 2 to 5, or `VendorTag` with
/// the text of any other four-byte code.
#[derive(PartialEq, Clone, Debug)]
pub enum TagSignature {
    VendorTag(String),
    AToB0Tag,  // 'A2B0'
    AToB1Tag,  // 'A2B1'
    AToB2Tag,  // 'A2B2'
    AToB3Tag,  // 'A2B3'
    AToM0Tag,  // 'A2M0'
    BlueMatrixColumnTag,  // 'bXYZ'
    BlueTRCTag,  // 'bTRC'
    BrdfColorimetricParameter0Tag,  // 'bcp0'
    BrdfColorimetricParameter1Tag,  // 'bcp1'
    BrdfColorimetricParameter2Tag,  // 'bcp2'
    BrdfColorimetricParameter3Tag,  // 'bcp3'
    BrdfSpectralParameter0Tag,  // 'bsp0'
    BrdfSpectralParameter1Tag,  // 'bsp1'
    BrdfSpectralParameter2Tag,  // 'bsp2'
    BrdfSpectralParameter3Tag,  // 'bsp3'
    BRDFAToB0Tag,  // 'bAB0'
    BRDFAToB1Tag,  // 'bAB1'
    BRDFAToB2Tag,  // 'bAB2'
    BRDFAToB3Tag,  // 'bAB3'
    BRDFDToB0Tag,  // 'bDB0'
    BRDFDToB1Tag,  // 'bDB1'
    BRDFDToB2Tag,  // 'bDB2'
    BRDFDToB3Tag,  // 'bDB3'
    BRDFMToB0Tag,  // 'bMB0'
    BRDFMToB1Tag,  // 'bMB1'
    BRDFMToB2Tag,  // 'bMB2'
    BRDFMToB3Tag,  // 'bMB3'
    BRDFMToS0Tag,  // 'bMS0'
    BRDFMToS1Tag,  // 'bMS1'
    BRDFMToS2Tag,  // 'bMS2'
    BRDFMToS3Tag,  // 'bMS3'
    BToA0Tag,  // 'B2A0'
    BToA1Tag,  // 'B2A1'
    BToA2Tag,  // 'B2A2'
    BToA3Tag,  // 'B2A3'
    CalibrationDateTimeTag,  // 'calt'
    CharTargetTag,  // 'targ'
    ChromaticAdaptationTag,  // 'chad'
    ChromaticityTag,  // 'chrm'
    ColorEncodingParamsTag,  // 'cept'
    ColorSpaceNameTag,  // 'csnm'
    ColorantInfoTag,  // 'clin'
    ColorantInfoOutTag,  // 'clio'
    ColorantOrderTag,  // 'clro'
    ColorantOrderOutTag,  // 'cloo'
    ColorantTableTag,  // 'clrt'
    ColorantTableOutTag,  // 'clot'
    ColorimetricIntentImageStateTag,  // 'ciis'
    CopyrightTag,  // 'cprt'
    CrdInfoTag,  // 'crdi' Removed in V4
    CustomToStandardPccTag,  // 'c2sp'
    CxFTag,  // 'CxF '
    DataTag,  // 'data' Removed in V4
    DateTimeTag,  // 'dtim' Removed in V4
    DeviceMediaWhitePointTag,  // 'dmwp'
    DeviceMfgDescTag,  // 'dmnd'
    DeviceModelDescTag,  // 'dmdd'
    DeviceSettingsTag,  // 'devs' Removed in V4
    DToB0Tag,  // 'D2B0'
    DToB1Tag,  // 'D2B1'
    DToB2Tag,  // 'D2B2'
    DToB3Tag,  // 'D2B3'
    BToD0Tag,  // 'B2D0'
    BToD1Tag,  // 'B2D1'
    BToD2Tag,  // 'B2D2'
    BToD3Tag,  // 'B2D3'
    GamutTag,  // 'gamt'
    GamutBoundaryDescription0Tag,  // 'gbd0'
    GamutBoundaryDescription1Tag,  // 'gbd1'
    GamutBoundaryDescription2Tag,  // 'gbd2'
    GamutBoundaryDescription3Tag,  // 'gbd3'
    GrayTRCTag,  // 'kTRC'
    GreenMatrixColumnTag,  // 'gXYZ'
    GreenTRCTag,  // 'gTRC'
    LuminanceTag,  // 'lumi'
    MaterialDefaultValuesTag,  // 'mdv '
    MaterialTypeArrayTag,  // 'mcta'
    MToA0Tag,  // 'M2A0'
    MToB0Tag,  // 'M2B0'
    MToB1Tag,  // 'M2B1'
    MToB2Tag,  // 'M2B2'
    MToB3Tag,  // 'M2B3'
    MToS0Tag,  // 'M2S0'
    MToS1Tag,  // 'M2S1'
    MToS2Tag,  // 'M2S2'
    MToS3Tag,  // 'M2S3'
    MeasurementTag,  // 'meas'
    MediaBlackPointTag,  // 'bkpt'
    MediaWhitePointTag,  // 'wtpt'
    MetaDataTag,  // 'meta'
    NamedColorTag,  // 'ncol' OBSOLETE, use ncl2
    NamedColorV5Tag,  // 'nmcl' use for V5;  GH Added V5 to distinguish from V2
    NamedColor2Tag,  // 'ncl2'
    OutputResponseTag,  // 'resp'
    PerceptualRenderingIntentGamutTag,  // 'rig0'
    Preview0Tag,  // 'pre0'
    Preview1Tag,  // 'pre1'
    Preview2Tag,  // 'pre2'
    PrintConditionTag,  // 'ptcn'
    ProfileDescriptionTag,  // 'desc'
    ProfileSequenceDescTag,  // 'pseq'
    ProfileSequceIdTag,  // 'psid'
    Ps2CRD0Tag,  // 'psd0' Removed in V4
    Ps2CRD1Tag,  // 'psd1' Removed in V4
    Ps2CRD2Tag,  // 'psd2' Removed in V4
    Ps2CRD3Tag,  // 'psd3' Removed in V4
    Ps2CSATag,  // 'ps2s' Removed in V4
    Ps2RenderingIntentTag,  // 'ps2i' Removed in V4
    RedMatrixColumnTag,  // 'rXYZ'
    RedTRCTag,  // 'rTRC'
    ReferenceNameTag,  // 'rfnm'
    SaturationRenderingIntentGamutTag,  // 'rig2'
    ScreeningDescTag,  // 'scrd' Removed in V4
    ScreeningTag,  // 'scrn' Removed in V4
    SpectralDataInfoTag,  // 'sdin'
    SpectralWhitePointTag,  // 'swpt'
    SpectralViewingConditionsTag,  // 'svcn'
    StandardToCustomPccTag,  // 's2cp'
    SurfaceMapTag,  // 'smap'
    TechnologyTag,  // 'tech'
    UcrBgTag,  // 'bfd ' Removed in V4
    ViewingCondDescTag,  // 'vued'
    ViewingConditionsTag,  // 'view'
    EmbeddedV5ProfileTag,  // 'ICC5'
    MakeAndModelTag,  // mmod
    MultilocalizedDescriptionStringTag,  // dscm
    NativeDisplayInfoTag,  // 'ndin'
    VcgtTag,  // 'vcgt' Not icc, defacto industry standard
    VcgpTag,  // 'vcgp' Not icc, defacto industry standard
    AbsToRelTransSpaceTag,  // arts
}

impl TagSignature {
    /// The named tag that a four-byte code stands for, if any.
    pub open spec fn named(code: u32) -> Option<TagSignature> {
        match code {
            0x41324230 => Some(TagSignature::AToB0Tag),
            0x41324231 => Some(TagSignature::AToB1Tag),
            0x41324232 => Some(TagSignature::AToB2Tag),
            0x41324233 => Some(TagSignature::AToB3Tag),
            0x41324D30 => Some(TagSignature::AToM0Tag),
            0x6258595A => Some(TagSignature::BlueMatrixColumnTag),
            0x62545243 => Some(TagSignature::BlueTRCTag),
            0x62637030 => Some(TagSignature::BrdfColorimetricParameter0Tag),
            0x62637031 => Some(TagSignature::BrdfColorimetricParameter1Tag),
            0x62637032 => Some(TagSignature::BrdfColorimetricParameter2Tag),
            0x62637033 => Some(TagSignature::BrdfColorimetricParameter3Tag),
            0x62737030 => Some(TagSignature::BrdfSpectralParameter0Tag),
            0x62737031 => Some(TagSignature::BrdfSpectralParameter1Tag),
            0x62737032 => Some(TagSignature::BrdfSpectralParameter2Tag),
            0x62737033 => Some(TagSignature::BrdfSpectralParameter3Tag),
            0x62414230 => Some(TagSignature::BRDFAToB0Tag),
            0x62414231 => Some(TagSignature::BRDFAToB1Tag),
            0x62414232 => Some(TagSignature::BRDFAToB2Tag),
            0x62414233 => Some(TagSignature::BRDFAToB3Tag),
            0x62444230 => Some(TagSignature::BRDFDToB0Tag),
            0x62444231 => Some(TagSignature::BRDFDToB1Tag),
            0x62444232 => Some(TagSignature::BRDFDToB2Tag),
            0x62444233 => Some(TagSignature::BRDFDToB3Tag),
            0x624D4230 => Some(TagSignature::BRDFMToB0Tag),
            0x624D4231 => Some(TagSignature::BRDFMToB1Tag),
            0x624D4232 => Some(TagSignature::BRDFMToB2Tag),
            0x624D4233 => Some(TagSignature::BRDFMToB3Tag),
            0x624D5330 => Some(TagSignature::BRDFMToS0Tag),
            0x624D5331 => Some(TagSignature::BRDFMToS1Tag),
            0x624D5332 => Some(TagSignature::BRDFMToS2Tag),
            0x624D5333 => Some(TagSignature::BRDFMToS3Tag),
            0x42324130 => Some(TagSignature::BToA0Tag),
            0x42324131 => Some(TagSignature::BToA1Tag),
            0x42324132 => Some(TagSignature::BToA2Tag),
            0x42324133 => Some(TagSignature::BToA3Tag),
            0x63616C74 => Some(TagSignature::CalibrationDateTimeTag),
            0x74617267 => Some(TagSignature::CharTargetTag),
            0x63686164 => Some(TagSignature::ChromaticAdaptationTag),
            0x6368726D => Some(TagSignature::ChromaticityTag),
            0x63657074 => Some(TagSignature::ColorEncodingParamsTag),
            0x63736E6D => Some(TagSignature::ColorSpaceNameTag),
            0x636C696E => Some(TagSignature::ColorantInfoTag),
            0x636C696F => Some(TagSignature::ColorantInfoOutTag),
            0x636C726F => Some(TagSignature::ColorantOrderTag),
            0x636C6F6F => Some(TagSignature::ColorantOrderOutTag),
            0x636C7274 => Some(TagSignature::ColorantTableTag),
            0x636C6F74 => Some(TagSignature::ColorantTableOutTag),
            0x63696973 => Some(TagSignature::ColorimetricIntentImageStateTag),
            0x63707274 => Some(TagSignature::CopyrightTag),
            0x63726469 => Some(TagSignature::CrdInfoTag),
            0x63327370 => Some(TagSignature::CustomToStandardPccTag),
            0x43784620 => Some(TagSignature::CxFTag),
            0x64617461 => Some(TagSignature::DataTag),
            0x6474696D => Some(TagSignature::DateTimeTag),
            0x646D7770 => Some(TagSignature::DeviceMediaWhitePointTag),
            0x646D6E64 => Some(TagSignature::DeviceMfgDescTag),
            0x646D6464 => Some(TagSignature::DeviceModelDescTag),
            0x64657673 => Some(TagSignature::DeviceSettingsTag),
            0x44324230 => Some(TagSignature::DToB0Tag),
            0x44324231 => Some(TagSignature::DToB1Tag),
            0x44324232 => Some(TagSignature::DToB2Tag),
            0x44324233 => Some(TagSignature::DToB3Tag),
            0x42324430 => Some(TagSignature::BToD0Tag),
            0x42324431 => Some(TagSignature::BToD1Tag),
            0x42324432 => Some(TagSignature::BToD2Tag),
            0x42324433 => Some(TagSignature::BToD3Tag),
            0x67616D74 => Some(TagSignature::GamutTag),
            0x67626430 => Some(TagSignature::GamutBoundaryDescription0Tag),
            0x67626431 => Some(TagSignature::GamutBoundaryDescription1Tag),
            0x67626432 => Some(TagSignature::GamutBoundaryDescription2Tag),
            0x67626433 => Some(TagSignature::GamutBoundaryDescription3Tag),
            0x6B545243 => Some(TagSignature::GrayTRCTag),
            0x6758595A => Some(TagSignature::GreenMatrixColumnTag),
            0x67545243 => Some(TagSignature::GreenTRCTag),
            0x6C756D69 => Some(TagSignature::LuminanceTag),
            0x6D647620 => Some(TagSignature::MaterialDefaultValuesTag),
            0x6D637461 => Some(TagSignature::MaterialTypeArrayTag),
            0x4D324130 => Some(TagSignature::MToA0Tag),
            0x4D324230 => Some(TagSignature::MToB0Tag),
            0x4D324231 => Some(TagSignature::MToB1Tag),
            0x4D324232 => Some(TagSignature::MToB2Tag),
            0x4D324233 => Some(TagSignature::MToB3Tag),
            0x4D325330 => Some(TagSignature::MToS0Tag),
            0x4D325331 => Some(TagSignature::MToS1Tag),
            0x4D325332 => Some(TagSignature::MToS2Tag),
            0x4D325333 => Some(TagSignature::MToS3Tag),
            0x6D656173 => Some(TagSignature::MeasurementTag),
            0x626B7074 => Some(TagSignature::MediaBlackPointTag),
            0x77747074 => Some(TagSignature::MediaWhitePointTag),
            0x6D657461 => Some(TagSignature::MetaDataTag),
            0x6E636F6C => Some(TagSignature::NamedColorTag),
            0x6E6D636C => Some(TagSignature::NamedColorV5Tag),
            0x6E636C32 => Some(TagSignature::NamedColor2Tag),
            0x72657370 => Some(TagSignature::OutputResponseTag),
            0x72696730 => Some(TagSignature::PerceptualRenderingIntentGamutTag),
            0x70726530 => Some(TagSignature::Preview0Tag),
            0x70726531 => Some(TagSignature::Preview1Tag),
            0x70726532 => Some(TagSignature::Preview2Tag),
            0x7074636E => Some(TagSignature::PrintConditionTag),
            0x64657363 => Some(TagSignature::ProfileDescriptionTag),
            0x70736571 => Some(TagSignature::ProfileSequenceDescTag),
            0x70736964 => Some(TagSignature::ProfileSequceIdTag),
            0x70736430 => Some(TagSignature::Ps2CRD0Tag),
            0x70736431 => Some(TagSignature::Ps2CRD1Tag),
            0x70736432 => Some(TagSignature::Ps2CRD2Tag),
            0x70736433 => Some(TagSignature::Ps2CRD3Tag),
            0x70733273 => Some(TagSignature::Ps2CSATag),
            0x70733269 => Some(TagSignature::Ps2RenderingIntentTag),
            0x7258595A => Some(TagSignature::RedMatrixColumnTag),
            0x72545243 => Some(TagSignature::RedTRCTag),
            0x72666E6D => Some(TagSignature::ReferenceNameTag),
            0x72696732 => Some(TagSignature::SaturationRenderingIntentGamutTag),
            0x73637264 => Some(TagSignature::ScreeningDescTag),
            0x7363726E => Some(TagSignature::ScreeningTag),
            0x7364696E => Some(TagSignature::SpectralDataInfoTag),
            0x73777074 => Some(TagSignature::SpectralWhitePointTag),
            0x7376636E => Some(TagSignature::SpectralViewingConditionsTag),
            0x73326370 => Some(TagSignature::StandardToCustomPccTag),
            0x736D6170 => Some(TagSignature::SurfaceMapTag),
            0x74656368 => Some(TagSignature::TechnologyTag),
            0x62666420 => Some(TagSignature::UcrBgTag),
            0x76756564 => Some(TagSignature::ViewingCondDescTag),
            0x76696577 => Some(TagSignature::ViewingConditionsTag),
            0x49434335 => Some(TagSignature::EmbeddedV5ProfileTag),
            0x6D6D6F64 => Some(TagSignature::MakeAndModelTag),
            0x6473636D => Some(TagSignature::MultilocalizedDescriptionStringTag),
            0x6E64696E => Some(TagSignature::NativeDisplayInfoTag),
            0x76636774 => Some(TagSignature::VcgtTag),
            0x76636770 => Some(TagSignature::VcgpTag),
            0x61727473 => Some(TagSignature::AbsToRelTransSpaceTag),
            _ => None,
        }
    }

    /// Creates the signature for a four-byte code: the named tag, or a vendor tag
    /// holding the code's text.  A code that is not a named tag must be UTF-8.
    pub fn new(sig: u32) -> (t: TagSignature)
        requires
            TagSignature::named(sig) is Some || utf8_decode(be_bytes_u32(sig)) is Some,
        ensures
            TagSignature::named(sig) matches Some(n) ==> t == n,
            TagSignature::named(sig) is None ==> (t matches TagSignature::VendorTag(s) && utf8_decode(
                be_bytes_u32(sig),
            ) == Some(s@)),
    {
        match sig {
            0x41324230 => Self::AToB0Tag,
            0x41324231 => Self::AToB1Tag,
            0x41324232 => Self::AToB2Tag,
            0x41324233 => Self::AToB3Tag,
            0x41324D30 => Self::AToM0Tag,
            0x6258595A => Self::BlueMatrixColumnTag,
            0x62545243 => Self::BlueTRCTag,
            0x62637030 => Self::BrdfColorimetricParameter0Tag,
            0x62637031 => Self::BrdfColorimetricParameter1Tag,
            0x62637032 => Self::BrdfColorimetricParameter2Tag,
            0x62637033 => Self::BrdfColorimetricParameter3Tag,
            0x62737030 => Self::BrdfSpectralParameter0Tag,
            0x62737031 => Self::BrdfSpectralParameter1Tag,
            0x62737032 => Self::BrdfSpectralParameter2Tag,
            0x62737033 => Self::BrdfSpectralParameter3Tag,
            0x62414230 => Self::BRDFAToB0Tag,
            0x62414231 => Self::BRDFAToB1Tag,
            0x62414232 => Self::BRDFAToB2Tag,
            0x62414233 => Self::BRDFAToB3Tag,
            0x62444230 => Self::BRDFDToB0Tag,
            0x62444231 => Self::BRDFDToB1Tag,
            0x62444232 => Self::BRDFDToB2Tag,
            0x62444233 => Self::BRDFDToB3Tag,
            0x624D4230 => Self::BRDFMToB0Tag,
            0x624D4231 => Self::BRDFMToB1Tag,
            0x624D4232 => Self::BRDFMToB2Tag,
            0x624D4233 => Self::BRDFMToB3Tag,
            0x624D5330 => Self::BRDFMToS0Tag,
            0x624D5331 => Self::BRDFMToS1Tag,
            0x624D5332 => Self::BRDFMToS2Tag,
            0x624D5333 => Self::BRDFMToS3Tag,
            0x42324130 => Self::BToA0Tag,
            0x42324131 => Self::BToA1Tag,
            0x42324132 => Self::BToA2Tag,
            0x42324133 => Self::BToA3Tag,
            0x63616C74 => Self::CalibrationDateTimeTag,
            0x74617267 => Self::CharTargetTag,
            0x63686164 => Self::ChromaticAdaptationTag,
            0x6368726D => Self::ChromaticityTag,
            0x63657074 => Self::ColorEncodingParamsTag,
            0x63736E6D => Self::ColorSpaceNameTag,
            0x636C696E => Self::ColorantInfoTag,
            0x636C696F => Self::ColorantInfoOutTag,
            0x636C726F => Self::ColorantOrderTag,
            0x636C6F6F => Self::ColorantOrderOutTag,
            0x636C7274 => Self::ColorantTableTag,
            0x636C6F74 => Self::ColorantTableOutTag,
            0x63696973 => Self::ColorimetricIntentImageStateTag,
            0x63707274 => Self::CopyrightTag,
            0x63726469 => Self::CrdInfoTag,
            0x63327370 => Self::CustomToStandardPccTag,
            0x43784620 => Self::CxFTag,
            0x64617461 => Self::DataTag,
            0x6474696D => Self::DateTimeTag,
            0x646D7770 => Self::DeviceMediaWhitePointTag,
            0x646D6E64 => Self::DeviceMfgDescTag,
            0x646D6464 => Self::DeviceModelDescTag,
            0x64657673 => Self::DeviceSettingsTag,
            0x44324230 => Self::DToB0Tag,
            0x44324231 => Self::DToB1Tag,
            0x44324232 => Self::DToB2Tag,
            0x44324233 => Self::DToB3Tag,
            0x42324430 => Self::BToD0Tag,
            0x42324431 => Self::BToD1Tag,
            0x42324432 => Self::BToD2Tag,
            0x42324433 => Self::BToD3Tag,
            0x67616D74 => Self::GamutTag,
            0x67626430 => Self::GamutBoundaryDescription0Tag,
            0x67626431 => Self::GamutBoundaryDescription1Tag,
            0x67626432 => Self::GamutBoundaryDescription2Tag,
            0x67626433 => Self::GamutBoundaryDescription3Tag,
            0x6B545243 => Self::GrayTRCTag,
            0x6758595A => Self::GreenMatrixColumnTag,
            0x67545243 => Self::GreenTRCTag,
            0x6C756D69 => Self::LuminanceTag,
            0x6D647620 => Self::MaterialDefaultValuesTag,
            0x6D637461 => Self::MaterialTypeArrayTag,
            0x4D324130 => Self::MToA0Tag,
            0x4D324230 => Self::MToB0Tag,
            0x4D324231 => Self::MToB1Tag,
            0x4D324232 => Self::MToB2Tag,
            0x4D324233 => Self::MToB3Tag,
            0x4D325330 => Self::MToS0Tag,
            0x4D325331 => Self::MToS1Tag,
            0x4D325332 => Self::MToS2Tag,
            0x4D325333 => Self::MToS3Tag,
            0x6D656173 => Self::MeasurementTag,
            0x626B7074 => Self::MediaBlackPointTag,
            0x77747074 => Self::MediaWhitePointTag,
            0x6D657461 => Self::MetaDataTag,
            0x6E636F6C => Self::NamedColorTag,
            0x6E6D636C => Self::NamedColorV5Tag,
            0x6E636C32 => Self::NamedColor2Tag,
            0x72657370 => Self::OutputResponseTag,
            0x72696730 => Self::PerceptualRenderingIntentGamutTag,
            0x70726530 => Self::Preview0Tag,
            0x70726531 => Self::Preview1Tag,
            0x70726532 => Self::Preview2Tag,
            0x7074636E => Self::PrintConditionTag,
            0x64657363 => Self::ProfileDescriptionTag,
            0x70736571 => Self::ProfileSequenceDescTag,
            0x70736964 => Self::ProfileSequceIdTag,
            0x70736430 => Self::Ps2CRD0Tag,
            0x70736431 => Self::Ps2CRD1Tag,
            0x70736432 => Self::Ps2CRD2Tag,
            0x70736433 => Self::Ps2CRD3Tag,
            0x70733273 => Self::Ps2CSATag,
            0x70733269 => Self::Ps2RenderingIntentTag,
            0x7258595A => Self::RedMatrixColumnTag,
            0x72545243 => Self::RedTRCTag,
            0x72666E6D => Self::ReferenceNameTag,
            0x72696732 => Self::SaturationRenderingIntentGamutTag,
            0x73637264 => Self::ScreeningDescTag,
            0x7363726E => Self::ScreeningTag,
            0x7364696E => Self::SpectralDataInfoTag,
            0x73777074 => Self::SpectralWhitePointTag,
            0x7376636E => Self::SpectralViewingConditionsTag,
            0x73326370 => Self::StandardToCustomPccTag,
            0x736D6170 => Self::SurfaceMapTag,
            0x74656368 => Self::TechnologyTag,
            0x62666420 => Self::UcrBgTag,
            0x76756564 => Self::ViewingCondDescTag,
            0x76696577 => Self::ViewingConditionsTag,
            0x49434335 => Self::EmbeddedV5ProfileTag,
            0x6D6D6F64 => Self::MakeAndModelTag,
            0x6473636D => Self::MultilocalizedDescriptionStringTag,
            0x6E64696E => Self::NativeDisplayInfoTag,
            0x76636774 => Self::VcgtTag,
            0x76636770 => Self::VcgpTag,
            0x61727473 => Self::AbsToRelTransSpaceTag,
            _ => {
                let b = u32_to_be(sig);
                match decode_utf8(&b) {
                    Some(s) => Self::VendorTag(s),
                    None => {
                        proof {
                            assert(false);
                        }
                        Self::VendorTag(String::new())
                    },
                }
            },
        }
    }

    /// The signature for a four-byte code, as [`TagSignature::new`] gives it;
    /// `None` for a code that is neither a named tag nor UTF-8 text.
    pub fn try_new(sig: u32) -> (t: Option<TagSignature>)
        ensures
            t is None <==> (TagSignature::named(sig) is None && utf8_decode(be_bytes_u32(sig)) is None),
            t matches Some(x) ==> (TagSignature::named(sig) matches Some(n) ==> x == n),
            t matches Some(x) ==> (TagSignature::named(sig) is None ==> (x matches TagSignature::VendorTag(s)
                && utf8_decode(be_bytes_u32(sig)) == Some(s@))),
    {
        let b = u32_to_be(sig);
        let text = decode_utf8(&b);
        if text.is_some() {
            Some(TagSignature::new(sig))
        } else {
            match sig {
                0x41324230 => Some(TagSignature::new(sig)),
                0x41324231 => Some(TagSignature::new(sig)),
                0x41324232 => Some(TagSignature::new(sig)),
                0x41324233 => Some(TagSignature::new(sig)),
                0x41324D30 => Some(TagSignature::new(sig)),
                0x6258595A => Some(TagSignature::new(sig)),
                0x62545243 => Some(TagSignature::new(sig)),
                0x62637030 => Some(TagSignature::new(sig)),
                0x62637031 => Some(TagSignature::new(sig)),
                0x62637032 => Some(TagSignature::new(sig)),
                0x62637033 => Some(TagSignature::new(sig)),
                0x62737030 => Some(TagSignature::new(sig)),
                0x62737031 => Some(TagSignature::new(sig)),
                0x62737032 => Some(TagSignature::new(sig)),
                0x62737033 => Some(TagSignature::new(sig)),
                0x62414230 => Some(TagSignature::new(sig)),
                0x62414231 => Some(TagSignature::new(sig)),
                0x62414232 => Some(TagSignature::new(sig)),
                0x62414233 => Some(TagSignature::new(sig)),
                0x62444230 => Some(TagSignature::new(sig)),
                0x62444231 => Some(TagSignature::new(sig)),
                0x62444232 => Some(TagSignature::new(sig)),
                0x62444233 => Some(TagSignature::new(sig)),
                0x624D4230 => Some(TagSignature::new(sig)),
                0x624D4231 => Some(TagSignature::new(sig)),
                0x624D4232 => Some(TagSignature::new(sig)),
                0x624D4233 => Some(TagSignature::new(sig)),
                0x624D5330 => Some(TagSignature::new(sig)),
                0x624D5331 => Some(TagSignature::new(sig)),
                0x624D5332 => Some(TagSignature::new(sig)),
                0x624D5333 => Some(TagSignature::new(sig)),
                0x42324130 => Some(TagSignature::new(sig)),
                0x42324131 => Some(TagSignature::new(sig)),
                0x42324132 => Some(TagSignature::new(sig)),
                0x42324133 => Some(TagSignature::new(sig)),
                0x63616C74 => Some(TagSignature::new(sig)),
                0x74617267 => Some(TagSignature::new(sig)),
                0x63686164 => Some(TagSignature::new(sig)),
                0x6368726D => Some(TagSignature::new(sig)),
                0x63657074 => Some(TagSignature::new(sig)),
                0x63736E6D => Some(TagSignature::new(sig)),
                0x636C696E => Some(TagSignature::new(sig)),
                0x636C696F => Some(TagSignature::new(sig)),
                0x636C726F => Some(TagSignature::new(sig)),
                0x636C6F6F => Some(TagSignature::new(sig)),
                0x636C7274 => Some(TagSignature::new(sig)),
                0x636C6F74 => Some(TagSignature::new(sig)),
                0x63696973 => Some(TagSignature::new(sig)),
                0x63707274 => Some(TagSignature::new(sig)),
                0x63726469 => Some(TagSignature::new(sig)),
                0x63327370 => Some(TagSignature::new(sig)),
                0x43784620 => Some(TagSignature::new(sig)),
                0x64617461 => Some(TagSignature::new(sig)),
                0x6474696D => Some(TagSignature::new(sig)),
                0x646D7770 => Some(TagSignature::new(sig)),
                0x646D6E64 => Some(TagSignature::new(sig)),
                0x646D6464 => Some(TagSignature::new(sig)),
                0x64657673 => Some(TagSignature::new(sig)),
                0x44324230 => Some(TagSignature::new(sig)),
                0x44324231 => Some(TagSignature::new(sig)),
                0x44324232 => Some(TagSignature::new(sig)),
                0x44324233 => Some(TagSignature::new(sig)),
                0x42324430 => Some(TagSignature::new(sig)),
                0x42324431 => Some(TagSignature::new(sig)),
                0x42324432 => Some(TagSignature::new(sig)),
                0x42324433 => Some(TagSignature::new(sig)),
                0x67616D74 => Some(TagSignature::new(sig)),
                0x67626430 => Some(TagSignature::new(sig)),
                0x67626431 => Some(TagSignature::new(sig)),
                0x67626432 => Some(TagSignature::new(sig)),
                0x67626433 => Some(TagSignature::new(sig)),
                0x6B545243 => Some(TagSignature::new(sig)),
                0x6758595A => Some(TagSignature::new(sig)),
                0x67545243 => Some(TagSignature::new(sig)),
                0x6C756D69 => Some(TagSignature::new(sig)),
                0x6D647620 => Some(TagSignature::new(sig)),
                0x6D637461 => Some(TagSignature::new(sig)),
                0x4D324130 => Some(TagSignature::new(sig)),
                0x4D324230 => Some(TagSignature::new(sig)),
                0x4D324231 => Some(TagSignature::new(sig)),
                0x4D324232 => Some(TagSignature::new(sig)),
                0x4D324233 => Some(TagSignature::new(sig)),
                0x4D325330 => Some(TagSignature::new(sig)),
                0x4D325331 => Some(TagSignature::new(sig)),
                0x4D325332 => Some(TagSignature::new(sig)),
                0x4D325333 => Some(TagSignature::new(sig)),
                0x6D656173 => Some(TagSignature::new(sig)),
                0x626B7074 => Some(TagSignature::new(sig)),
                0x77747074 => Some(TagSignature::new(sig)),
                0x6D657461 => Some(TagSignature::new(sig)),
                0x6E636F6C => Some(TagSignature::new(sig)),
                0x6E6D636C => Some(TagSignature::new(sig)),
                0x6E636C32 => Some(TagSignature::new(sig)),
                0x72657370 => Some(TagSignature::new(sig)),
                0x72696730 => Some(TagSignature::new(sig)),
                0x70726530 => Some(TagSignature::new(sig)),
                0x70726531 => Some(TagSignature::new(sig)),
                0x70726532 => Some(TagSignature::new(sig)),
                0x7074636E => Some(TagSignature::new(sig)),
                0x64657363 => Some(TagSignature::new(sig)),
                0x70736571 => Some(TagSignature::new(sig)),
                0x70736964 => Some(TagSignature::new(sig)),
                0x70736430 => Some(TagSignature::new(sig)),
                0x70736431 => Some(TagSignature::new(sig)),
                0x70736432 => Some(TagSignature::new(sig)),
                0x70736433 => Some(TagSignature::new(sig)),
                0x70733273 => Some(TagSignature::new(sig)),
                0x70733269 => Some(TagSignature::new(sig)),
                0x7258595A => Some(TagSignature::new(sig)),
                0x72545243 => Some(TagSignature::new(sig)),
                0x72666E6D => Some(TagSignature::new(sig)),
                0x72696732 => Some(TagSignature::new(sig)),
                0x73637264 => Some(TagSignature::new(sig)),
                0x7363726E => Some(TagSignature::new(sig)),
                0x7364696E => Some(TagSignature::new(sig)),
                0x73777074 => Some(TagSignature::new(sig)),
                0x7376636E => Some(TagSignature::new(sig)),
                0x73326370 => Some(TagSignature::new(sig)),
                0x736D6170 => Some(TagSignature::new(sig)),
                0x74656368 => Some(TagSignature::new(sig)),
                0x62666420 => Some(TagSignature::new(sig)),
                0x76756564 => Some(TagSignature::new(sig)),
                0x76696577 => Some(TagSignature::new(sig)),
                0x49434335 => Some(TagSignature::new(sig)),
                0x6D6D6F64 => Some(TagSignature::new(sig)),
                0x6473636D => Some(TagSignature::new(sig)),
                0x6E64696E => Some(TagSignature::new(sig)),
                0x76636774 => Some(TagSignature::new(sig)),
                0x76636770 => Some(TagSignature::new(sig)),
                0x61727473 => Some(TagSignature::new(sig)),
                _ => None,
            }
        }
    }
}

} // verus!
