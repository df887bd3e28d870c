use vstd::prelude::*;

use crate::signatures::{code_text, code_to_string, fourcc};

verus! {

/// The signature of a tag in a profile's tag table: one variant per tag this
/// crate knows, and `Unknown` for any other four-byte code, so that unknown tags
/// are kept and written back unchanged.
#[derive(Debug, Clone, Copy, PartialEq, Eq, Hash, Structural)]
pub enum TagSignature {
    AToB0,  // 'A2B0'
    AToB1,  // 'A2B1'
    AToB2,  // 'A2B2'
    BlueMatrixColumn,  // 'bXYZ'
    BlueTRC,  // 'bTRC'
    BToA0,  // 'B2A0'
    BToA1,  // 'B2A1'
    BToA2,  // 'B2A2'
    BToD0,  // 'B2D0'
    BToD1,  // 'B2D1'
    BToD2,  // 'B2D2'
    BToD3,  // 'B2D3'
    CalibrationDateTime,  // 'calt'
    CharTarget,  // 'targ'
    ChromaticAdaptation,  // 'chad'
    Chromaticity,  // 'chrm'
    Cicp,  // 'cicp'
    ColorantOrder,  // 'clro'
    ColorantTable,  // 'clrt'
    ColorantTableOut,  // 'clot'
    ColorimetricIntentImageState,  // 'ciis'
    Copyright,  // 'cprt'
    DeviceMfgDesc,  // 'dmnd'
    DeviceModelDesc,  // 'dmdd'
    DToB0,  // 'D2B0'
    DToB1,  // 'D2B1'
    DToB2,  // 'D2B2'
    DToB3,  // 'D2B3'
    Gamut,  // 'gamt'
    GrayTRC,  // 'kTRC'
    GreenMatrixColumn,  // 'gXYZ'
    GreenTRC,  // 'gTRC'
    Luminance,  // 'lumi'
    Measurement,  // 'meas'
    Metadata,  // 'meta'
    MediaBlackPoint,  // 'bkpt'
    MediaWhitePoint,  // 'wtpt'
    NamedColor,  // 'ncol'
    NamedColor2,  // 'ncl2'
    OutputResponse,  // 'resp'
    PerceptualRenderingIntentGamut,  // 'rig0'
    Preview0,  // 'pre0'
    Preview1,  // 'pre1'
    Preview2,  // 'pre2'
    ProfileDescription,  // 'desc'
    ProfileSequenceDesc,  // 'pseq'
    ProfileSequenceIdendtifier,  // 'psid'
    RedMatrixColumn,  // 'rXYZ'
    RedTRC,  // 'rTRC'
    ReferenceName,  // 'rfnm'
    Technology,  // 'tech'
    ViewingCondDesc,  // 'vued'
    ViewingConditions,  // 'view'
    NativeDisplayInfo,  // 'ndin'
    Vcgt,  // 'vcgt'
    Vcgp,  // 'vcgp'
    /// A code that no named variant stands for.
    Unknown(u32),
}

impl TagSignature {
    /// The four-byte code of this signature.
    pub open spec fn code(self) -> u32 {
        match self {
            TagSignature::AToB0 => 0x41324230,
            TagSignature::AToB1 => 0x41324231,
            TagSignature::AToB2 => 0x41324232,
            TagSignature::BlueMatrixColumn => 0x6258595A,
            TagSignature::BlueTRC => 0x62545243,
            TagSignature::BToA0 => 0x42324130,
            TagSignature::BToA1 => 0x42324131,
            TagSignature::BToA2 => 0x42324132,
            TagSignature::BToD0 => 0x42324430,
            TagSignature::BToD1 => 0x42324431,
            TagSignature::BToD2 => 0x42324432,
            TagSignature::BToD3 => 0x42324433,
            TagSignature::CalibrationDateTime => 0x63616C74,
            TagSignature::CharTarget => 0x74617267,
            TagSignature::ChromaticAdaptation => 0x63686164,
            TagSignature::Chromaticity => 0x6368726D,
            TagSignature::Cicp => 0x63696370,
            TagSignature::ColorantOrder => 0x636C726F,
            TagSignature::ColorantTable => 0x636C7274,
            TagSignature::ColorantTableOut => 0x636C6F74,
            TagSignature::ColorimetricIntentImageState => 0x63696973,
            TagSignature::Copyright => 0x63707274,
            TagSignature::DeviceMfgDesc => 0x646D6E64,
            TagSignature::DeviceModelDesc => 0x646D6464,
            TagSignature::DToB0 => 0x44324230,
            TagSignature::DToB1 => 0x44324231,
            TagSignature::DToB2 => 0x44324232,
            TagSignature::DToB3 => 0x44324233,
            TagSignature::Gamut => 0x67616D74,
            TagSignature::GrayTRC => 0x6B545243,
            TagSignature::GreenMatrixColumn => 0x6758595A,
            TagSignature::GreenTRC => 0x67545243,
            TagSignature::Luminance => 0x6C756D69,
            TagSignature::Measurement => 0x6D656173,
            TagSignature::Metadata => 0x6D657461,
            TagSignature::MediaBlackPoint => 0x626B7074,
            TagSignature::MediaWhitePoint => 0x77747074,
            TagSignature::NamedColor => 0x6E636F6C,
            TagSignature::NamedColor2 => 0x6E636C32,
            TagSignature::OutputResponse => 0x72657370,
            TagSignature::PerceptualRenderingIntentGamut => 0x72696730,
            TagSignature::Preview0 => 0x70726530,
            TagSignature::Preview1 => 0x70726531,
            TagSignature::Preview2 => 0x70726532,
            TagSignature::ProfileDescription => 0x64657363,
            TagSignature::ProfileSequenceDesc => 0x70736571,
            TagSignature::ProfileSequenceIdendtifier => 0x70736964,
            TagSignature::RedMatrixColumn => 0x7258595A,
            TagSignature::RedTRC => 0x72545243,
            TagSignature::ReferenceName => 0x72666E6D,
            TagSignature::Technology => 0x74656368,
            TagSignature::ViewingCondDesc => 0x76756564,
            TagSignature::ViewingConditions => 0x76696577,
            TagSignature::NativeDisplayInfo => 0x6E64696E,
            TagSignature::Vcgt => 0x76636774,
            TagSignature::Vcgp => 0x76636770,
            TagSignature::Unknown(value) => value,
        }
    }

    /// The signature that a four-byte code stands for.
    pub open spec fn from_code(code: u32) -> TagSignature {
        match code {
            0x41324230 => TagSignature::AToB0,
            0x41324231 => TagSignature::AToB1,
            0x41324232 => TagSignature::AToB2,
            0x6258595A => TagSignature::BlueMatrixColumn,
            0x62545243 => TagSignature::BlueTRC,
            0x42324130 => TagSignature::BToA0,
            0x42324131 => TagSignature::BToA1,
            0x42324132 => TagSignature::BToA2,
            0x42324430 => TagSignature::BToD0,
            0x42324431 => TagSignature::BToD1,
            0x42324432 => TagSignature::BToD2,
            0x42324433 => TagSignature::BToD3,
            0x63616C74 => TagSignature::CalibrationDateTime,
            0x74617267 => TagSignature::CharTarget,
            0x63686164 => TagSignature::ChromaticAdaptation,
            0x6368726D => TagSignature::Chromaticity,
            0x63696370 => TagSignature::Cicp,
            0x636C726F => TagSignature::ColorantOrder,
            0x636C7274 => TagSignature::ColorantTable,
            0x636C6F74 => TagSignature::ColorantTableOut,
            0x63696973 => TagSignature::ColorimetricIntentImageState,
            0x63707274 => TagSignature::Copyright,
            0x646D6E64 => TagSignature::DeviceMfgDesc,
            0x646D6464 => TagSignature::DeviceModelDesc,
            0x44324230 => TagSignature::DToB0,
            0x44324231 => TagSignature::DToB1,
            0x44324232 => TagSignature::DToB2,
            0x44324233 => TagSignature::DToB3,
            0x67616D74 => TagSignature::Gamut,
            0x6B545243 => TagSignature::GrayTRC,
            0x6758595A => TagSignature::GreenMatrixColumn,
            0x67545243 => TagSignature::GreenTRC,
            0x6C756D69 => TagSignature::Luminance,
            0x6D656173 => TagSignature::Measurement,
            0x6D657461 => TagSignature::Metadata,
            0x626B7074 => TagSignature::MediaBlackPoint,
            0x77747074 => TagSignature::MediaWhitePoint,
            0x6E636F6C => TagSignature::NamedColor,
            0x6E636C32 => TagSignature::NamedColor2,
            0x72657370 => TagSignature::OutputResponse,
            0x72696730 => TagSignature::PerceptualRenderingIntentGamut,
            0x70726530 => TagSignature::Preview0,
            0x70726531 => TagSignature::Preview1,
            0x70726532 => TagSignature::Preview2,
            0x64657363 => TagSignature::ProfileDescription,
            0x70736571 => TagSignature::ProfileSequenceDesc,
            0x70736964 => TagSignature::ProfileSequenceIdendtifier,
            0x7258595A => TagSignature::RedMatrixColumn,
            0x72545243 => TagSignature::RedTRC,
            0x72666E6D => TagSignature::ReferenceName,
            0x74656368 => TagSignature::Technology,
            0x76756564 => TagSignature::ViewingCondDesc,
            0x76696577 => TagSignature::ViewingConditions,
            0x6E64696E => TagSignature::NativeDisplayInfo,
            0x76636774 => TagSignature::Vcgt,
            0x76636770 => TagSignature::Vcgp,
            other => TagSignature::Unknown(other),
        }
    }

    /// Creates the signature for a four-byte code.
    pub fn new(tag: u32) -> (sig: TagSignature)
        ensures
            sig == TagSignature::from_code(tag),
    {
        match tag {
            0x41324230 => TagSignature::AToB0,
            0x41324231 => TagSignature::AToB1,
            0x41324232 => TagSignature::AToB2,
            0x6258595A => TagSignature::BlueMatrixColumn,
            0x62545243 => TagSignature::BlueTRC,
            0x42324130 => TagSignature::BToA0,
            0x42324131 => TagSignature::BToA1,
            0x42324132 => TagSignature::BToA2,
            0x42324430 => TagSignature::BToD0,
            0x42324431 => TagSignature::BToD1,
            0x42324432 => TagSignature::BToD2,
            0x42324433 => TagSignature::BToD3,
            0x63616C74 => TagSignature::CalibrationDateTime,
            0x74617267 => TagSignature::CharTarget,
            0x63686164 => TagSignature::ChromaticAdaptation,
            0x6368726D => TagSignature::Chromaticity,
            0x63696370 => TagSignature::Cicp,
            0x636C726F => TagSignature::ColorantOrder,
            0x636C7274 => TagSignature::ColorantTable,
            0x636C6F74 => TagSignature::ColorantTableOut,
            0x63696973 => TagSignature::ColorimetricIntentImageState,
            0x63707274 => TagSignature::Copyright,
            0x646D6E64 => TagSignature::DeviceMfgDesc,
            0x646D6464 => TagSignature::DeviceModelDesc,
            0x44324230 => TagSignature::DToB0,
            0x44324231 => TagSignature::DToB1,
            0x44324232 => TagSignature::DToB2,
            0x44324233 => TagSignature::DToB3,
            0x67616D74 => TagSignature::Gamut,
            0x6B545243 => TagSignature::GrayTRC,
            0x6758595A => TagSignature::GreenMatrixColumn,
            0x67545243 => TagSignature::GreenTRC,
            0x6C756D69 => TagSignature::Luminance,
            0x6D656173 => TagSignature::Measurement,
            0x6D657461 => TagSignature::Metadata,
            0x626B7074 => TagSignature::MediaBlackPoint,
            0x77747074 => TagSignature::MediaWhitePoint,
            0x6E636F6C => TagSignature::NamedColor,
            0x6E636C32 => TagSignature::NamedColor2,
            0x72657370 => TagSignature::OutputResponse,
            0x72696730 => TagSignature::PerceptualRenderingIntentGamut,
            0x70726530 => TagSignature::Preview0,
            0x70726531 => TagSignature::Preview1,
            0x70726532 => TagSignature::Preview2,
            0x64657363 => TagSignature::ProfileDescription,
            0x70736571 => TagSignature::ProfileSequenceDesc,
            0x70736964 => TagSignature::ProfileSequenceIdendtifier,
            0x7258595A => TagSignature::RedMatrixColumn,
            0x72545243 => TagSignature::RedTRC,
            0x72666E6D => TagSignature::ReferenceName,
            0x74656368 => TagSignature::Technology,
            0x76756564 => TagSignature::ViewingCondDesc,
            0x76696577 => TagSignature::ViewingConditions,
            0x6E64696E => TagSignature::NativeDisplayInfo,
            0x76636774 => TagSignature::Vcgt,
            0x76636770 => TagSignature::Vcgp,
            other => TagSignature::Unknown(other),
        }
    }

    /// Shows the signature: its four characters when they are ASCII, else eight
    /// uppercase hexadecimal digits.
    pub fn to_string(&self) -> (s: String)
        ensures
            s@ == code_text(self.code()),
    {
        code_to_string(self.to_u32())
    }

    /// Returns the four-byte code of this signature.
    pub fn to_u32(&self) -> (code: u32)
        ensures
            code == self.code(),
    {
        match self {
            TagSignature::AToB0 => 0x41324230,
            TagSignature::AToB1 => 0x41324231,
            TagSignature::AToB2 => 0x41324232,
            TagSignature::BlueMatrixColumn => 0x6258595A,
            TagSignature::BlueTRC => 0x62545243,
            TagSignature::BToA0 => 0x42324130,
            TagSignature::BToA1 => 0x42324131,
            TagSignature::BToA2 => 0x42324132,
            TagSignature::BToD0 => 0x42324430,
            TagSignature::BToD1 => 0x42324431,
            TagSignature::BToD2 => 0x42324432,
            TagSignature::BToD3 => 0x42324433,
            TagSignature::CalibrationDateTime => 0x63616C74,
            TagSignature::CharTarget => 0x74617267,
            TagSignature::ChromaticAdaptation => 0x63686164,
            TagSignature::Chromaticity => 0x6368726D,
            TagSignature::Cicp => 0x63696370,
            TagSignature::ColorantOrder => 0x636C726F,
            TagSignature::ColorantTable => 0x636C7274,
            TagSignature::ColorantTableOut => 0x636C6F74,
            TagSignature::ColorimetricIntentImageState => 0x63696973,
            TagSignature::Copyright => 0x63707274,
            TagSignature::DeviceMfgDesc => 0x646D6E64,
            TagSignature::DeviceModelDesc => 0x646D6464,
            TagSignature::DToB0 => 0x44324230,
            TagSignature::DToB1 => 0x44324231,
            TagSignature::DToB2 => 0x44324232,
            TagSignature::DToB3 => 0x44324233,
            TagSignature::Gamut => 0x67616D74,
            TagSignature::GrayTRC => 0x6B545243,
            TagSignature::GreenMatrixColumn => 0x6758595A,
            TagSignature::GreenTRC => 0x67545243,
            TagSignature::Luminance => 0x6C756D69,
            TagSignature::Measurement => 0x6D656173,
            TagSignature::Metadata => 0x6D657461,
            TagSignature::MediaBlackPoint => 0x626B7074,
            TagSignature::MediaWhitePoint => 0x77747074,
            TagSignature::NamedColor => 0x6E636F6C,
            TagSignature::NamedColor2 => 0x6E636C32,
            TagSignature::OutputResponse => 0x72657370,
            TagSignature::PerceptualRenderingIntentGamut => 0x72696730,
            TagSignature::Preview0 => 0x70726530,
            TagSignature::Preview1 => 0x70726531,
            TagSignature::Preview2 => 0x70726532,
            TagSignature::ProfileDescription => 0x64657363,
            TagSignature::ProfileSequenceDesc => 0x70736571,
            TagSignature::ProfileSequenceIdendtifier => 0x70736964,
            TagSignature::RedMatrixColumn => 0x7258595A,
            TagSignature::RedTRC => 0x72545243,
            TagSignature::ReferenceName => 0x72666E6D,
            TagSignature::Technology => 0x74656368,
            TagSignature::ViewingCondDesc => 0x76756564,
            TagSignature::ViewingConditions => 0x76696577,
            TagSignature::NativeDisplayInfo => 0x6E64696E,
            TagSignature::Vcgt => 0x76636774,
            TagSignature::Vcgp => 0x76636770,
            TagSignature::Unknown(value) => *value,
        }
    }

    /// Decoding a code and encoding the result gives the code back, for every code.
    pub proof fn lemma_code_of_from_code(code: u32)
        ensures
            TagSignature::from_code(code).code() == code,
    {
    }

    /// Encoding a named signature and decoding the code gives the signature back.
    pub proof fn lemma_from_code_of_code(sig: TagSignature)
        requires
            !(sig is Unknown),
        ensures
            TagSignature::from_code(sig.code()) == sig,
    {
    }
}

impl TagSignature {
    /// The four characters of the ICC name of a named signature, as the ICC
    /// specification writes them (e.g. `bTRC` for the blue tone curve); `None`
    /// for `Unknown`.
    pub open spec fn icc_name(self) -> Option<(char, char, char, char)> {
        match self {
            TagSignature::AToB0 => Some(('A', '2', 'B', '0')),
            TagSignature::AToB1 => Some(('A', '2', 'B', '1')),
            TagSignature::AToB2 => Some(('A', '2', 'B', '2')),
            TagSignature::BlueMatrixColumn => Some(('b', 'X', 'Y', 'Z')),
            TagSignature::BlueTRC => Some(('b', 'T', 'R', 'C')),
            TagSignature::BToA0 => Some(('B', '2', 'A', '0')),
            TagSignature::BToA1 => Some(('B', '2', 'A', '1')),
            TagSignature::BToA2 => Some(('B', '2', 'A', '2')),
            TagSignature::BToD0 => Some(('B', '2', 'D', '0')),
            TagSignature::BToD1 => Some(('B', '2', 'D', '1')),
            TagSignature::BToD2 => Some(('B', '2', 'D', '2')),
            TagSignature::BToD3 => Some(('B', '2', 'D', '3')),
            TagSignature::CalibrationDateTime => Some(('c', 'a', 'l', 't')),
            TagSignature::CharTarget => Some(('t', 'a', 'r', 'g')),
            TagSignature::ChromaticAdaptation => Some(('c', 'h', 'a', 'd')),
            TagSignature::Chromaticity => Some(('c', 'h', 'r', 'm')),
            TagSignature::Cicp => Some(('c', 'i', 'c', 'p')),
            TagSignature::ColorantOrder => Some(('c', 'l', 'r', 'o')),
            TagSignature::ColorantTable => Some(('c', 'l', 'r', 't')),
            TagSignature::ColorantTableOut => Some(('c', 'l', 'o', 't')),
            TagSignature::ColorimetricIntentImageState => Some(('c', 'i', 'i', 's')),
            TagSignature::Copyright => Some(('c', 'p', 'r', 't')),
            TagSignature::DeviceMfgDesc => Some(('d', 'm', 'n', 'd')),
            TagSignature::DeviceModelDesc => Some(('d', 'm', 'd', 'd')),
            TagSignature::DToB0 => Some(('D', '2', 'B', '0')),
            TagSignature::DToB1 => Some(('D', '2', 'B', '1')),
            TagSignature::DToB2 => Some(('D', '2', 'B', '2')),
            TagSignature::DToB3 => Some(('D', '2', 'B', '3')),
            TagSignature::Gamut => Some(('g', 'a', 'm', 't')),
            TagSignature::GrayTRC => Some(('k', 'T', 'R', 'C')),
            TagSignature::GreenMatrixColumn => Some(('g', 'X', 'Y', 'Z')),
            TagSignature::GreenTRC => Some(('g', 'T', 'R', 'C')),
            TagSignature::Luminance => Some(('l', 'u', 'm', 'i')),
            TagSignature::Measurement => Some(('m', 'e', 'a', 's')),
            TagSignature::Metadata => Some(('m', 'e', 't', 'a')),
            TagSignature::MediaBlackPoint => Some(('b', 'k', 'p', 't')),
            TagSignature::MediaWhitePoint => Some(('w', 't', 'p', 't')),
            TagSignature::NamedColor => Some(('n', 'c', 'o', 'l')),
            TagSignature::NamedColor2 => Some(('n', 'c', 'l', '2')),
            TagSignature::OutputResponse => Some(('r', 'e', 's', 'p')),
            TagSignature::PerceptualRenderingIntentGamut => Some(('r', 'i', 'g', '0')),
            TagSignature::Preview0 => Some(('p', 'r', 'e', '0')),
            TagSignature::Preview1 => Some(('p', 'r', 'e', '1')),
            TagSignature::Preview2 => Some(('p', 'r', 'e', '2')),
            TagSignature::ProfileDescription => Some(('d', 'e', 's', 'c')),
            TagSignature::ProfileSequenceDesc => Some(('p', 's', 'e', 'q')),
            TagSignature::ProfileSequenceIdendtifier => Some(('p', 's', 'i', 'd')),
            TagSignature::RedMatrixColumn => Some(('r', 'X', 'Y', 'Z')),
            TagSignature::RedTRC => Some(('r', 'T', 'R', 'C')),
            TagSignature::ReferenceName => Some(('r', 'f', 'n', 'm')),
            TagSignature::Technology => Some(('t', 'e', 'c', 'h')),
            TagSignature::ViewingCondDesc => Some(('v', 'u', 'e', 'd')),
            TagSignature::ViewingConditions => Some(('v', 'i', 'e', 'w')),
            TagSignature::NativeDisplayInfo => Some(('n', 'd', 'i', 'n')),
            TagSignature::Vcgt => Some(('v', 'c', 'g', 't')),
            TagSignature::Vcgp => Some(('v', 'c', 'g', 'p')),
            TagSignature::Unknown(_) => None,
        }
    }

    /// Each named signature is written as the big-endian code of the four
    /// characters of its ICC name, and that code is read back as the same
    /// signature; an `Unknown` signature keeps its code both ways.
    pub proof fn law_codes_are_icc_names(sig: TagSignature)
        ensures
            sig.icc_name() matches Some(n) ==> sig.code() == fourcc(n),
            sig.icc_name() matches Some(n) ==> TagSignature::from_code(fourcc(n)) == sig,
            sig matches TagSignature::Unknown(v) ==> sig.code() == v,
    {
    }
}

} // verus!
