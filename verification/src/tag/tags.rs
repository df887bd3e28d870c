use vstd::prelude::*;
use super::TagSignature;

verus! {

/// Marker for the `AToB0` tag.
#[derive(Debug, Clone, Copy, Default)]
pub struct AToB0Tag;

impl From<AToB0Tag> for TagSignature {
    fn from(_marker: AToB0Tag) -> (sig: TagSignature) {
        TagSignature::AToB0
    }
}

impl vstd::std_specs::convert::FromSpecImpl<AToB0Tag> for TagSignature {
    open spec fn obeys_from_spec() -> bool {
        true
    }

    open spec fn from_spec(_marker: AToB0Tag) -> TagSignature {
        TagSignature::AToB0
    }
}

/// Marker for the `AToB1` tag.
#[derive(Debug, Clone, Copy, Default)]
pub struct AToB1Tag;

impl From<AToB1Tag> for TagSignature {
    fn from(_marker: AToB1Tag) -> (sig: TagSignature) {
        TagSignature::AToB1
    }
}

impl vstd::std_specs::convert::FromSpecImpl<AToB1Tag> for TagSignature {
    open spec fn obeys_from_spec() -> bool {
        true
    }

    open spec fn from_spec(_marker: AToB1Tag) -> TagSignature {
        TagSignature::AToB1
    }
}

/// Marker for the `AToB2` tag.
#[derive(Debug, Clone, Copy, Default)]
pub struct AToB2Tag;

impl From<AToB2Tag> for TagSignature {
    fn from(_marker: AToB2Tag) -> (sig: TagSignature) {
        TagSignature::AToB2
    }
}

impl vstd::std_specs::convert::FromSpecImpl<AToB2Tag> for TagSignature {
    open spec fn obeys_from_spec() -> bool {
        true
    }

    open spec fn from_spec(_marker: AToB2Tag) -> TagSignature {
        TagSignature::AToB2
    }
}

/// Marker for the `BlueMatrixColumn` tag.
#[derive(Debug, Clone, Copy, Default)]
pub struct BlueMatrixColumnTag;

impl From<BlueMatrixColumnTag> for TagSignature {
    fn from(_marker: BlueMatrixColumnTag) -> (sig: TagSignature) {
        TagSignature::BlueMatrixColumn
    }
}

impl vstd::std_specs::convert::FromSpecImpl<BlueMatrixColumnTag> for TagSignature {
    open spec fn obeys_from_spec() -> bool {
        true
    }

    open spec fn from_spec(_marker: BlueMatrixColumnTag) -> TagSignature {
        TagSignature::BlueMatrixColumn
    }
}

/// Marker for the `BlueTRC` tag.
#[derive(Debug, Clone, Copy, Default)]
pub struct BlueTRCTag;

impl From<BlueTRCTag> for TagSignature {
    fn from(_marker: BlueTRCTag) -> (sig: TagSignature) {
        TagSignature::BlueTRC
    }
}

impl vstd::std_specs::convert::FromSpecImpl<BlueTRCTag> for TagSignature {
    open spec fn obeys_from_spec() -> bool {
        true
    }

    open spec fn from_spec(_marker: BlueTRCTag) -> TagSignature {
        TagSignature::BlueTRC
    }
}

/// Marker for the `BToA0` tag.
#[derive(Debug, Clone, Copy, Default)]
pub struct BToA0Tag;

impl From<BToA0Tag> for TagSignature {
    fn from(_marker: BToA0Tag) -> (sig: TagSignature) {
        TagSignature::BToA0
    }
}

impl vstd::std_specs::convert::FromSpecImpl<BToA0Tag> for TagSignature {
    open spec fn obeys_from_spec() -> bool {
        true
    }

    open spec fn from_spec(_marker: BToA0Tag) -> TagSignature {
        TagSignature::BToA0
    }
}

/// Marker for the `BToA1` tag.
#[derive(Debug, Clone, Copy, Default)]
pub struct BToA1Tag;

impl From<BToA1Tag> for TagSignature {
    fn from(_marker: BToA1Tag) -> (sig: TagSignature) {
        TagSignature::BToA1
    }
}

impl vstd::std_specs::convert::FromSpecImpl<BToA1Tag> for TagSignature {
    open spec fn obeys_from_spec() -> bool {
        true
    }

    open spec fn from_spec(_marker: BToA1Tag) -> TagSignature {
        TagSignature::BToA1
    }
}

/// Marker for the `BToA2` tag.
#[derive(Debug, Clone, Copy, Default)]
pub struct BToA2Tag;

impl From<BToA2Tag> for TagSignature {
    fn from(_marker: BToA2Tag) -> (sig: TagSignature) {
        TagSignature::BToA2
    }
}

impl vstd::std_specs::convert::FromSpecImpl<BToA2Tag> for TagSignature {
    open spec fn obeys_from_spec() -> bool {
        true
    }

    open spec fn from_spec(_marker: BToA2Tag) -> TagSignature {
        TagSignature::BToA2
    }
}

/// Marker for the `BToD0` tag.
#[derive(Debug, Clone, Copy, Default)]
pub struct BToD0Tag;

impl From<BToD0Tag> for TagSignature {
    fn from(_marker: BToD0Tag) -> (sig: TagSignature) {
        TagSignature::BToD0
    }
}

impl vstd::std_specs::convert::FromSpecImpl<BToD0Tag> for TagSignature {
    open spec fn obeys_from_spec() -> bool {
        true
    }

    open spec fn from_spec(_marker: BToD0Tag) -> TagSignature {
        TagSignature::BToD0
    }
}

/// Marker for the `BToD1` tag.
#[derive(Debug, Clone, Copy, Default)]
pub struct BToD1Tag;

impl From<BToD1Tag> for TagSignature {
    fn from(_marker: BToD1Tag) -> (sig: TagSignature) {
        TagSignature::BToD1
    }
}

impl vstd::std_specs::convert::FromSpecImpl<BToD1Tag> for TagSignature {
    open spec fn obeys_from_spec() -> bool {
        true
    }

    open spec fn from_spec(_marker: BToD1Tag) -> TagSignature {
        TagSignature::BToD1
    }
}

/// Marker for the `BToD2` tag.
#[derive(Debug, Clone, Copy, Default)]
pub struct BToD2Tag;

impl From<BToD2Tag> for TagSignature {
    fn from(_marker: BToD2Tag) -> (sig: TagSignature) {
        TagSignature::BToD2
    }
}

impl vstd::std_specs::convert::FromSpecImpl<BToD2Tag> for TagSignature {
    open spec fn obeys_from_spec() -> bool {
        true
    }

    open spec fn from_spec(_marker: BToD2Tag) -> TagSignature {
        TagSignature::BToD2
    }
}

/// Marker for the `BToD3` tag.
#[derive(Debug, Clone, Copy, Default)]
pub struct BToD3Tag;

impl From<BToD3Tag> for TagSignature {
    fn from(_marker: BToD3Tag) -> (sig: TagSignature) {
        TagSignature::BToD3
    }
}

impl vstd::std_specs::convert::FromSpecImpl<BToD3Tag> for TagSignature {
    open spec fn obeys_from_spec() -> bool {
        true
    }

    open spec fn from_spec(_marker: BToD3Tag) -> TagSignature {
        TagSignature::BToD3
    }
}

/// Marker for the `CalibrationDateTime` tag.
#[derive(Debug, Clone, Copy, Default)]
pub struct CalibrationDateTimeTag;

impl From<CalibrationDateTimeTag> for TagSignature {
    fn from(_marker: CalibrationDateTimeTag) -> (sig: TagSignature) {
        TagSignature::CalibrationDateTime
    }
}

impl vstd::std_specs::convert::FromSpecImpl<CalibrationDateTimeTag> for TagSignature {
    open spec fn obeys_from_spec() -> bool {
        true
    }

    open spec fn from_spec(_marker: CalibrationDateTimeTag) -> TagSignature {
        TagSignature::CalibrationDateTime
    }
}

/// Marker for the `CharTarget` tag.
#[derive(Debug, Clone, Copy, Default)]
pub struct CharTargetTag;

impl From<CharTargetTag> for TagSignature {
    fn from(_marker: CharTargetTag) -> (sig: TagSignature) {
        TagSignature::CharTarget
    }
}

impl vstd::std_specs::convert::FromSpecImpl<CharTargetTag> for TagSignature {
    open spec fn obeys_from_spec() -> bool {
        true
    }

    open spec fn from_spec(_marker: CharTargetTag) -> TagSignature {
        TagSignature::CharTarget
    }
}

/// Marker for the `ChromaticAdaptation` tag.
#[derive(Debug, Clone, Copy, Default)]
pub struct ChromaticAdaptationTag;

impl From<ChromaticAdaptationTag> for TagSignature {
    fn from(_marker: ChromaticAdaptationTag) -> (sig: TagSignature) {
        TagSignature::ChromaticAdaptation
    }
}

impl vstd::std_specs::convert::FromSpecImpl<ChromaticAdaptationTag> for TagSignature {
    open spec fn obeys_from_spec() -> bool {
        true
    }

    open spec fn from_spec(_marker: ChromaticAdaptationTag) -> TagSignature {
        TagSignature::ChromaticAdaptation
    }
}

/// Marker for the `Chromaticity` tag.
#[derive(Debug, Clone, Copy, Default)]
pub struct ChromaticityTag;

impl From<ChromaticityTag> for TagSignature {
    fn from(_marker: ChromaticityTag) -> (sig: TagSignature) {
        TagSignature::Chromaticity
    }
}

impl vstd::std_specs::convert::FromSpecImpl<ChromaticityTag> for TagSignature {
    open spec fn obeys_from_spec() -> bool {
        true
    }

    open spec fn from_spec(_marker: ChromaticityTag) -> TagSignature {
        TagSignature::Chromaticity
    }
}

/// Marker for the `Cicp` tag.
#[derive(Debug, Clone, Copy, Default)]
pub struct CicpTag;

impl From<CicpTag> for TagSignature {
    fn from(_marker: CicpTag) -> (sig: TagSignature) {
        TagSignature::Cicp
    }
}

impl vstd::std_specs::convert::FromSpecImpl<CicpTag> for TagSignature {
    open spec fn obeys_from_spec() -> bool {
        true
    }

    open spec fn from_spec(_marker: CicpTag) -> TagSignature {
        TagSignature::Cicp
    }
}

/// Marker for the `ColorantOrder` tag.
#[derive(Debug, Clone, Copy, Default)]
pub struct ColorantOrderTag;

impl From<ColorantOrderTag> for TagSignature {
    fn from(_marker: ColorantOrderTag) -> (sig: TagSignature) {
        TagSignature::ColorantOrder
    }
}

impl vstd::std_specs::convert::FromSpecImpl<ColorantOrderTag> for TagSignature {
    open spec fn obeys_from_spec() -> bool {
        true
    }

    open spec fn from_spec(_marker: ColorantOrderTag) -> TagSignature {
        TagSignature::ColorantOrder
    }
}

/// Marker for the `ColorantTable` tag.
#[derive(Debug, Clone, Copy, Default)]
pub struct ColorantTableTag;

impl From<ColorantTableTag> for TagSignature {
    fn from(_marker: ColorantTableTag) -> (sig: TagSignature) {
        TagSignature::ColorantTable
    }
}

impl vstd::std_specs::convert::FromSpecImpl<ColorantTableTag> for TagSignature {
    open spec fn obeys_from_spec() -> bool {
        true
    }

    open spec fn from_spec(_marker: ColorantTableTag) -> TagSignature {
        TagSignature::ColorantTable
    }
}

/// Marker for the `ColorantTableOut` tag.
#[derive(Debug, Clone, Copy, Default)]
pub struct ColorantTableOutTag;

impl From<ColorantTableOutTag> for TagSignature {
    fn from(_marker: ColorantTableOutTag) -> (sig: TagSignature) {
        TagSignature::ColorantTableOut
    }
}

impl vstd::std_specs::convert::FromSpecImpl<ColorantTableOutTag> for TagSignature {
    open spec fn obeys_from_spec() -> bool {
        true
    }

    open spec fn from_spec(_marker: ColorantTableOutTag) -> TagSignature {
        TagSignature::ColorantTableOut
    }
}

/// Marker for the `ColorimetricIntentImageState` tag.
#[derive(Debug, Clone, Copy, Default)]
pub struct ColorimetricIntentImageStateTag;

impl From<ColorimetricIntentImageStateTag> for TagSignature {
    fn from(_marker: ColorimetricIntentImageStateTag) -> (sig: TagSignature) {
        TagSignature::ColorimetricIntentImageState
    }
}

impl vstd::std_specs::convert::FromSpecImpl<ColorimetricIntentImageStateTag> for TagSignature {
    open spec fn obeys_from_spec() -> bool {
        true
    }

    open spec fn from_spec(_marker: ColorimetricIntentImageStateTag) -> TagSignature {
        TagSignature::ColorimetricIntentImageState
    }
}

/// Marker for the `Copyright` tag.
#[derive(Debug, Clone, Copy, Default)]
pub struct CopyrightTag;

impl From<CopyrightTag> for TagSignature {
    fn from(_marker: CopyrightTag) -> (sig: TagSignature) {
        TagSignature::Copyright
    }
}

impl vstd::std_specs::convert::FromSpecImpl<CopyrightTag> for TagSignature {
    open spec fn obeys_from_spec() -> bool {
        true
    }

    open spec fn from_spec(_marker: CopyrightTag) -> TagSignature {
        TagSignature::Copyright
    }
}

/// Marker for the `DeviceMfgDesc` tag.
#[derive(Debug, Clone, Copy, Default)]
pub struct DeviceMfgDescTag;

impl From<DeviceMfgDescTag> for TagSignature {
    fn from(_marker: DeviceMfgDescTag) -> (sig: TagSignature) {
        TagSignature::DeviceMfgDesc
    }
}

impl vstd::std_specs::convert::FromSpecImpl<DeviceMfgDescTag> for TagSignature {
    open spec fn obeys_from_spec() -> bool {
        true
    }

    open spec fn from_spec(_marker: DeviceMfgDescTag) -> TagSignature {
        TagSignature::DeviceMfgDesc
    }
}

/// Marker for the `DeviceModelDesc` tag.
#[derive(Debug, Clone, Copy, Default)]
pub struct DeviceModelDescTag;

impl From<DeviceModelDescTag> for TagSignature {
    fn from(_marker: DeviceModelDescTag) -> (sig: TagSignature) {
        TagSignature::DeviceModelDesc
    }
}

impl vstd::std_specs::convert::FromSpecImpl<DeviceModelDescTag> for TagSignature {
    open spec fn obeys_from_spec() -> bool {
        true
    }

    open spec fn from_spec(_marker: DeviceModelDescTag) -> TagSignature {
        TagSignature::DeviceModelDesc
    }
}

/// Marker for the `DToB0` tag.
#[derive(Debug, Clone, Copy, Default)]
pub struct DToB0Tag;

impl From<DToB0Tag> for TagSignature {
    fn from(_marker: DToB0Tag) -> (sig: TagSignature) {
        TagSignature::DToB0
    }
}

impl vstd::std_specs::convert::FromSpecImpl<DToB0Tag> for TagSignature {
    open spec fn obeys_from_spec() -> bool {
        true
    }

    open spec fn from_spec(_marker: DToB0Tag) -> TagSignature {
        TagSignature::DToB0
    }
}

/// Marker for the `DToB1` tag.
#[derive(Debug, Clone, Copy, Default)]
pub struct DToB1Tag;

impl From<DToB1Tag> for TagSignature {
    fn from(_marker: DToB1Tag) -> (sig: TagSignature) {
        TagSignature::DToB1
    }
}

impl vstd::std_specs::convert::FromSpecImpl<DToB1Tag> for TagSignature {
    open spec fn obeys_from_spec() -> bool {
        true
    }

    open spec fn from_spec(_marker: DToB1Tag) -> TagSignature {
        TagSignature::DToB1
    }
}

/// Marker for the `DToB2` tag.
#[derive(Debug, Clone, Copy, Default)]
pub struct DToB2Tag;

impl From<DToB2Tag> for TagSignature {
    fn from(_marker: DToB2Tag) -> (sig: TagSignature) {
        TagSignature::DToB2
    }
}

impl vstd::std_specs::convert::FromSpecImpl<DToB2Tag> for TagSignature {
    open spec fn obeys_from_spec() -> bool {
        true
    }

    open spec fn from_spec(_marker: DToB2Tag) -> TagSignature {
        TagSignature::DToB2
    }
}

/// Marker for the `DToB3` tag.
#[derive(Debug, Clone, Copy, Default)]
pub struct DToB3Tag;

impl From<DToB3Tag> for TagSignature {
    fn from(_marker: DToB3Tag) -> (sig: TagSignature) {
        TagSignature::DToB3
    }
}

impl vstd::std_specs::convert::FromSpecImpl<DToB3Tag> for TagSignature {
    open spec fn obeys_from_spec() -> bool {
        true
    }

    open spec fn from_spec(_marker: DToB3Tag) -> TagSignature {
        TagSignature::DToB3
    }
}

/// Marker for the `Gamut` tag.
#[derive(Debug, Clone, Copy, Default)]
pub struct GamutTag;

impl From<GamutTag> for TagSignature {
    fn from(_marker: GamutTag) -> (sig: TagSignature) {
        TagSignature::Gamut
    }
}

impl vstd::std_specs::convert::FromSpecImpl<GamutTag> for TagSignature {
    open spec fn obeys_from_spec() -> bool {
        true
    }

    open spec fn from_spec(_marker: GamutTag) -> TagSignature {
        TagSignature::Gamut
    }
}

/// Marker for the `GrayTRC` tag.
#[derive(Debug, Clone, Copy, Default)]
pub struct GrayTRCTag;

impl From<GrayTRCTag> for TagSignature {
    fn from(_marker: GrayTRCTag) -> (sig: TagSignature) {
        TagSignature::GrayTRC
    }
}

impl vstd::std_specs::convert::FromSpecImpl<GrayTRCTag> for TagSignature {
    open spec fn obeys_from_spec() -> bool {
        true
    }

    open spec fn from_spec(_marker: GrayTRCTag) -> TagSignature {
        TagSignature::GrayTRC
    }
}

/// Marker for the `GreenMatrixColumn` tag.
#[derive(Debug, Clone, Copy, Default)]
pub struct GreenMatrixColumnTag;

impl From<GreenMatrixColumnTag> for TagSignature {
    fn from(_marker: GreenMatrixColumnTag) -> (sig: TagSignature) {
        TagSignature::GreenMatrixColumn
    }
}

impl vstd::std_specs::convert::FromSpecImpl<GreenMatrixColumnTag> for TagSignature {
    open spec fn obeys_from_spec() -> bool {
        true
    }

    open spec fn from_spec(_marker: GreenMatrixColumnTag) -> TagSignature {
        TagSignature::GreenMatrixColumn
    }
}

/// Marker for the `GreenTRC` tag.
#[derive(Debug, Clone, Copy, Default)]
pub struct GreenTRCTag;

impl From<GreenTRCTag> for TagSignature {
    fn from(_marker: GreenTRCTag) -> (sig: TagSignature) {
        TagSignature::GreenTRC
    }
}

impl vstd::std_specs::convert::FromSpecImpl<GreenTRCTag> for TagSignature {
    open spec fn obeys_from_spec() -> bool {
        true
    }

    open spec fn from_spec(_marker: GreenTRCTag) -> TagSignature {
        TagSignature::GreenTRC
    }
}

/// Marker for the `Luminance` tag.
#[derive(Debug, Clone, Copy, Default)]
pub struct LuminanceTag;

impl From<LuminanceTag> for TagSignature {
    fn from(_marker: LuminanceTag) -> (sig: TagSignature) {
        TagSignature::Luminance
    }
}

impl vstd::std_specs::convert::FromSpecImpl<LuminanceTag> for TagSignature {
    open spec fn obeys_from_spec() -> bool {
        true
    }

    open spec fn from_spec(_marker: LuminanceTag) -> TagSignature {
        TagSignature::Luminance
    }
}

/// Marker for the `Measurement` tag.
#[derive(Debug, Clone, Copy, Default)]
pub struct MeasurementTag;

impl From<MeasurementTag> for TagSignature {
    fn from(_marker: MeasurementTag) -> (sig: TagSignature) {
        TagSignature::Measurement
    }
}

impl vstd::std_specs::convert::FromSpecImpl<MeasurementTag> for TagSignature {
    open spec fn obeys_from_spec() -> bool {
        true
    }

    open spec fn from_spec(_marker: MeasurementTag) -> TagSignature {
        TagSignature::Measurement
    }
}

/// Marker for the `Metadata` tag.
#[derive(Debug, Clone, Copy, Default)]
pub struct MetadataTag;

impl From<MetadataTag> for TagSignature {
    fn from(_marker: MetadataTag) -> (sig: TagSignature) {
        TagSignature::Metadata
    }
}

impl vstd::std_specs::convert::FromSpecImpl<MetadataTag> for TagSignature {
    open spec fn obeys_from_spec() -> bool {
        true
    }

    open spec fn from_spec(_marker: MetadataTag) -> TagSignature {
        TagSignature::Metadata
    }
}

/// Marker for the `MediaBlackPoint` tag.
#[derive(Debug, Clone, Copy, Default)]
pub struct MediaBlackPointTag;

impl From<MediaBlackPointTag> for TagSignature {
    fn from(_marker: MediaBlackPointTag) -> (sig: TagSignature) {
        TagSignature::MediaBlackPoint
    }
}

impl vstd::std_specs::convert::FromSpecImpl<MediaBlackPointTag> for TagSignature {
    open spec fn obeys_from_spec() -> bool {
        true
    }

    open spec fn from_spec(_marker: MediaBlackPointTag) -> TagSignature {
        TagSignature::MediaBlackPoint
    }
}

/// Marker for the `MediaWhitePoint` tag.
#[derive(Debug, Clone, Copy, Default)]
pub struct MediaWhitePointTag;

impl From<MediaWhitePointTag> for TagSignature {
    fn from(_marker: MediaWhitePointTag) -> (sig: TagSignature) {
        TagSignature::MediaWhitePoint
    }
}

impl vstd::std_specs::convert::FromSpecImpl<MediaWhitePointTag> for TagSignature {
    open spec fn obeys_from_spec() -> bool {
        true
    }

    open spec fn from_spec(_marker: MediaWhitePointTag) -> TagSignature {
        TagSignature::MediaWhitePoint
    }
}

/// Marker for the `NamedColor` tag.
#[derive(Debug, Clone, Copy, Default)]
pub struct NamedColorTag;

impl From<NamedColorTag> for TagSignature {
    fn from(_marker: NamedColorTag) -> (sig: TagSignature) {
        TagSignature::NamedColor
    }
}

impl vstd::std_specs::convert::FromSpecImpl<NamedColorTag> for TagSignature {
    open spec fn obeys_from_spec() -> bool {
        true
    }

    open spec fn from_spec(_marker: NamedColorTag) -> TagSignature {
        TagSignature::NamedColor
    }
}

/// Marker for the `NamedColor2` tag.
#[derive(Debug, Clone, Copy, Default)]
pub struct NamedColor2Tag;

impl From<NamedColor2Tag> for TagSignature {
    fn from(_marker: NamedColor2Tag) -> (sig: TagSignature) {
        TagSignature::NamedColor2
    }
}

impl vstd::std_specs::convert::FromSpecImpl<NamedColor2Tag> for TagSignature {
    open spec fn obeys_from_spec() -> bool {
        true
    }

    open spec fn from_spec(_marker: NamedColor2Tag) -> TagSignature {
        TagSignature::NamedColor2
    }
}

/// Marker for the `OutputResponse` tag.
#[derive(Debug, Clone, Copy, Default)]
pub struct OutputResponseTag;

impl From<OutputResponseTag> for TagSignature {
    fn from(_marker: OutputResponseTag) -> (sig: TagSignature) {
        TagSignature::OutputResponse
    }
}

impl vstd::std_specs::convert::FromSpecImpl<OutputResponseTag> for TagSignature {
    open spec fn obeys_from_spec() -> bool {
        true
    }

    open spec fn from_spec(_marker: OutputResponseTag) -> TagSignature {
        TagSignature::OutputResponse
    }
}

/// Marker for the `PerceptualRenderingIntentGamut` tag.
#[derive(Debug, Clone, Copy, Default)]
pub struct PerceptualRenderingIntentGamutTag;

impl From<PerceptualRenderingIntentGamutTag> for TagSignature {
    fn from(_marker: PerceptualRenderingIntentGamutTag) -> (sig: TagSignature) {
        TagSignature::PerceptualRenderingIntentGamut
    }
}

impl vstd::std_specs::convert::FromSpecImpl<PerceptualRenderingIntentGamutTag> for TagSignature {
    open spec fn obeys_from_spec() -> bool {
        true
    }

    open spec fn from_spec(_marker: PerceptualRenderingIntentGamutTag) -> TagSignature {
        TagSignature::PerceptualRenderingIntentGamut
    }
}

/// Marker for the `Preview0` tag.
#[derive(Debug, Clone, Copy, Default)]
pub struct Preview0Tag;

impl From<Preview0Tag> for TagSignature {
    fn from(_marker: Preview0Tag) -> (sig: TagSignature) {
        TagSignature::Preview0
    }
}

impl vstd::std_specs::convert::FromSpecImpl<Preview0Tag> for TagSignature {
    open spec fn obeys_from_spec() -> bool {
        true
    }

    open spec fn from_spec(_marker: Preview0Tag) -> TagSignature {
        TagSignature::Preview0
    }
}

/// Marker for the `Preview1` tag.
#[derive(Debug, Clone, Copy, Default)]
pub struct Preview1Tag;

impl From<Preview1Tag> for TagSignature {
    fn from(_marker: Preview1Tag) -> (sig: TagSignature) {
        TagSignature::Preview1
    }
}

impl vstd::std_specs::convert::FromSpecImpl<Preview1Tag> for TagSignature {
    open spec fn obeys_from_spec() -> bool {
        true
    }

    open spec fn from_spec(_marker: Preview1Tag) -> TagSignature {
        TagSignature::Preview1
    }
}

/// Marker for the `Preview2` tag.
#[derive(Debug, Clone, Copy, Default)]
pub struct Preview2Tag;

impl From<Preview2Tag> for TagSignature {
    fn from(_marker: Preview2Tag) -> (sig: TagSignature) {
        TagSignature::Preview2
    }
}

impl vstd::std_specs::convert::FromSpecImpl<Preview2Tag> for TagSignature {
    open spec fn obeys_from_spec() -> bool {
        true
    }

    open spec fn from_spec(_marker: Preview2Tag) -> TagSignature {
        TagSignature::Preview2
    }
}

/// Marker for the `ProfileDescription` tag.
#[derive(Debug, Clone, Copy, Default)]
pub struct ProfileDescriptionTag;

impl From<ProfileDescriptionTag> for TagSignature {
    fn from(_marker: ProfileDescriptionTag) -> (sig: TagSignature) {
        TagSignature::ProfileDescription
    }
}

impl vstd::std_specs::convert::FromSpecImpl<ProfileDescriptionTag> for TagSignature {
    open spec fn obeys_from_spec() -> bool {
        true
    }

    open spec fn from_spec(_marker: ProfileDescriptionTag) -> TagSignature {
        TagSignature::ProfileDescription
    }
}

/// Marker for the `ProfileSequenceDesc` tag.
#[derive(Debug, Clone, Copy, Default)]
pub struct ProfileSequenceDescTag;

impl From<ProfileSequenceDescTag> for TagSignature {
    fn from(_marker: ProfileSequenceDescTag) -> (sig: TagSignature) {
        TagSignature::ProfileSequenceDesc
    }
}

impl vstd::std_specs::convert::FromSpecImpl<ProfileSequenceDescTag> for TagSignature {
    open spec fn obeys_from_spec() -> bool {
        true
    }

    open spec fn from_spec(_marker: ProfileSequenceDescTag) -> TagSignature {
        TagSignature::ProfileSequenceDesc
    }
}

/// Marker for the `ProfileSequenceIdendtifier` tag.
#[derive(Debug, Clone, Copy, Default)]
pub struct ProfileSeqeunceIdendtifierTag;

impl From<ProfileSeqeunceIdendtifierTag> for TagSignature {
    fn from(_marker: ProfileSeqeunceIdendtifierTag) -> (sig: TagSignature) {
        TagSignature::ProfileSequenceIdendtifier
    }
}

impl vstd::std_specs::convert::FromSpecImpl<ProfileSeqeunceIdendtifierTag> for TagSignature {
    open spec fn obeys_from_spec() -> bool {
        true
    }

    open spec fn from_spec(_marker: ProfileSeqeunceIdendtifierTag) -> TagSignature {
        TagSignature::ProfileSequenceIdendtifier
    }
}

/// Marker for the `RedMatrixColumn` tag.
#[derive(Debug, Clone, Copy, Default)]
pub struct RedMatrixColumnTag;

impl From<RedMatrixColumnTag> for TagSignature {
    fn from(_marker: RedMatrixColumnTag) -> (sig: TagSignature) {
        TagSignature::RedMatrixColumn
    }
}

impl vstd::std_specs::convert::FromSpecImpl<RedMatrixColumnTag> for TagSignature {
    open spec fn obeys_from_spec() -> bool {
        true
    }

    open spec fn from_spec(_marker: RedMatrixColumnTag) -> TagSignature {
        TagSignature::RedMatrixColumn
    }
}

/// Marker for the `RedTRC` tag.
#[derive(Debug, Clone, Copy, Default)]
pub struct RedTRCTag;

impl From<RedTRCTag> for TagSignature {
    fn from(_marker: RedTRCTag) -> (sig: TagSignature) {
        TagSignature::RedTRC
    }
}

impl vstd::std_specs::convert::FromSpecImpl<RedTRCTag> for TagSignature {
    open spec fn obeys_from_spec() -> bool {
        true
    }

    open spec fn from_spec(_marker: RedTRCTag) -> TagSignature {
        TagSignature::RedTRC
    }
}

/// Marker for the `ReferenceName` tag.
#[derive(Debug, Clone, Copy, Default)]
pub struct ReferenceNameTag;

impl From<ReferenceNameTag> for TagSignature {
    fn from(_marker: ReferenceNameTag) -> (sig: TagSignature) {
        TagSignature::ReferenceName
    }
}

impl vstd::std_specs::convert::FromSpecImpl<ReferenceNameTag> for TagSignature {
    open spec fn obeys_from_spec() -> bool {
        true
    }

    open spec fn from_spec(_marker: ReferenceNameTag) -> TagSignature {
        TagSignature::ReferenceName
    }
}

/// Marker for the `Technology` tag.
#[derive(Debug, Clone, Copy, Default)]
pub struct TechnologyTag;

impl From<TechnologyTag> for TagSignature {
    fn from(_marker: TechnologyTag) -> (sig: TagSignature) {
        TagSignature::Technology
    }
}

impl vstd::std_specs::convert::FromSpecImpl<TechnologyTag> for TagSignature {
    open spec fn obeys_from_spec() -> bool {
        true
    }

    open spec fn from_spec(_marker: TechnologyTag) -> TagSignature {
        TagSignature::Technology
    }
}

/// Marker for the `ViewingCondDesc` tag.
#[derive(Debug, Clone, Copy, Default)]
pub struct ViewingCondDescTag;

impl From<ViewingCondDescTag> for TagSignature {
    fn from(_marker: ViewingCondDescTag) -> (sig: TagSignature) {
        TagSignature::ViewingCondDesc
    }
}

impl vstd::std_specs::convert::FromSpecImpl<ViewingCondDescTag> for TagSignature {
    open spec fn obeys_from_spec() -> bool {
        true
    }

    open spec fn from_spec(_marker: ViewingCondDescTag) -> TagSignature {
        TagSignature::ViewingCondDesc
    }
}

/// Marker for the `ViewingConditions` tag.
#[derive(Debug, Clone, Copy, Default)]
pub struct ViewingConditionsTag;

impl From<ViewingConditionsTag> for TagSignature {
    fn from(_marker: ViewingConditionsTag) -> (sig: TagSignature) {
        TagSignature::ViewingConditions
    }
}

impl vstd::std_specs::convert::FromSpecImpl<ViewingConditionsTag> for TagSignature {
    open spec fn obeys_from_spec() -> bool {
        true
    }

    open spec fn from_spec(_marker: ViewingConditionsTag) -> TagSignature {
        TagSignature::ViewingConditions
    }
}

/// Marker for the `NativeDisplayInfo` tag.
#[derive(Debug, Clone, Copy, Default)]
pub struct NativeDisplayInfoTag;

impl From<NativeDisplayInfoTag> for TagSignature {
    fn from(_marker: NativeDisplayInfoTag) -> (sig: TagSignature) {
        TagSignature::NativeDisplayInfo
    }
}

impl vstd::std_specs::convert::FromSpecImpl<NativeDisplayInfoTag> for TagSignature {
    open spec fn obeys_from_spec() -> bool {
        true
    }

    open spec fn from_spec(_marker: NativeDisplayInfoTag) -> TagSignature {
        TagSignature::NativeDisplayInfo
    }
}

/// Marker for the `Vcgt` tag.
#[derive(Debug, Clone, Copy, Default)]
pub struct VcgtTag;

impl From<VcgtTag> for TagSignature {
    fn from(_marker: VcgtTag) -> (sig: TagSignature) {
        TagSignature::Vcgt
    }
}

impl vstd::std_specs::convert::FromSpecImpl<VcgtTag> for TagSignature {
    open spec fn obeys_from_spec() -> bool {
        true
    }

    open spec fn from_spec(_marker: VcgtTag) -> TagSignature {
        TagSignature::Vcgt
    }
}

/// Marker for the `Vcgp` tag.
#[derive(Debug, Clone, Copy, Default)]
pub struct VcgpTag;

impl From<VcgpTag> for TagSignature {
    fn from(_marker: VcgpTag) -> (sig: TagSignature) {
        TagSignature::Vcgp
    }
}

impl vstd::std_specs::convert::FromSpecImpl<VcgpTag> for TagSignature {
    open spec fn obeys_from_spec() -> bool {
        true
    }

    open spec fn from_spec(_marker: VcgpTag) -> TagSignature {
        TagSignature::Vcgp
    }
}

} // verus!
