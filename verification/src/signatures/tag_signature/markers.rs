//! One zero-sized marker type per tag signature of the full table, each
//! converting into its [`TagSignature`] variant.

use vstd::prelude::*;

use super::TagSignature;

verus! {

/// A zero-sized type standing for the `AToB0Tag` tag signature.
#[derive(Default, Copy, Clone, Debug, PartialEq, Eq)]
pub struct AToB0Tag;

impl From<AToB0Tag> for TagSignature {
    fn from(_marker: AToB0Tag) -> (sig: TagSignature) {
        TagSignature::AToB0Tag
    }
}

impl vstd::std_specs::convert::FromSpecImpl<AToB0Tag> for TagSignature {
    open spec fn obeys_from_spec() -> bool {
        true
    }

    open spec fn from_spec(_marker: AToB0Tag) -> TagSignature {
        TagSignature::AToB0Tag
    }
}

/// A zero-sized type standing for the `AToB1Tag` tag signature.
#[derive(Default, Copy, Clone, Debug, PartialEq, Eq)]
pub struct AToB1Tag;

impl From<AToB1Tag> for TagSignature {
    fn from(_marker: AToB1Tag) -> (sig: TagSignature) {
        TagSignature::AToB1Tag
    }
}

impl vstd::std_specs::convert::FromSpecImpl<AToB1Tag> for TagSignature {
    open spec fn obeys_from_spec() -> bool {
        true
    }

    open spec fn from_spec(_marker: AToB1Tag) -> TagSignature {
        TagSignature::AToB1Tag
    }
}

/// A zero-sized type standing for the `AToB2Tag` tag signature.
#[derive(Default, Copy, Clone, Debug, PartialEq, Eq)]
pub struct AToB2Tag;

impl From<AToB2Tag> for TagSignature {
    fn from(_marker: AToB2Tag) -> (sig: TagSignature) {
        TagSignature::AToB2Tag
    }
}

impl vstd::std_specs::convert::FromSpecImpl<AToB2Tag> for TagSignature {
    open spec fn obeys_from_spec() -> bool {
        true
    }

    open spec fn from_spec(_marker: AToB2Tag) -> TagSignature {
        TagSignature::AToB2Tag
    }
}

/// A zero-sized type standing for the `AToB3Tag` tag signature.
#[derive(Default, Copy, Clone, Debug, PartialEq, Eq)]
pub struct AToB3Tag;

impl From<AToB3Tag> for TagSignature {
    fn from(_marker: AToB3Tag) -> (sig: TagSignature) {
        TagSignature::AToB3Tag
    }
}

impl vstd::std_specs::convert::FromSpecImpl<AToB3Tag> for TagSignature {
    open spec fn obeys_from_spec() -> bool {
        true
    }

    open spec fn from_spec(_marker: AToB3Tag) -> TagSignature {
        TagSignature::AToB3Tag
    }
}

/// A zero-sized type standing for the `AToM0Tag` tag signature.
#[derive(Default, Copy, Clone, Debug, PartialEq, Eq)]
pub struct AToM0Tag;

impl From<AToM0Tag> for TagSignature {
    fn from(_marker: AToM0Tag) -> (sig: TagSignature) {
        TagSignature::AToM0Tag
    }
}

impl vstd::std_specs::convert::FromSpecImpl<AToM0Tag> for TagSignature {
    open spec fn obeys_from_spec() -> bool {
        true
    }

    open spec fn from_spec(_marker: AToM0Tag) -> TagSignature {
        TagSignature::AToM0Tag
    }
}

/// A zero-sized type standing for the `BlueMatrixColumnTag` tag signature.
#[derive(Default, Copy, Clone, Debug, PartialEq, Eq)]
pub struct BlueMatrixColumnTag;

impl From<BlueMatrixColumnTag> for TagSignature {
    fn from(_marker: BlueMatrixColumnTag) -> (sig: TagSignature) {
        TagSignature::BlueMatrixColumnTag
    }
}

impl vstd::std_specs::convert::FromSpecImpl<BlueMatrixColumnTag> for TagSignature {
    open spec fn obeys_from_spec() -> bool {
        true
    }

    open spec fn from_spec(_marker: BlueMatrixColumnTag) -> TagSignature {
        TagSignature::BlueMatrixColumnTag
    }
}

/// A zero-sized type standing for the `BlueTRCTag` tag signature.
#[derive(Default, Copy, Clone, Debug, PartialEq, Eq)]
pub struct BlueTRCTag;

impl From<BlueTRCTag> for TagSignature {
    fn from(_marker: BlueTRCTag) -> (sig: TagSignature) {
        TagSignature::BlueTRCTag
    }
}

impl vstd::std_specs::convert::FromSpecImpl<BlueTRCTag> for TagSignature {
    open spec fn obeys_from_spec() -> bool {
        true
    }

    open spec fn from_spec(_marker: BlueTRCTag) -> TagSignature {
        TagSignature::BlueTRCTag
    }
}

/// A zero-sized type standing for the `BrdfColorimetricParameter0Tag` tag signature.
#[derive(Default, Copy, Clone, Debug, PartialEq, Eq)]
pub struct BrdfColorimetricParameter0Tag;

impl From<BrdfColorimetricParameter0Tag> for TagSignature {
    fn from(_marker: BrdfColorimetricParameter0Tag) -> (sig: TagSignature) {
        TagSignature::BrdfColorimetricParameter0Tag
    }
}

impl vstd::std_specs::convert::FromSpecImpl<BrdfColorimetricParameter0Tag> for TagSignature {
    open spec fn obeys_from_spec() -> bool {
        true
    }

    open spec fn from_spec(_marker: BrdfColorimetricParameter0Tag) -> TagSignature {
        TagSignature::BrdfColorimetricParameter0Tag
    }
}

/// A zero-sized type standing for the `BrdfColorimetricParameter1Tag` tag signature.
#[derive(Default, Copy, Clone, Debug, PartialEq, Eq)]
pub struct BrdfColorimetricParameter1Tag;

impl From<BrdfColorimetricParameter1Tag> for TagSignature {
    fn from(_marker: BrdfColorimetricParameter1Tag) -> (sig: TagSignature) {
        TagSignature::BrdfColorimetricParameter1Tag
    }
}

impl vstd::std_specs::convert::FromSpecImpl<BrdfColorimetricParameter1Tag> for TagSignature {
    open spec fn obeys_from_spec() -> bool {
        true
    }

    open spec fn from_spec(_marker: BrdfColorimetricParameter1Tag) -> TagSignature {
        TagSignature::BrdfColorimetricParameter1Tag
    }
}

/// A zero-sized type standing for the `BrdfColorimetricParameter2Tag` tag signature.
#[derive(Default, Copy, Clone, Debug, PartialEq, Eq)]
pub struct BrdfColorimetricParameter2Tag;

impl From<BrdfColorimetricParameter2Tag> for TagSignature {
    fn from(_marker: BrdfColorimetricParameter2Tag) -> (sig: TagSignature) {
        TagSignature::BrdfColorimetricParameter2Tag
    }
}

impl vstd::std_specs::convert::FromSpecImpl<BrdfColorimetricParameter2Tag> for TagSignature {
    open spec fn obeys_from_spec() -> bool {
        true
    }

    open spec fn from_spec(_marker: BrdfColorimetricParameter2Tag) -> TagSignature {
        TagSignature::BrdfColorimetricParameter2Tag
    }
}

/// A zero-sized type standing for the `BrdfColorimetricParameter3Tag` tag signature.
#[derive(Default, Copy, Clone, Debug, PartialEq, Eq)]
pub struct BrdfColorimetricParameter3Tag;

impl From<BrdfColorimetricParameter3Tag> for TagSignature {
    fn from(_marker: BrdfColorimetricParameter3Tag) -> (sig: TagSignature) {
        TagSignature::BrdfColorimetricParameter3Tag
    }
}

impl vstd::std_specs::convert::FromSpecImpl<BrdfColorimetricParameter3Tag> for TagSignature {
    open spec fn obeys_from_spec() -> bool {
        true
    }

    open spec fn from_spec(_marker: BrdfColorimetricParameter3Tag) -> TagSignature {
        TagSignature::BrdfColorimetricParameter3Tag
    }
}

/// A zero-sized type standing for the `BrdfSpectralParameter0Tag` tag signature.
#[derive(Default, Copy, Clone, Debug, PartialEq, Eq)]
pub struct BrdfSpectralParameter0Tag;

impl From<BrdfSpectralParameter0Tag> for TagSignature {
    fn from(_marker: BrdfSpectralParameter0Tag) -> (sig: TagSignature) {
        TagSignature::BrdfSpectralParameter0Tag
    }
}

impl vstd::std_specs::convert::FromSpecImpl<BrdfSpectralParameter0Tag> for TagSignature {
    open spec fn obeys_from_spec() -> bool {
        true
    }

    open spec fn from_spec(_marker: BrdfSpectralParameter0Tag) -> TagSignature {
        TagSignature::BrdfSpectralParameter0Tag
    }
}

/// A zero-sized type standing for the `BrdfSpectralParameter1Tag` tag signature.
#[derive(Default, Copy, Clone, Debug, PartialEq, Eq)]
pub struct BrdfSpectralParameter1Tag;

impl From<BrdfSpectralParameter1Tag> for TagSignature {
    fn from(_marker: BrdfSpectralParameter1Tag) -> (sig: TagSignature) {
        TagSignature::BrdfSpectralParameter1Tag
    }
}

impl vstd::std_specs::convert::FromSpecImpl<BrdfSpectralParameter1Tag> for TagSignature {
    open spec fn obeys_from_spec() -> bool {
        true
    }

    open spec fn from_spec(_marker: BrdfSpectralParameter1Tag) -> TagSignature {
        TagSignature::BrdfSpectralParameter1Tag
    }
}

/// A zero-sized type standing for the `BrdfSpectralParameter2Tag` tag signature.
#[derive(Default, Copy, Clone, Debug, PartialEq, Eq)]
pub struct BrdfSpectralParameter2Tag;

impl From<BrdfSpectralParameter2Tag> for TagSignature {
    fn from(_marker: BrdfSpectralParameter2Tag) -> (sig: TagSignature) {
        TagSignature::BrdfSpectralParameter2Tag
    }
}

impl vstd::std_specs::convert::FromSpecImpl<BrdfSpectralParameter2Tag> for TagSignature {
    open spec fn obeys_from_spec() -> bool {
        true
    }

    open spec fn from_spec(_marker: BrdfSpectralParameter2Tag) -> TagSignature {
        TagSignature::BrdfSpectralParameter2Tag
    }
}

/// A zero-sized type standing for the `BrdfSpectralParameter3Tag` tag signature.
#[derive(Default, Copy, Clone, Debug, PartialEq, Eq)]
pub struct BrdfSpectralParameter3Tag;

impl From<BrdfSpectralParameter3Tag> for TagSignature {
    fn from(_marker: BrdfSpectralParameter3Tag) -> (sig: TagSignature) {
        TagSignature::BrdfSpectralParameter3Tag
    }
}

impl vstd::std_specs::convert::FromSpecImpl<BrdfSpectralParameter3Tag> for TagSignature {
    open spec fn obeys_from_spec() -> bool {
        true
    }

    open spec fn from_spec(_marker: BrdfSpectralParameter3Tag) -> TagSignature {
        TagSignature::BrdfSpectralParameter3Tag
    }
}

/// A zero-sized type standing for the `BRDFAToB0Tag` tag signature.
#[derive(Default, Copy, Clone, Debug, PartialEq, Eq)]
pub struct BRDFAToB0Tag;

impl From<BRDFAToB0Tag> for TagSignature {
    fn from(_marker: BRDFAToB0Tag) -> (sig: TagSignature) {
        TagSignature::BRDFAToB0Tag
    }
}

impl vstd::std_specs::convert::FromSpecImpl<BRDFAToB0Tag> for TagSignature {
    open spec fn obeys_from_spec() -> bool {
        true
    }

    open spec fn from_spec(_marker: BRDFAToB0Tag) -> TagSignature {
        TagSignature::BRDFAToB0Tag
    }
}

/// A zero-sized type standing for the `BRDFAToB1Tag` tag signature.
#[derive(Default, Copy, Clone, Debug, PartialEq, Eq)]
pub struct BRDFAToB1Tag;

impl From<BRDFAToB1Tag> for TagSignature {
    fn from(_marker: BRDFAToB1Tag) -> (sig: TagSignature) {
        TagSignature::BRDFAToB1Tag
    }
}

impl vstd::std_specs::convert::FromSpecImpl<BRDFAToB1Tag> for TagSignature {
    open spec fn obeys_from_spec() -> bool {
        true
    }

    open spec fn from_spec(_marker: BRDFAToB1Tag) -> TagSignature {
        TagSignature::BRDFAToB1Tag
    }
}

/// A zero-sized type standing for the `BRDFAToB2Tag` tag signature.
#[derive(Default, Copy, Clone, Debug, PartialEq, Eq)]
pub struct BRDFAToB2Tag;

impl From<BRDFAToB2Tag> for TagSignature {
    fn from(_marker: BRDFAToB2Tag) -> (sig: TagSignature) {
        TagSignature::BRDFAToB2Tag
    }
}

impl vstd::std_specs::convert::FromSpecImpl<BRDFAToB2Tag> for TagSignature {
    open spec fn obeys_from_spec() -> bool {
        true
    }

    open spec fn from_spec(_marker: BRDFAToB2Tag) -> TagSignature {
        TagSignature::BRDFAToB2Tag
    }
}

/// A zero-sized type standing for the `BRDFAToB3Tag` tag signature.
#[derive(Default, Copy, Clone, Debug, PartialEq, Eq)]
pub struct BRDFAToB3Tag;

impl From<BRDFAToB3Tag> for TagSignature {
    fn from(_marker: BRDFAToB3Tag) -> (sig: TagSignature) {
        TagSignature::BRDFAToB3Tag
    }
}

impl vstd::std_specs::convert::FromSpecImpl<BRDFAToB3Tag> for TagSignature {
    open spec fn obeys_from_spec() -> bool {
        true
    }

    open spec fn from_spec(_marker: BRDFAToB3Tag) -> TagSignature {
        TagSignature::BRDFAToB3Tag
    }
}

/// A zero-sized type standing for the `BRDFDToB0Tag` tag signature.
#[derive(Default, Copy, Clone, Debug, PartialEq, Eq)]
pub struct BRDFDToB0Tag;

impl From<BRDFDToB0Tag> for TagSignature {
    fn from(_marker: BRDFDToB0Tag) -> (sig: TagSignature) {
        TagSignature::BRDFDToB0Tag
    }
}

impl vstd::std_specs::convert::FromSpecImpl<BRDFDToB0Tag> for TagSignature {
    open spec fn obeys_from_spec() -> bool {
        true
    }

    open spec fn from_spec(_marker: BRDFDToB0Tag) -> TagSignature {
        TagSignature::BRDFDToB0Tag
    }
}

/// A zero-sized type standing for the `BRDFDToB1Tag` tag signature.
#[derive(Default, Copy, Clone, Debug, PartialEq, Eq)]
pub struct BRDFDToB1Tag;

impl From<BRDFDToB1Tag> for TagSignature {
    fn from(_marker: BRDFDToB1Tag) -> (sig: TagSignature) {
        TagSignature::BRDFDToB1Tag
    }
}

impl vstd::std_specs::convert::FromSpecImpl<BRDFDToB1Tag> for TagSignature {
    open spec fn obeys_from_spec() -> bool {
        true
    }

    open spec fn from_spec(_marker: BRDFDToB1Tag) -> TagSignature {
        TagSignature::BRDFDToB1Tag
    }
}

/// A zero-sized type standing for the `BRDFDToB2Tag` tag signature.
#[derive(Default, Copy, Clone, Debug, PartialEq, Eq)]
pub struct BRDFDToB2Tag;

impl From<BRDFDToB2Tag> for TagSignature {
    fn from(_marker: BRDFDToB2Tag) -> (sig: TagSignature) {
        TagSignature::BRDFDToB2Tag
    }
}

impl vstd::std_specs::convert::FromSpecImpl<BRDFDToB2Tag> for TagSignature {
    open spec fn obeys_from_spec() -> bool {
        true
    }

    open spec fn from_spec(_marker: BRDFDToB2Tag) -> TagSignature {
        TagSignature::BRDFDToB2Tag
    }
}

/// A zero-sized type standing for the `BRDFDToB3Tag` tag signature.
#[derive(Default, Copy, Clone, Debug, PartialEq, Eq)]
pub struct BRDFDToB3Tag;

impl From<BRDFDToB3Tag> for TagSignature {
    fn from(_marker: BRDFDToB3Tag) -> (sig: TagSignature) {
        TagSignature::BRDFDToB3Tag
    }
}

impl vstd::std_specs::convert::FromSpecImpl<BRDFDToB3Tag> for TagSignature {
    open spec fn obeys_from_spec() -> bool {
        true
    }

    open spec fn from_spec(_marker: BRDFDToB3Tag) -> TagSignature {
        TagSignature::BRDFDToB3Tag
    }
}

/// A zero-sized type standing for the `BRDFMToB0Tag` tag signature.
#[derive(Default, Copy, Clone, Debug, PartialEq, Eq)]
pub struct BRDFMToB0Tag;

impl From<BRDFMToB0Tag> for TagSignature {
    fn from(_marker: BRDFMToB0Tag) -> (sig: TagSignature) {
        TagSignature::BRDFMToB0Tag
    }
}

impl vstd::std_specs::convert::FromSpecImpl<BRDFMToB0Tag> for TagSignature {
    open spec fn obeys_from_spec() -> bool {
        true
    }

    open spec fn from_spec(_marker: BRDFMToB0Tag) -> TagSignature {
        TagSignature::BRDFMToB0Tag
    }
}

/// A zero-sized type standing for the `BRDFMToB1Tag` tag signature.
#[derive(Default, Copy, Clone, Debug, PartialEq, Eq)]
pub struct BRDFMToB1Tag;

impl From<BRDFMToB1Tag> for TagSignature {
    fn from(_marker: BRDFMToB1Tag) -> (sig: TagSignature) {
        TagSignature::BRDFMToB1Tag
    }
}

impl vstd::std_specs::convert::FromSpecImpl<BRDFMToB1Tag> for TagSignature {
    open spec fn obeys_from_spec() -> bool {
        true
    }

    open spec fn from_spec(_marker: BRDFMToB1Tag) -> TagSignature {
        TagSignature::BRDFMToB1Tag
    }
}

/// A zero-sized type standing for the `BRDFMToB2Tag` tag signature.
#[derive(Default, Copy, Clone, Debug, PartialEq, Eq)]
pub struct BRDFMToB2Tag;

impl From<BRDFMToB2Tag> for TagSignature {
    fn from(_marker: BRDFMToB2Tag) -> (sig: TagSignature) {
        TagSignature::BRDFMToB2Tag
    }
}

impl vstd::std_specs::convert::FromSpecImpl<BRDFMToB2Tag> for TagSignature {
    open spec fn obeys_from_spec() -> bool {
        true
    }

    open spec fn from_spec(_marker: BRDFMToB2Tag) -> TagSignature {
        TagSignature::BRDFMToB2Tag
    }
}

/// A zero-sized type standing for the `BRDFMToB3Tag` tag signature.
#[derive(Default, Copy, Clone, Debug, PartialEq, Eq)]
pub struct BRDFMToB3Tag;

impl From<BRDFMToB3Tag> for TagSignature {
    fn from(_marker: BRDFMToB3Tag) -> (sig: TagSignature) {
        TagSignature::BRDFMToB3Tag
    }
}

impl vstd::std_specs::convert::FromSpecImpl<BRDFMToB3Tag> for TagSignature {
    open spec fn obeys_from_spec() -> bool {
        true
    }

    open spec fn from_spec(_marker: BRDFMToB3Tag) -> TagSignature {
        TagSignature::BRDFMToB3Tag
    }
}

/// A zero-sized type standing for the `BRDFMToS0Tag` tag signature.
#[derive(Default, Copy, Clone, Debug, PartialEq, Eq)]
pub struct BRDFMToS0Tag;

impl From<BRDFMToS0Tag> for TagSignature {
    fn from(_marker: BRDFMToS0Tag) -> (sig: TagSignature) {
        TagSignature::BRDFMToS0Tag
    }
}

impl vstd::std_specs::convert::FromSpecImpl<BRDFMToS0Tag> for TagSignature {
    open spec fn obeys_from_spec() -> bool {
        true
    }

    open spec fn from_spec(_marker: BRDFMToS0Tag) -> TagSignature {
        TagSignature::BRDFMToS0Tag
    }
}

/// A zero-sized type standing for the `BRDFMToS1Tag` tag signature.
#[derive(Default, Copy, Clone, Debug, PartialEq, Eq)]
pub struct BRDFMToS1Tag;

impl From<BRDFMToS1Tag> for TagSignature {
    fn from(_marker: BRDFMToS1Tag) -> (sig: TagSignature) {
        TagSignature::BRDFMToS1Tag
    }
}

impl vstd::std_specs::convert::FromSpecImpl<BRDFMToS1Tag> for TagSignature {
    open spec fn obeys_from_spec() -> bool {
        true
    }

    open spec fn from_spec(_marker: BRDFMToS1Tag) -> TagSignature {
        TagSignature::BRDFMToS1Tag
    }
}

/// A zero-sized type standing for the `BRDFMToS2Tag` tag signature.
#[derive(Default, Copy, Clone, Debug, PartialEq, Eq)]
pub struct BRDFMToS2Tag;

impl From<BRDFMToS2Tag> for TagSignature {
    fn from(_marker: BRDFMToS2Tag) -> (sig: TagSignature) {
        TagSignature::BRDFMToS2Tag
    }
}

impl vstd::std_specs::convert::FromSpecImpl<BRDFMToS2Tag> for TagSignature {
    open spec fn obeys_from_spec() -> bool {
        true
    }

    open spec fn from_spec(_marker: BRDFMToS2Tag) -> TagSignature {
        TagSignature::BRDFMToS2Tag
    }
}

/// A zero-sized type standing for the `BRDFMToS3Tag` tag signature.
#[derive(Default, Copy, Clone, Debug, PartialEq, Eq)]
pub struct BRDFMToS3Tag;

impl From<BRDFMToS3Tag> for TagSignature {
    fn from(_marker: BRDFMToS3Tag) -> (sig: TagSignature) {
        TagSignature::BRDFMToS3Tag
    }
}

impl vstd::std_specs::convert::FromSpecImpl<BRDFMToS3Tag> for TagSignature {
    open spec fn obeys_from_spec() -> bool {
        true
    }

    open spec fn from_spec(_marker: BRDFMToS3Tag) -> TagSignature {
        TagSignature::BRDFMToS3Tag
    }
}

/// A zero-sized type standing for the `BToA0Tag` tag signature.
#[derive(Default, Copy, Clone, Debug, PartialEq, Eq)]
pub struct BToA0Tag;

impl From<BToA0Tag> for TagSignature {
    fn from(_marker: BToA0Tag) -> (sig: TagSignature) {
        TagSignature::BToA0Tag
    }
}

impl vstd::std_specs::convert::FromSpecImpl<BToA0Tag> for TagSignature {
    open spec fn obeys_from_spec() -> bool {
        true
    }

    open spec fn from_spec(_marker: BToA0Tag) -> TagSignature {
        TagSignature::BToA0Tag
    }
}

/// A zero-sized type standing for the `BToA1Tag` tag signature.
#[derive(Default, Copy, Clone, Debug, PartialEq, Eq)]
pub struct BToA1Tag;

impl From<BToA1Tag> for TagSignature {
    fn from(_marker: BToA1Tag) -> (sig: TagSignature) {
        TagSignature::BToA1Tag
    }
}

impl vstd::std_specs::convert::FromSpecImpl<BToA1Tag> for TagSignature {
    open spec fn obeys_from_spec() -> bool {
        true
    }

    open spec fn from_spec(_marker: BToA1Tag) -> TagSignature {
        TagSignature::BToA1Tag
    }
}

/// A zero-sized type standing for the `BToA2Tag` tag signature.
#[derive(Default, Copy, Clone, Debug, PartialEq, Eq)]
pub struct BToA2Tag;

impl From<BToA2Tag> for TagSignature {
    fn from(_marker: BToA2Tag) -> (sig: TagSignature) {
        TagSignature::BToA2Tag
    }
}

impl vstd::std_specs::convert::FromSpecImpl<BToA2Tag> for TagSignature {
    open spec fn obeys_from_spec() -> bool {
        true
    }

    open spec fn from_spec(_marker: BToA2Tag) -> TagSignature {
        TagSignature::BToA2Tag
    }
}

/// A zero-sized type standing for the `BToA3Tag` tag signature.
#[derive(Default, Copy, Clone, Debug, PartialEq, Eq)]
pub struct BToA3Tag;

impl From<BToA3Tag> for TagSignature {
    fn from(_marker: BToA3Tag) -> (sig: TagSignature) {
        TagSignature::BToA3Tag
    }
}

impl vstd::std_specs::convert::FromSpecImpl<BToA3Tag> for TagSignature {
    open spec fn obeys_from_spec() -> bool {
        true
    }

    open spec fn from_spec(_marker: BToA3Tag) -> TagSignature {
        TagSignature::BToA3Tag
    }
}

/// A zero-sized type standing for the `CalibrationDateTimeTag` tag signature.
#[derive(Default, Copy, Clone, Debug, PartialEq, Eq)]
pub struct CalibrationDateTimeTag;

impl From<CalibrationDateTimeTag> for TagSignature {
    fn from(_marker: CalibrationDateTimeTag) -> (sig: TagSignature) {
        TagSignature::CalibrationDateTimeTag
    }
}

impl vstd::std_specs::convert::FromSpecImpl<CalibrationDateTimeTag> for TagSignature {
    open spec fn obeys_from_spec() -> bool {
        true
    }

    open spec fn from_spec(_marker: CalibrationDateTimeTag) -> TagSignature {
        TagSignature::CalibrationDateTimeTag
    }
}

/// A zero-sized type standing for the `CharTargetTag` tag signature.
#[derive(Default, Copy, Clone, Debug, PartialEq, Eq)]
pub struct CharTargetTag;

impl From<CharTargetTag> for TagSignature {
    fn from(_marker: CharTargetTag) -> (sig: TagSignature) {
        TagSignature::CharTargetTag
    }
}

impl vstd::std_specs::convert::FromSpecImpl<CharTargetTag> for TagSignature {
    open spec fn obeys_from_spec() -> bool {
        true
    }

    open spec fn from_spec(_marker: CharTargetTag) -> TagSignature {
        TagSignature::CharTargetTag
    }
}

/// A zero-sized type standing for the `ChromaticAdaptationTag` tag signature.
#[derive(Default, Copy, Clone, Debug, PartialEq, Eq)]
pub struct ChromaticAdaptationTag;

impl From<ChromaticAdaptationTag> for TagSignature {
    fn from(_marker: ChromaticAdaptationTag) -> (sig: TagSignature) {
        TagSignature::ChromaticAdaptationTag
    }
}

impl vstd::std_specs::convert::FromSpecImpl<ChromaticAdaptationTag> for TagSignature {
    open spec fn obeys_from_spec() -> bool {
        true
    }

    open spec fn from_spec(_marker: ChromaticAdaptationTag) -> TagSignature {
        TagSignature::ChromaticAdaptationTag
    }
}

/// A zero-sized type standing for the `ChromaticityTag` tag signature.
#[derive(Default, Copy, Clone, Debug, PartialEq, Eq)]
pub struct ChromaticityTag;

impl From<ChromaticityTag> for TagSignature {
    fn from(_marker: ChromaticityTag) -> (sig: TagSignature) {
        TagSignature::ChromaticityTag
    }
}

impl vstd::std_specs::convert::FromSpecImpl<ChromaticityTag> for TagSignature {
    open spec fn obeys_from_spec() -> bool {
        true
    }

    open spec fn from_spec(_marker: ChromaticityTag) -> TagSignature {
        TagSignature::ChromaticityTag
    }
}

/// A zero-sized type standing for the `ColorEncodingParamsTag` tag signature.
#[derive(Default, Copy, Clone, Debug, PartialEq, Eq)]
pub struct ColorEncodingParamsTag;

impl From<ColorEncodingParamsTag> for TagSignature {
    fn from(_marker: ColorEncodingParamsTag) -> (sig: TagSignature) {
        TagSignature::ColorEncodingParamsTag
    }
}

impl vstd::std_specs::convert::FromSpecImpl<ColorEncodingParamsTag> for TagSignature {
    open spec fn obeys_from_spec() -> bool {
        true
    }

    open spec fn from_spec(_marker: ColorEncodingParamsTag) -> TagSignature {
        TagSignature::ColorEncodingParamsTag
    }
}

/// A zero-sized type standing for the `ColorSpaceNameTag` tag signature.
#[derive(Default, Copy, Clone, Debug, PartialEq, Eq)]
pub struct ColorSpaceNameTag;

impl From<ColorSpaceNameTag> for TagSignature {
    fn from(_marker: ColorSpaceNameTag) -> (sig: TagSignature) {
        TagSignature::ColorSpaceNameTag
    }
}

impl vstd::std_specs::convert::FromSpecImpl<ColorSpaceNameTag> for TagSignature {
    open spec fn obeys_from_spec() -> bool {
        true
    }

    open spec fn from_spec(_marker: ColorSpaceNameTag) -> TagSignature {
        TagSignature::ColorSpaceNameTag
    }
}

/// A zero-sized type standing for the `ColorantInfoTag` tag signature.
#[derive(Default, Copy, Clone, Debug, PartialEq, Eq)]
pub struct ColorantInfoTag;

impl From<ColorantInfoTag> for TagSignature {
    fn from(_marker: ColorantInfoTag) -> (sig: TagSignature) {
        TagSignature::ColorantInfoTag
    }
}

impl vstd::std_specs::convert::FromSpecImpl<ColorantInfoTag> for TagSignature {
    open spec fn obeys_from_spec() -> bool {
        true
    }

    open spec fn from_spec(_marker: ColorantInfoTag) -> TagSignature {
        TagSignature::ColorantInfoTag
    }
}

/// A zero-sized type standing for the `ColorantInfoOutTag` tag signature.
#[derive(Default, Copy, Clone, Debug, PartialEq, Eq)]
pub struct ColorantInfoOutTag;

impl From<ColorantInfoOutTag> for TagSignature {
    fn from(_marker: ColorantInfoOutTag) -> (sig: TagSignature) {
        TagSignature::ColorantInfoOutTag
    }
}

impl vstd::std_specs::convert::FromSpecImpl<ColorantInfoOutTag> for TagSignature {
    open spec fn obeys_from_spec() -> bool {
        true
    }

    open spec fn from_spec(_marker: ColorantInfoOutTag) -> TagSignature {
        TagSignature::ColorantInfoOutTag
    }
}

/// A zero-sized type standing for the `ColorantOrderTag` tag signature.
#[derive(Default, Copy, Clone, Debug, PartialEq, Eq)]
pub struct ColorantOrderTag;

impl From<ColorantOrderTag> for TagSignature {
    fn from(_marker: ColorantOrderTag) -> (sig: TagSignature) {
        TagSignature::ColorantOrderTag
    }
}

impl vstd::std_specs::convert::FromSpecImpl<ColorantOrderTag> for TagSignature {
    open spec fn obeys_from_spec() -> bool {
        true
    }

    open spec fn from_spec(_marker: ColorantOrderTag) -> TagSignature {
        TagSignature::ColorantOrderTag
    }
}

/// A zero-sized type standing for the `ColorantOrderOutTag` tag signature.
#[derive(Default, Copy, Clone, Debug, PartialEq, Eq)]
pub struct ColorantOrderOutTag;

impl From<ColorantOrderOutTag> for TagSignature {
    fn from(_marker: ColorantOrderOutTag) -> (sig: TagSignature) {
        TagSignature::ColorantOrderOutTag
    }
}

impl vstd::std_specs::convert::FromSpecImpl<ColorantOrderOutTag> for TagSignature {
    open spec fn obeys_from_spec() -> bool {
        true
    }

    open spec fn from_spec(_marker: ColorantOrderOutTag) -> TagSignature {
        TagSignature::ColorantOrderOutTag
    }
}

/// A zero-sized type standing for the `ColorantTableTag` tag signature.
#[derive(Default, Copy, Clone, Debug, PartialEq, Eq)]
pub struct ColorantTableTag;

impl From<ColorantTableTag> for TagSignature {
    fn from(_marker: ColorantTableTag) -> (sig: TagSignature) {
        TagSignature::ColorantTableTag
    }
}

impl vstd::std_specs::convert::FromSpecImpl<ColorantTableTag> for TagSignature {
    open spec fn obeys_from_spec() -> bool {
        true
    }

    open spec fn from_spec(_marker: ColorantTableTag) -> TagSignature {
        TagSignature::ColorantTableTag
    }
}

/// A zero-sized type standing for the `ColorantTableOutTag` tag signature.
#[derive(Default, Copy, Clone, Debug, PartialEq, Eq)]
pub struct ColorantTableOutTag;

impl From<ColorantTableOutTag> for TagSignature {
    fn from(_marker: ColorantTableOutTag) -> (sig: TagSignature) {
        TagSignature::ColorantTableOutTag
    }
}

impl vstd::std_specs::convert::FromSpecImpl<ColorantTableOutTag> for TagSignature {
    open spec fn obeys_from_spec() -> bool {
        true
    }

    open spec fn from_spec(_marker: ColorantTableOutTag) -> TagSignature {
        TagSignature::ColorantTableOutTag
    }
}

/// A zero-sized type standing for the `ColorimetricIntentImageStateTag` tag signature.
#[derive(Default, Copy, Clone, Debug, PartialEq, Eq)]
pub struct ColorimetricIntentImageStateTag;

impl From<ColorimetricIntentImageStateTag> for TagSignature {
    fn from(_marker: ColorimetricIntentImageStateTag) -> (sig: TagSignature) {
        TagSignature::ColorimetricIntentImageStateTag
    }
}

impl vstd::std_specs::convert::FromSpecImpl<ColorimetricIntentImageStateTag> for TagSignature {
    open spec fn obeys_from_spec() -> bool {
        true
    }

    open spec fn from_spec(_marker: ColorimetricIntentImageStateTag) -> TagSignature {
        TagSignature::ColorimetricIntentImageStateTag
    }
}

/// A zero-sized type standing for the `CopyrightTag` tag signature.
#[derive(Default, Copy, Clone, Debug, PartialEq, Eq)]
pub struct CopyrightTag;

impl From<CopyrightTag> for TagSignature {
    fn from(_marker: CopyrightTag) -> (sig: TagSignature) {
        TagSignature::CopyrightTag
    }
}

impl vstd::std_specs::convert::FromSpecImpl<CopyrightTag> for TagSignature {
    open spec fn obeys_from_spec() -> bool {
        true
    }

    open spec fn from_spec(_marker: CopyrightTag) -> TagSignature {
        TagSignature::CopyrightTag
    }
}

/// A zero-sized type standing for the `CrdInfoTag` tag signature.
#[derive(Default, Copy, Clone, Debug, PartialEq, Eq)]
pub struct CrdInfoTag;

impl From<CrdInfoTag> for TagSignature {
    fn from(_marker: CrdInfoTag) -> (sig: TagSignature) {
        TagSignature::CrdInfoTag
    }
}

impl vstd::std_specs::convert::FromSpecImpl<CrdInfoTag> for TagSignature {
    open spec fn obeys_from_spec() -> bool {
        true
    }

    open spec fn from_spec(_marker: CrdInfoTag) -> TagSignature {
        TagSignature::CrdInfoTag
    }
}

/// A zero-sized type standing for the `CustomToStandardPccTag` tag signature.
#[derive(Default, Copy, Clone, Debug, PartialEq, Eq)]
pub struct CustomToStandardPccTag;

impl From<CustomToStandardPccTag> for TagSignature {
    fn from(_marker: CustomToStandardPccTag) -> (sig: TagSignature) {
        TagSignature::CustomToStandardPccTag
    }
}

impl vstd::std_specs::convert::FromSpecImpl<CustomToStandardPccTag> for TagSignature {
    open spec fn obeys_from_spec() -> bool {
        true
    }

    open spec fn from_spec(_marker: CustomToStandardPccTag) -> TagSignature {
        TagSignature::CustomToStandardPccTag
    }
}

/// A zero-sized type standing for the `CxFTag` tag signature.
#[derive(Default, Copy, Clone, Debug, PartialEq, Eq)]
pub struct CxFTag;

impl From<CxFTag> for TagSignature {
    fn from(_marker: CxFTag) -> (sig: TagSignature) {
        TagSignature::CxFTag
    }
}

impl vstd::std_specs::convert::FromSpecImpl<CxFTag> for TagSignature {
    open spec fn obeys_from_spec() -> bool {
        true
    }

    open spec fn from_spec(_marker: CxFTag) -> TagSignature {
        TagSignature::CxFTag
    }
}

/// A zero-sized type standing for the `DataTag` tag signature.
#[derive(Default, Copy, Clone, Debug, PartialEq, Eq)]
pub struct DataTag;

impl From<DataTag> for TagSignature {
    fn from(_marker: DataTag) -> (sig: TagSignature) {
        TagSignature::DataTag
    }
}

impl vstd::std_specs::convert::FromSpecImpl<DataTag> for TagSignature {
    open spec fn obeys_from_spec() -> bool {
        true
    }

    open spec fn from_spec(_marker: DataTag) -> TagSignature {
        TagSignature::DataTag
    }
}

/// A zero-sized type standing for the `DateTimeTag` tag signature.
#[derive(Default, Copy, Clone, Debug, PartialEq, Eq)]
pub struct DateTimeTag;

impl From<DateTimeTag> for TagSignature {
    fn from(_marker: DateTimeTag) -> (sig: TagSignature) {
        TagSignature::DateTimeTag
    }
}

impl vstd::std_specs::convert::FromSpecImpl<DateTimeTag> for TagSignature {
    open spec fn obeys_from_spec() -> bool {
        true
    }

    open spec fn from_spec(_marker: DateTimeTag) -> TagSignature {
        TagSignature::DateTimeTag
    }
}

/// A zero-sized type standing for the `DeviceMediaWhitePointTag` tag signature.
#[derive(Default, Copy, Clone, Debug, PartialEq, Eq)]
pub struct DeviceMediaWhitePointTag;

impl From<DeviceMediaWhitePointTag> for TagSignature {
    fn from(_marker: DeviceMediaWhitePointTag) -> (sig: TagSignature) {
        TagSignature::DeviceMediaWhitePointTag
    }
}

impl vstd::std_specs::convert::FromSpecImpl<DeviceMediaWhitePointTag> for TagSignature {
    open spec fn obeys_from_spec() -> bool {
        true
    }

    open spec fn from_spec(_marker: DeviceMediaWhitePointTag) -> TagSignature {
        TagSignature::DeviceMediaWhitePointTag
    }
}

/// A zero-sized type standing for the `DeviceMfgDescTag` tag signature.
#[derive(Default, Copy, Clone, Debug, PartialEq, Eq)]
pub struct DeviceMfgDescTag;

impl From<DeviceMfgDescTag> for TagSignature {
    fn from(_marker: DeviceMfgDescTag) -> (sig: TagSignature) {
        TagSignature::DeviceMfgDescTag
    }
}

impl vstd::std_specs::convert::FromSpecImpl<DeviceMfgDescTag> for TagSignature {
    open spec fn obeys_from_spec() -> bool {
        true
    }

    open spec fn from_spec(_marker: DeviceMfgDescTag) -> TagSignature {
        TagSignature::DeviceMfgDescTag
    }
}

/// A zero-sized type standing for the `DeviceModelDescTag` tag signature.
#[derive(Default, Copy, Clone, Debug, PartialEq, Eq)]
pub struct DeviceModelDescTag;

impl From<DeviceModelDescTag> for TagSignature {
    fn from(_marker: DeviceModelDescTag) -> (sig: TagSignature) {
        TagSignature::DeviceModelDescTag
    }
}

impl vstd::std_specs::convert::FromSpecImpl<DeviceModelDescTag> for TagSignature {
    open spec fn obeys_from_spec() -> bool {
        true
    }

    open spec fn from_spec(_marker: DeviceModelDescTag) -> TagSignature {
        TagSignature::DeviceModelDescTag
    }
}

/// A zero-sized type standing for the `DeviceSettingsTag` tag signature.
#[derive(Default, Copy, Clone, Debug, PartialEq, Eq)]
pub struct DeviceSettingsTag;

impl From<DeviceSettingsTag> for TagSignature {
    fn from(_marker: DeviceSettingsTag) -> (sig: TagSignature) {
        TagSignature::DeviceSettingsTag
    }
}

impl vstd::std_specs::convert::FromSpecImpl<DeviceSettingsTag> for TagSignature {
    open spec fn obeys_from_spec() -> bool {
        true
    }

    open spec fn from_spec(_marker: DeviceSettingsTag) -> TagSignature {
        TagSignature::DeviceSettingsTag
    }
}

/// A zero-sized type standing for the `DToB0Tag` tag signature.
#[derive(Default, Copy, Clone, Debug, PartialEq, Eq)]
pub struct DToB0Tag;

impl From<DToB0Tag> for TagSignature {
    fn from(_marker: DToB0Tag) -> (sig: TagSignature) {
        TagSignature::DToB0Tag
    }
}

impl vstd::std_specs::convert::FromSpecImpl<DToB0Tag> for TagSignature {
    open spec fn obeys_from_spec() -> bool {
        true
    }

    open spec fn from_spec(_marker: DToB0Tag) -> TagSignature {
        TagSignature::DToB0Tag
    }
}

/// A zero-sized type standing for the `DToB1Tag` tag signature.
#[derive(Default, Copy, Clone, Debug, PartialEq, Eq)]
pub struct DToB1Tag;

impl From<DToB1Tag> for TagSignature {
    fn from(_marker: DToB1Tag) -> (sig: TagSignature) {
        TagSignature::DToB1Tag
    }
}

impl vstd::std_specs::convert::FromSpecImpl<DToB1Tag> for TagSignature {
    open spec fn obeys_from_spec() -> bool {
        true
    }

    open spec fn from_spec(_marker: DToB1Tag) -> TagSignature {
        TagSignature::DToB1Tag
    }
}

/// A zero-sized type standing for the `DToB2Tag` tag signature.
#[derive(Default, Copy, Clone, Debug, PartialEq, Eq)]
pub struct DToB2Tag;

impl From<DToB2Tag> for TagSignature {
    fn from(_marker: DToB2Tag) -> (sig: TagSignature) {
        TagSignature::DToB2Tag
    }
}

impl vstd::std_specs::convert::FromSpecImpl<DToB2Tag> for TagSignature {
    open spec fn obeys_from_spec() -> bool {
        true
    }

    open spec fn from_spec(_marker: DToB2Tag) -> TagSignature {
        TagSignature::DToB2Tag
    }
}

/// A zero-sized type standing for the `DToB3Tag` tag signature.
#[derive(Default, Copy, Clone, Debug, PartialEq, Eq)]
pub struct DToB3Tag;

impl From<DToB3Tag> for TagSignature {
    fn from(_marker: DToB3Tag) -> (sig: TagSignature) {
        TagSignature::DToB3Tag
    }
}

impl vstd::std_specs::convert::FromSpecImpl<DToB3Tag> for TagSignature {
    open spec fn obeys_from_spec() -> bool {
        true
    }

    open spec fn from_spec(_marker: DToB3Tag) -> TagSignature {
        TagSignature::DToB3Tag
    }
}

/// A zero-sized type standing for the `BToD0Tag` tag signature.
#[derive(Default, Copy, Clone, Debug, PartialEq, Eq)]
pub struct BToD0Tag;

impl From<BToD0Tag> for TagSignature {
    fn from(_marker: BToD0Tag) -> (sig: TagSignature) {
        TagSignature::BToD0Tag
    }
}

impl vstd::std_specs::convert::FromSpecImpl<BToD0Tag> for TagSignature {
    open spec fn obeys_from_spec() -> bool {
        true
    }

    open spec fn from_spec(_marker: BToD0Tag) -> TagSignature {
        TagSignature::BToD0Tag
    }
}

/// A zero-sized type standing for the `BToD1Tag` tag signature.
#[derive(Default, Copy, Clone, Debug, PartialEq, Eq)]
pub struct BToD1Tag;

impl From<BToD1Tag> for TagSignature {
    fn from(_marker: BToD1Tag) -> (sig: TagSignature) {
        TagSignature::BToD1Tag
    }
}

impl vstd::std_specs::convert::FromSpecImpl<BToD1Tag> for TagSignature {
    open spec fn obeys_from_spec() -> bool {
        true
    }

    open spec fn from_spec(_marker: BToD1Tag) -> TagSignature {
        TagSignature::BToD1Tag
    }
}

/// A zero-sized type standing for the `BToD2Tag` tag signature.
#[derive(Default, Copy, Clone, Debug, PartialEq, Eq)]
pub struct BToD2Tag;

impl From<BToD2Tag> for TagSignature {
    fn from(_marker: BToD2Tag) -> (sig: TagSignature) {
        TagSignature::BToD2Tag
    }
}

impl vstd::std_specs::convert::FromSpecImpl<BToD2Tag> for TagSignature {
    open spec fn obeys_from_spec() -> bool {
        true
    }

    open spec fn from_spec(_marker: BToD2Tag) -> TagSignature {
        TagSignature::BToD2Tag
    }
}

/// A zero-sized type standing for the `BToD3Tag` tag signature.
#[derive(Default, Copy, Clone, Debug, PartialEq, Eq)]
pub struct BToD3Tag;

impl From<BToD3Tag> for TagSignature {
    fn from(_marker: BToD3Tag) -> (sig: TagSignature) {
        TagSignature::BToD3Tag
    }
}

impl vstd::std_specs::convert::FromSpecImpl<BToD3Tag> for TagSignature {
    open spec fn obeys_from_spec() -> bool {
        true
    }

    open spec fn from_spec(_marker: BToD3Tag) -> TagSignature {
        TagSignature::BToD3Tag
    }
}

/// A zero-sized type standing for the `GamutTag` tag signature.
#[derive(Default, Copy, Clone, Debug, PartialEq, Eq)]
pub struct GamutTag;

impl From<GamutTag> for TagSignature {
    fn from(_marker: GamutTag) -> (sig: TagSignature) {
        TagSignature::GamutTag
    }
}

impl vstd::std_specs::convert::FromSpecImpl<GamutTag> for TagSignature {
    open spec fn obeys_from_spec() -> bool {
        true
    }

    open spec fn from_spec(_marker: GamutTag) -> TagSignature {
        TagSignature::GamutTag
    }
}

/// A zero-sized type standing for the `GamutBoundaryDescription0Tag` tag signature.
#[derive(Default, Copy, Clone, Debug, PartialEq, Eq)]
pub struct GamutBoundaryDescription0Tag;

impl From<GamutBoundaryDescription0Tag> for TagSignature {
    fn from(_marker: GamutBoundaryDescription0Tag) -> (sig: TagSignature) {
        TagSignature::GamutBoundaryDescription0Tag
    }
}

impl vstd::std_specs::convert::FromSpecImpl<GamutBoundaryDescription0Tag> for TagSignature {
    open spec fn obeys_from_spec() -> bool {
        true
    }

    open spec fn from_spec(_marker: GamutBoundaryDescription0Tag) -> TagSignature {
        TagSignature::GamutBoundaryDescription0Tag
    }
}

/// A zero-sized type standing for the `GamutBoundaryDescription1Tag` tag signature.
#[derive(Default, Copy, Clone, Debug, PartialEq, Eq)]
pub struct GamutBoundaryDescription1Tag;

impl From<GamutBoundaryDescription1Tag> for TagSignature {
    fn from(_marker: GamutBoundaryDescription1Tag) -> (sig: TagSignature) {
        TagSignature::GamutBoundaryDescription1Tag
    }
}

impl vstd::std_specs::convert::FromSpecImpl<GamutBoundaryDescription1Tag> for TagSignature {
    open spec fn obeys_from_spec() -> bool {
        true
    }

    open spec fn from_spec(_marker: GamutBoundaryDescription1Tag) -> TagSignature {
        TagSignature::GamutBoundaryDescription1Tag
    }
}

/// A zero-sized type standing for the `GamutBoundaryDescription2Tag` tag signature.
#[derive(Default, Copy, Clone, Debug, PartialEq, Eq)]
pub struct GamutBoundaryDescription2Tag;

impl From<GamutBoundaryDescription2Tag> for TagSignature {
    fn from(_marker: GamutBoundaryDescription2Tag) -> (sig: TagSignature) {
        TagSignature::GamutBoundaryDescription2Tag
    }
}

impl vstd::std_specs::convert::FromSpecImpl<GamutBoundaryDescription2Tag> for TagSignature {
    open spec fn obeys_from_spec() -> bool {
        true
    }

    open spec fn from_spec(_marker: GamutBoundaryDescription2Tag) -> TagSignature {
        TagSignature::GamutBoundaryDescription2Tag
    }
}

/// A zero-sized type standing for the `GamutBoundaryDescription3Tag` tag signature.
#[derive(Default, Copy, Clone, Debug, PartialEq, Eq)]
pub struct GamutBoundaryDescription3Tag;

impl From<GamutBoundaryDescription3Tag> for TagSignature {
    fn from(_marker: GamutBoundaryDescription3Tag) -> (sig: TagSignature) {
        TagSignature::GamutBoundaryDescription3Tag
    }
}

impl vstd::std_specs::convert::FromSpecImpl<GamutBoundaryDescription3Tag> for TagSignature {
    open spec fn obeys_from_spec() -> bool {
        true
    }

    open spec fn from_spec(_marker: GamutBoundaryDescription3Tag) -> TagSignature {
        TagSignature::GamutBoundaryDescription3Tag
    }
}

/// A zero-sized type standing for the `GrayTRCTag` tag signature.
#[derive(Default, Copy, Clone, Debug, PartialEq, Eq)]
pub struct GrayTRCTag;

impl From<GrayTRCTag> for TagSignature {
    fn from(_marker: GrayTRCTag) -> (sig: TagSignature) {
        TagSignature::GrayTRCTag
    }
}

impl vstd::std_specs::convert::FromSpecImpl<GrayTRCTag> for TagSignature {
    open spec fn obeys_from_spec() -> bool {
        true
    }

    open spec fn from_spec(_marker: GrayTRCTag) -> TagSignature {
        TagSignature::GrayTRCTag
    }
}

/// A zero-sized type standing for the `GreenMatrixColumnTag` tag signature.
#[derive(Default, Copy, Clone, Debug, PartialEq, Eq)]
pub struct GreenMatrixColumnTag;

impl From<GreenMatrixColumnTag> for TagSignature {
    fn from(_marker: GreenMatrixColumnTag) -> (sig: TagSignature) {
        TagSignature::GreenMatrixColumnTag
    }
}

impl vstd::std_specs::convert::FromSpecImpl<GreenMatrixColumnTag> for TagSignature {
    open spec fn obeys_from_spec() -> bool {
        true
    }

    open spec fn from_spec(_marker: GreenMatrixColumnTag) -> TagSignature {
        TagSignature::GreenMatrixColumnTag
    }
}

/// A zero-sized type standing for the `GreenTRCTag` tag signature.
#[derive(Default, Copy, Clone, Debug, PartialEq, Eq)]
pub struct GreenTRCTag;

impl From<GreenTRCTag> for TagSignature {
    fn from(_marker: GreenTRCTag) -> (sig: TagSignature) {
        TagSignature::GreenTRCTag
    }
}

impl vstd::std_specs::convert::FromSpecImpl<GreenTRCTag> for TagSignature {
    open spec fn obeys_from_spec() -> bool {
        true
    }

    open spec fn from_spec(_marker: GreenTRCTag) -> TagSignature {
        TagSignature::GreenTRCTag
    }
}

/// A zero-sized type standing for the `LuminanceTag` tag signature.
#[derive(Default, Copy, Clone, Debug, PartialEq, Eq)]
pub struct LuminanceTag;

impl From<LuminanceTag> for TagSignature {
    fn from(_marker: LuminanceTag) -> (sig: TagSignature) {
        TagSignature::LuminanceTag
    }
}

impl vstd::std_specs::convert::FromSpecImpl<LuminanceTag> for TagSignature {
    open spec fn obeys_from_spec() -> bool {
        true
    }

    open spec fn from_spec(_marker: LuminanceTag) -> TagSignature {
        TagSignature::LuminanceTag
    }
}

/// A zero-sized type standing for the `MaterialDefaultValuesTag` tag signature.
#[derive(Default, Copy, Clone, Debug, PartialEq, Eq)]
pub struct MaterialDefaultValuesTag;

impl From<MaterialDefaultValuesTag> for TagSignature {
    fn from(_marker: MaterialDefaultValuesTag) -> (sig: TagSignature) {
        TagSignature::MaterialDefaultValuesTag
    }
}

impl vstd::std_specs::convert::FromSpecImpl<MaterialDefaultValuesTag> for TagSignature {
    open spec fn obeys_from_spec() -> bool {
        true
    }

    open spec fn from_spec(_marker: MaterialDefaultValuesTag) -> TagSignature {
        TagSignature::MaterialDefaultValuesTag
    }
}

/// A zero-sized type standing for the `MaterialTypeArrayTag` tag signature.
#[derive(Default, Copy, Clone, Debug, PartialEq, Eq)]
pub struct MaterialTypeArrayTag;

impl From<MaterialTypeArrayTag> for TagSignature {
    fn from(_marker: MaterialTypeArrayTag) -> (sig: TagSignature) {
        TagSignature::MaterialTypeArrayTag
    }
}

impl vstd::std_specs::convert::FromSpecImpl<MaterialTypeArrayTag> for TagSignature {
    open spec fn obeys_from_spec() -> bool {
        true
    }

    open spec fn from_spec(_marker: MaterialTypeArrayTag) -> TagSignature {
        TagSignature::MaterialTypeArrayTag
    }
}

/// A zero-sized type standing for the `MToA0Tag` tag signature.
#[derive(Default, Copy, Clone, Debug, PartialEq, Eq)]
pub struct MToA0Tag;

impl From<MToA0Tag> for TagSignature {
    fn from(_marker: MToA0Tag) -> (sig: TagSignature) {
        TagSignature::MToA0Tag
    }
}

impl vstd::std_specs::convert::FromSpecImpl<MToA0Tag> for TagSignature {
    open spec fn obeys_from_spec() -> bool {
        true
    }

    open spec fn from_spec(_marker: MToA0Tag) -> TagSignature {
        TagSignature::MToA0Tag
    }
}

/// A zero-sized type standing for the `MToB0Tag` tag signature.
#[derive(Default, Copy, Clone, Debug, PartialEq, Eq)]
pub struct MToB0Tag;

impl From<MToB0Tag> for TagSignature {
    fn from(_marker: MToB0Tag) -> (sig: TagSignature) {
        TagSignature::MToB0Tag
    }
}

impl vstd::std_specs::convert::FromSpecImpl<MToB0Tag> for TagSignature {
    open spec fn obeys_from_spec() -> bool {
        true
    }

    open spec fn from_spec(_marker: MToB0Tag) -> TagSignature {
        TagSignature::MToB0Tag
    }
}

/// A zero-sized type standing for the `MToB1Tag` tag signature.
#[derive(Default, Copy, Clone, Debug, PartialEq, Eq)]
pub struct MToB1Tag;

impl From<MToB1Tag> for TagSignature {
    fn from(_marker: MToB1Tag) -> (sig: TagSignature) {
        TagSignature::MToB1Tag
    }
}

impl vstd::std_specs::convert::FromSpecImpl<MToB1Tag> for TagSignature {
    open spec fn obeys_from_spec() -> bool {
        true
    }

    open spec fn from_spec(_marker: MToB1Tag) -> TagSignature {
        TagSignature::MToB1Tag
    }
}

/// A zero-sized type standing for the `MToB2Tag` tag signature.
#[derive(Default, Copy, Clone, Debug, PartialEq, Eq)]
pub struct MToB2Tag;

impl From<MToB2Tag> for TagSignature {
    fn from(_marker: MToB2Tag) -> (sig: TagSignature) {
        TagSignature::MToB2Tag
    }
}

impl vstd::std_specs::convert::FromSpecImpl<MToB2Tag> for TagSignature {
    open spec fn obeys_from_spec() -> bool {
        true
    }

    open spec fn from_spec(_marker: MToB2Tag) -> TagSignature {
        TagSignature::MToB2Tag
    }
}

/// A zero-sized type standing for the `MToB3Tag` tag signature.
#[derive(Default, Copy, Clone, Debug, PartialEq, Eq)]
pub struct MToB3Tag;

impl From<MToB3Tag> for TagSignature {
    fn from(_marker: MToB3Tag) -> (sig: TagSignature) {
        TagSignature::MToB3Tag
    }
}

impl vstd::std_specs::convert::FromSpecImpl<MToB3Tag> for TagSignature {
    open spec fn obeys_from_spec() -> bool {
        true
    }

    open spec fn from_spec(_marker: MToB3Tag) -> TagSignature {
        TagSignature::MToB3Tag
    }
}

/// A zero-sized type standing for the `MToS0Tag` tag signature.
#[derive(Default, Copy, Clone, Debug, PartialEq, Eq)]
pub struct MToS0Tag;

impl From<MToS0Tag> for TagSignature {
    fn from(_marker: MToS0Tag) -> (sig: TagSignature) {
        TagSignature::MToS0Tag
    }
}

impl vstd::std_specs::convert::FromSpecImpl<MToS0Tag> for TagSignature {
    open spec fn obeys_from_spec() -> bool {
        true
    }

    open spec fn from_spec(_marker: MToS0Tag) -> TagSignature {
        TagSignature::MToS0Tag
    }
}

/// A zero-sized type standing for the `MToS1Tag` tag signature.
#[derive(Default, Copy, Clone, Debug, PartialEq, Eq)]
pub struct MToS1Tag;

impl From<MToS1Tag> for TagSignature {
    fn from(_marker: MToS1Tag) -> (sig: TagSignature) {
        TagSignature::MToS1Tag
    }
}

impl vstd::std_specs::convert::FromSpecImpl<MToS1Tag> for TagSignature {
    open spec fn obeys_from_spec() -> bool {
        true
    }

    open spec fn from_spec(_marker: MToS1Tag) -> TagSignature {
        TagSignature::MToS1Tag
    }
}

/// A zero-sized type standing for the `MToS2Tag` tag signature.
#[derive(Default, Copy, Clone, Debug, PartialEq, Eq)]
pub struct MToS2Tag;

impl From<MToS2Tag> for TagSignature {
    fn from(_marker: MToS2Tag) -> (sig: TagSignature) {
        TagSignature::MToS2Tag
    }
}

impl vstd::std_specs::convert::FromSpecImpl<MToS2Tag> for TagSignature {
    open spec fn obeys_from_spec() -> bool {
        true
    }

    open spec fn from_spec(_marker: MToS2Tag) -> TagSignature {
        TagSignature::MToS2Tag
    }
}

/// A zero-sized type standing for the `MToS3Tag` tag signature.
#[derive(Default, Copy, Clone, Debug, PartialEq, Eq)]
pub struct MToS3Tag;

impl From<MToS3Tag> for TagSignature {
    fn from(_marker: MToS3Tag) -> (sig: TagSignature) {
        TagSignature::MToS3Tag
    }
}

impl vstd::std_specs::convert::FromSpecImpl<MToS3Tag> for TagSignature {
    open spec fn obeys_from_spec() -> bool {
        true
    }

    open spec fn from_spec(_marker: MToS3Tag) -> TagSignature {
        TagSignature::MToS3Tag
    }
}

/// A zero-sized type standing for the `MeasurementTag` tag signature.
#[derive(Default, Copy, Clone, Debug, PartialEq, Eq)]
pub struct MeasurementTag;

impl From<MeasurementTag> for TagSignature {
    fn from(_marker: MeasurementTag) -> (sig: TagSignature) {
        TagSignature::MeasurementTag
    }
}

impl vstd::std_specs::convert::FromSpecImpl<MeasurementTag> for TagSignature {
    open spec fn obeys_from_spec() -> bool {
        true
    }

    open spec fn from_spec(_marker: MeasurementTag) -> TagSignature {
        TagSignature::MeasurementTag
    }
}

/// A zero-sized type standing for the `MediaBlackPointTag` tag signature.
#[derive(Default, Copy, Clone, Debug, PartialEq, Eq)]
pub struct MediaBlackPointTag;

impl From<MediaBlackPointTag> for TagSignature {
    fn from(_marker: MediaBlackPointTag) -> (sig: TagSignature) {
        TagSignature::MediaBlackPointTag
    }
}

impl vstd::std_specs::convert::FromSpecImpl<MediaBlackPointTag> for TagSignature {
    open spec fn obeys_from_spec() -> bool {
        true
    }

    open spec fn from_spec(_marker: MediaBlackPointTag) -> TagSignature {
        TagSignature::MediaBlackPointTag
    }
}

/// A zero-sized type standing for the `MediaWhitePointTag` tag signature.
#[derive(Default, Copy, Clone, Debug, PartialEq, Eq)]
pub struct MediaWhitePointTag;

impl From<MediaWhitePointTag> for TagSignature {
    fn from(_marker: MediaWhitePointTag) -> (sig: TagSignature) {
        TagSignature::MediaWhitePointTag
    }
}

impl vstd::std_specs::convert::FromSpecImpl<MediaWhitePointTag> for TagSignature {
    open spec fn obeys_from_spec() -> bool {
        true
    }

    open spec fn from_spec(_marker: MediaWhitePointTag) -> TagSignature {
        TagSignature::MediaWhitePointTag
    }
}

/// A zero-sized type standing for the `MetaDataTag` tag signature.
#[derive(Default, Copy, Clone, Debug, PartialEq, Eq)]
pub struct MetaDataTag;

impl From<MetaDataTag> for TagSignature {
    fn from(_marker: MetaDataTag) -> (sig: TagSignature) {
        TagSignature::MetaDataTag
    }
}

impl vstd::std_specs::convert::FromSpecImpl<MetaDataTag> for TagSignature {
    open spec fn obeys_from_spec() -> bool {
        true
    }

    open spec fn from_spec(_marker: MetaDataTag) -> TagSignature {
        TagSignature::MetaDataTag
    }
}

/// A zero-sized type standing for the `NamedColorTag` tag signature.
#[derive(Default, Copy, Clone, Debug, PartialEq, Eq)]
pub struct NamedColorTag;

impl From<NamedColorTag> for TagSignature {
    fn from(_marker: NamedColorTag) -> (sig: TagSignature) {
        TagSignature::NamedColorTag
    }
}

impl vstd::std_specs::convert::FromSpecImpl<NamedColorTag> for TagSignature {
    open spec fn obeys_from_spec() -> bool {
        true
    }

    open spec fn from_spec(_marker: NamedColorTag) -> TagSignature {
        TagSignature::NamedColorTag
    }
}

/// A zero-sized type standing for the `NamedColorV5Tag` tag signature.
#[derive(Default, Copy, Clone, Debug, PartialEq, Eq)]
pub struct NamedColorV5Tag;

impl From<NamedColorV5Tag> for TagSignature {
    fn from(_marker: NamedColorV5Tag) -> (sig: TagSignature) {
        TagSignature::NamedColorV5Tag
    }
}

impl vstd::std_specs::convert::FromSpecImpl<NamedColorV5Tag> for TagSignature {
    open spec fn obeys_from_spec() -> bool {
        true
    }

    open spec fn from_spec(_marker: NamedColorV5Tag) -> TagSignature {
        TagSignature::NamedColorV5Tag
    }
}

/// A zero-sized type standing for the `NamedColor2Tag` tag signature.
#[derive(Default, Copy, Clone, Debug, PartialEq, Eq)]
pub struct NamedColor2Tag;

impl From<NamedColor2Tag> for TagSignature {
    fn from(_marker: NamedColor2Tag) -> (sig: TagSignature) {
        TagSignature::NamedColor2Tag
    }
}

impl vstd::std_specs::convert::FromSpecImpl<NamedColor2Tag> for TagSignature {
    open spec fn obeys_from_spec() -> bool {
        true
    }

    open spec fn from_spec(_marker: NamedColor2Tag) -> TagSignature {
        TagSignature::NamedColor2Tag
    }
}

/// A zero-sized type standing for the `OutputResponseTag` tag signature.
#[derive(Default, Copy, Clone, Debug, PartialEq, Eq)]
pub struct OutputResponseTag;

impl From<OutputResponseTag> for TagSignature {
    fn from(_marker: OutputResponseTag) -> (sig: TagSignature) {
        TagSignature::OutputResponseTag
    }
}

impl vstd::std_specs::convert::FromSpecImpl<OutputResponseTag> for TagSignature {
    open spec fn obeys_from_spec() -> bool {
        true
    }

    open spec fn from_spec(_marker: OutputResponseTag) -> TagSignature {
        TagSignature::OutputResponseTag
    }
}

/// A zero-sized type standing for the `PerceptualRenderingIntentGamutTag` tag signature.
#[derive(Default, Copy, Clone, Debug, PartialEq, Eq)]
pub struct PerceptualRenderingIntentGamutTag;

impl From<PerceptualRenderingIntentGamutTag> for TagSignature {
    fn from(_marker: PerceptualRenderingIntentGamutTag) -> (sig: TagSignature) {
        TagSignature::PerceptualRenderingIntentGamutTag
    }
}

impl vstd::std_specs::convert::FromSpecImpl<PerceptualRenderingIntentGamutTag> for TagSignature {
    open spec fn obeys_from_spec() -> bool {
        true
    }

    open spec fn from_spec(_marker: PerceptualRenderingIntentGamutTag) -> TagSignature {
        TagSignature::PerceptualRenderingIntentGamutTag
    }
}

/// A zero-sized type standing for the `Preview0Tag` tag signature.
#[derive(Default, Copy, Clone, Debug, PartialEq, Eq)]
pub struct Preview0Tag;

impl From<Preview0Tag> for TagSignature {
    fn from(_marker: Preview0Tag) -> (sig: TagSignature) {
        TagSignature::Preview0Tag
    }
}

impl vstd::std_specs::convert::FromSpecImpl<Preview0Tag> for TagSignature {
    open spec fn obeys_from_spec() -> bool {
        true
    }

    open spec fn from_spec(_marker: Preview0Tag) -> TagSignature {
        TagSignature::Preview0Tag
    }
}

/// A zero-sized type standing for the `Preview1Tag` tag signature.
#[derive(Default, Copy, Clone, Debug, PartialEq, Eq)]
pub struct Preview1Tag;

impl From<Preview1Tag> for TagSignature {
    fn from(_marker: Preview1Tag) -> (sig: TagSignature) {
        TagSignature::Preview1Tag
    }
}

impl vstd::std_specs::convert::FromSpecImpl<Preview1Tag> for TagSignature {
    open spec fn obeys_from_spec() -> bool {
        true
    }

    open spec fn from_spec(_marker: Preview1Tag) -> TagSignature {
        TagSignature::Preview1Tag
    }
}

/// A zero-sized type standing for the `Preview2Tag` tag signature.
#[derive(Default, Copy, Clone, Debug, PartialEq, Eq)]
pub struct Preview2Tag;

impl From<Preview2Tag> for TagSignature {
    fn from(_marker: Preview2Tag) -> (sig: TagSignature) {
        TagSignature::Preview2Tag
    }
}

impl vstd::std_specs::convert::FromSpecImpl<Preview2Tag> for TagSignature {
    open spec fn obeys_from_spec() -> bool {
        true
    }

    open spec fn from_spec(_marker: Preview2Tag) -> TagSignature {
        TagSignature::Preview2Tag
    }
}

/// A zero-sized type standing for the `PrintConditionTag` tag signature.
#[derive(Default, Copy, Clone, Debug, PartialEq, Eq)]
pub struct PrintConditionTag;

impl From<PrintConditionTag> for TagSignature {
    fn from(_marker: PrintConditionTag) -> (sig: TagSignature) {
        TagSignature::PrintConditionTag
    }
}

impl vstd::std_specs::convert::FromSpecImpl<PrintConditionTag> for TagSignature {
    open spec fn obeys_from_spec() -> bool {
        true
    }

    open spec fn from_spec(_marker: PrintConditionTag) -> TagSignature {
        TagSignature::PrintConditionTag
    }
}

/// A zero-sized type standing for the `ProfileDescriptionTag` tag signature.
#[derive(Default, Copy, Clone, Debug, PartialEq, Eq)]
pub struct ProfileDescriptionTag;

impl From<ProfileDescriptionTag> for TagSignature {
    fn from(_marker: ProfileDescriptionTag) -> (sig: TagSignature) {
        TagSignature::ProfileDescriptionTag
    }
}

impl vstd::std_specs::convert::FromSpecImpl<ProfileDescriptionTag> for TagSignature {
    open spec fn obeys_from_spec() -> bool {
        true
    }

    open spec fn from_spec(_marker: ProfileDescriptionTag) -> TagSignature {
        TagSignature::ProfileDescriptionTag
    }
}

/// A zero-sized type standing for the `ProfileSequenceDescTag` tag signature.
#[derive(Default, Copy, Clone, Debug, PartialEq, Eq)]
pub struct ProfileSequenceDescTag;

impl From<ProfileSequenceDescTag> for TagSignature {
    fn from(_marker: ProfileSequenceDescTag) -> (sig: TagSignature) {
        TagSignature::ProfileSequenceDescTag
    }
}

impl vstd::std_specs::convert::FromSpecImpl<ProfileSequenceDescTag> for TagSignature {
    open spec fn obeys_from_spec() -> bool {
        true
    }

    open spec fn from_spec(_marker: ProfileSequenceDescTag) -> TagSignature {
        TagSignature::ProfileSequenceDescTag
    }
}

/// A zero-sized type standing for the `ProfileSequceIdTag` tag signature.
#[derive(Default, Copy, Clone, Debug, PartialEq, Eq)]
pub struct ProfileSequceIdTag;

impl From<ProfileSequceIdTag> for TagSignature {
    fn from(_marker: ProfileSequceIdTag) -> (sig: TagSignature) {
        TagSignature::ProfileSequceIdTag
    }
}

impl vstd::std_specs::convert::FromSpecImpl<ProfileSequceIdTag> for TagSignature {
    open spec fn obeys_from_spec() -> bool {
        true
    }

    open spec fn from_spec(_marker: ProfileSequceIdTag) -> TagSignature {
        TagSignature::ProfileSequceIdTag
    }
}

/// A zero-sized type standing for the `Ps2CRD0Tag` tag signature.
#[derive(Default, Copy, Clone, Debug, PartialEq, Eq)]
pub struct Ps2CRD0Tag;

impl From<Ps2CRD0Tag> for TagSignature {
    fn from(_marker: Ps2CRD0Tag) -> (sig: TagSignature) {
        TagSignature::Ps2CRD0Tag
    }
}

impl vstd::std_specs::convert::FromSpecImpl<Ps2CRD0Tag> for TagSignature {
    open spec fn obeys_from_spec() -> bool {
        true
    }

    open spec fn from_spec(_marker: Ps2CRD0Tag) -> TagSignature {
        TagSignature::Ps2CRD0Tag
    }
}

/// A zero-sized type standing for the `Ps2CRD1Tag` tag signature.
#[derive(Default, Copy, Clone, Debug, PartialEq, Eq)]
pub struct Ps2CRD1Tag;

impl From<Ps2CRD1Tag> for TagSignature {
    fn from(_marker: Ps2CRD1Tag) -> (sig: TagSignature) {
        TagSignature::Ps2CRD1Tag
    }
}

impl vstd::std_specs::convert::FromSpecImpl<Ps2CRD1Tag> for TagSignature {
    open spec fn obeys_from_spec() -> bool {
        true
    }

    open spec fn from_spec(_marker: Ps2CRD1Tag) -> TagSignature {
        TagSignature::Ps2CRD1Tag
    }
}

/// A zero-sized type standing for the `Ps2CRD2Tag` tag signature.
#[derive(Default, Copy, Clone, Debug, PartialEq, Eq)]
pub struct Ps2CRD2Tag;

impl From<Ps2CRD2Tag> for TagSignature {
    fn from(_marker: Ps2CRD2Tag) -> (sig: TagSignature) {
        TagSignature::Ps2CRD2Tag
    }
}

impl vstd::std_specs::convert::FromSpecImpl<Ps2CRD2Tag> for TagSignature {
    open spec fn obeys_from_spec() -> bool {
        true
    }

    open spec fn from_spec(_marker: Ps2CRD2Tag) -> TagSignature {
        TagSignature::Ps2CRD2Tag
    }
}

/// A zero-sized type standing for the `Ps2CRD3Tag` tag signature.
#[derive(Default, Copy, Clone, Debug, PartialEq, Eq)]
pub struct Ps2CRD3Tag;

impl From<Ps2CRD3Tag> for TagSignature {
    fn from(_marker: Ps2CRD3Tag) -> (sig: TagSignature) {
        TagSignature::Ps2CRD3Tag
    }
}

impl vstd::std_specs::convert::FromSpecImpl<Ps2CRD3Tag> for TagSignature {
    open spec fn obeys_from_spec() -> bool {
        true
    }

    open spec fn from_spec(_marker: Ps2CRD3Tag) -> TagSignature {
        TagSignature::Ps2CRD3Tag
    }
}

/// A zero-sized type standing for the `Ps2CSATag` tag signature.
#[derive(Default, Copy, Clone, Debug, PartialEq, Eq)]
pub struct Ps2CSATag;

impl From<Ps2CSATag> for TagSignature {
    fn from(_marker: Ps2CSATag) -> (sig: TagSignature) {
        TagSignature::Ps2CSATag
    }
}

impl vstd::std_specs::convert::FromSpecImpl<Ps2CSATag> for TagSignature {
    open spec fn obeys_from_spec() -> bool {
        true
    }

    open spec fn from_spec(_marker: Ps2CSATag) -> TagSignature {
        TagSignature::Ps2CSATag
    }
}

/// A zero-sized type standing for the `Ps2RenderingIntentTag` tag signature.
#[derive(Default, Copy, Clone, Debug, PartialEq, Eq)]
pub struct Ps2RenderingIntentTag;

impl From<Ps2RenderingIntentTag> for TagSignature {
    fn from(_marker: Ps2RenderingIntentTag) -> (sig: TagSignature) {
        TagSignature::Ps2RenderingIntentTag
    }
}

impl vstd::std_specs::convert::FromSpecImpl<Ps2RenderingIntentTag> for TagSignature {
    open spec fn obeys_from_spec() -> bool {
        true
    }

    open spec fn from_spec(_marker: Ps2RenderingIntentTag) -> TagSignature {
        TagSignature::Ps2RenderingIntentTag
    }
}

/// A zero-sized type standing for the `RedMatrixColumnTag` tag signature.
#[derive(Default, Copy, Clone, Debug, PartialEq, Eq)]
pub struct RedMatrixColumnTag;

impl From<RedMatrixColumnTag> for TagSignature {
    fn from(_marker: RedMatrixColumnTag) -> (sig: TagSignature) {
        TagSignature::RedMatrixColumnTag
    }
}

impl vstd::std_specs::convert::FromSpecImpl<RedMatrixColumnTag> for TagSignature {
    open spec fn obeys_from_spec() -> bool {
        true
    }

    open spec fn from_spec(_marker: RedMatrixColumnTag) -> TagSignature {
        TagSignature::RedMatrixColumnTag
    }
}

/// A zero-sized type standing for the `RedTRCTag` tag signature.
#[derive(Default, Copy, Clone, Debug, PartialEq, Eq)]
pub struct RedTRCTag;

impl From<RedTRCTag> for TagSignature {
    fn from(_marker: RedTRCTag) -> (sig: TagSignature) {
        TagSignature::RedTRCTag
    }
}

impl vstd::std_specs::convert::FromSpecImpl<RedTRCTag> for TagSignature {
    open spec fn obeys_from_spec() -> bool {
        true
    }

    open spec fn from_spec(_marker: RedTRCTag) -> TagSignature {
        TagSignature::RedTRCTag
    }
}

/// A zero-sized type standing for the `ReferenceNameTag` tag signature.
#[derive(Default, Copy, Clone, Debug, PartialEq, Eq)]
pub struct ReferenceNameTag;

impl From<ReferenceNameTag> for TagSignature {
    fn from(_marker: ReferenceNameTag) -> (sig: TagSignature) {
        TagSignature::ReferenceNameTag
    }
}

impl vstd::std_specs::convert::FromSpecImpl<ReferenceNameTag> for TagSignature {
    open spec fn obeys_from_spec() -> bool {
        true
    }

    open spec fn from_spec(_marker: ReferenceNameTag) -> TagSignature {
        TagSignature::ReferenceNameTag
    }
}

/// A zero-sized type standing for the `SaturationRenderingIntentGamutTag` tag signature.
#[derive(Default, Copy, Clone, Debug, PartialEq, Eq)]
pub struct SaturationRenderingIntentGamutTag;

impl From<SaturationRenderingIntentGamutTag> for TagSignature {
    fn from(_marker: SaturationRenderingIntentGamutTag) -> (sig: TagSignature) {
        TagSignature::SaturationRenderingIntentGamutTag
    }
}

impl vstd::std_specs::convert::FromSpecImpl<SaturationRenderingIntentGamutTag> for TagSignature {
    open spec fn obeys_from_spec() -> bool {
        true
    }

    open spec fn from_spec(_marker: SaturationRenderingIntentGamutTag) -> TagSignature {
        TagSignature::SaturationRenderingIntentGamutTag
    }
}

/// A zero-sized type standing for the `ScreeningDescTag` tag signature.
#[derive(Default, Copy, Clone, Debug, PartialEq, Eq)]
pub struct ScreeningDescTag;

impl From<ScreeningDescTag> for TagSignature {
    fn from(_marker: ScreeningDescTag) -> (sig: TagSignature) {
        TagSignature::ScreeningDescTag
    }
}

impl vstd::std_specs::convert::FromSpecImpl<ScreeningDescTag> for TagSignature {
    open spec fn obeys_from_spec() -> bool {
        true
    }

    open spec fn from_spec(_marker: ScreeningDescTag) -> TagSignature {
        TagSignature::ScreeningDescTag
    }
}

/// A zero-sized type standing for the `ScreeningTag` tag signature.
#[derive(Default, Copy, Clone, Debug, PartialEq, Eq)]
pub struct ScreeningTag;

impl From<ScreeningTag> for TagSignature {
    fn from(_marker: ScreeningTag) -> (sig: TagSignature) {
        TagSignature::ScreeningTag
    }
}

impl vstd::std_specs::convert::FromSpecImpl<ScreeningTag> for TagSignature {
    open spec fn obeys_from_spec() -> bool {
        true
    }

    open spec fn from_spec(_marker: ScreeningTag) -> TagSignature {
        TagSignature::ScreeningTag
    }
}

/// A zero-sized type standing for the `SpectralDataInfoTag` tag signature.
#[derive(Default, Copy, Clone, Debug, PartialEq, Eq)]
pub struct SpectralDataInfoTag;

impl From<SpectralDataInfoTag> for TagSignature {
    fn from(_marker: SpectralDataInfoTag) -> (sig: TagSignature) {
        TagSignature::SpectralDataInfoTag
    }
}

impl vstd::std_specs::convert::FromSpecImpl<SpectralDataInfoTag> for TagSignature {
    open spec fn obeys_from_spec() -> bool {
        true
    }

    open spec fn from_spec(_marker: SpectralDataInfoTag) -> TagSignature {
        TagSignature::SpectralDataInfoTag
    }
}

/// A zero-sized type standing for the `SpectralWhitePointTag` tag signature.
#[derive(Default, Copy, Clone, Debug, PartialEq, Eq)]
pub struct SpectralWhitePointTag;

impl From<SpectralWhitePointTag> for TagSignature {
    fn from(_marker: SpectralWhitePointTag) -> (sig: TagSignature) {
        TagSignature::SpectralWhitePointTag
    }
}

impl vstd::std_specs::convert::FromSpecImpl<SpectralWhitePointTag> for TagSignature {
    open spec fn obeys_from_spec() -> bool {
        true
    }

    open spec fn from_spec(_marker: SpectralWhitePointTag) -> TagSignature {
        TagSignature::SpectralWhitePointTag
    }
}

/// A zero-sized type standing for the `SpectralViewingConditionsTag` tag signature.
#[derive(Default, Copy, Clone, Debug, PartialEq, Eq)]
pub struct SpectralViewingConditionsTag;

impl From<SpectralViewingConditionsTag> for TagSignature {
    fn from(_marker: SpectralViewingConditionsTag) -> (sig: TagSignature) {
        TagSignature::SpectralViewingConditionsTag
    }
}

impl vstd::std_specs::convert::FromSpecImpl<SpectralViewingConditionsTag> for TagSignature {
    open spec fn obeys_from_spec() -> bool {
        true
    }

    open spec fn from_spec(_marker: SpectralViewingConditionsTag) -> TagSignature {
        TagSignature::SpectralViewingConditionsTag
    }
}

/// A zero-sized type standing for the `StandardToCustomPccTag` tag signature.
#[derive(Default, Copy, Clone, Debug, PartialEq, Eq)]
pub struct StandardToCustomPccTag;

impl From<StandardToCustomPccTag> for TagSignature {
    fn from(_marker: StandardToCustomPccTag) -> (sig: TagSignature) {
        TagSignature::StandardToCustomPccTag
    }
}

impl vstd::std_specs::convert::FromSpecImpl<StandardToCustomPccTag> for TagSignature {
    open spec fn obeys_from_spec() -> bool {
        true
    }

    open spec fn from_spec(_marker: StandardToCustomPccTag) -> TagSignature {
        TagSignature::StandardToCustomPccTag
    }
}

/// A zero-sized type standing for the `SurfaceMapTag` tag signature.
#[derive(Default, Copy, Clone, Debug, PartialEq, Eq)]
pub struct SurfaceMapTag;

impl From<SurfaceMapTag> for TagSignature {
    fn from(_marker: SurfaceMapTag) -> (sig: TagSignature) {
        TagSignature::SurfaceMapTag
    }
}

impl vstd::std_specs::convert::FromSpecImpl<SurfaceMapTag> for TagSignature {
    open spec fn obeys_from_spec() -> bool {
        true
    }

    open spec fn from_spec(_marker: SurfaceMapTag) -> TagSignature {
        TagSignature::SurfaceMapTag
    }
}

/// A zero-sized type standing for the `TechnologyTag` tag signature.
#[derive(Default, Copy, Clone, Debug, PartialEq, Eq)]
pub struct TechnologyTag;

impl From<TechnologyTag> for TagSignature {
    fn from(_marker: TechnologyTag) -> (sig: TagSignature) {
        TagSignature::TechnologyTag
    }
}

impl vstd::std_specs::convert::FromSpecImpl<TechnologyTag> for TagSignature {
    open spec fn obeys_from_spec() -> bool {
        true
    }

    open spec fn from_spec(_marker: TechnologyTag) -> TagSignature {
        TagSignature::TechnologyTag
    }
}

/// A zero-sized type standing for the `UcrBgTag` tag signature.
#[derive(Default, Copy, Clone, Debug, PartialEq, Eq)]
pub struct UcrBgTag;

impl From<UcrBgTag> for TagSignature {
    fn from(_marker: UcrBgTag) -> (sig: TagSignature) {
        TagSignature::UcrBgTag
    }
}

impl vstd::std_specs::convert::FromSpecImpl<UcrBgTag> for TagSignature {
    open spec fn obeys_from_spec() -> bool {
        true
    }

    open spec fn from_spec(_marker: UcrBgTag) -> TagSignature {
        TagSignature::UcrBgTag
    }
}

/// A zero-sized type standing for the `ViewingCondDescTag` tag signature.
#[derive(Default, Copy, Clone, Debug, PartialEq, Eq)]
pub struct ViewingCondDescTag;

impl From<ViewingCondDescTag> for TagSignature {
    fn from(_marker: ViewingCondDescTag) -> (sig: TagSignature) {
        TagSignature::ViewingCondDescTag
    }
}

impl vstd::std_specs::convert::FromSpecImpl<ViewingCondDescTag> for TagSignature {
    open spec fn obeys_from_spec() -> bool {
        true
    }

    open spec fn from_spec(_marker: ViewingCondDescTag) -> TagSignature {
        TagSignature::ViewingCondDescTag
    }
}

/// A zero-sized type standing for the `ViewingConditionsTag` tag signature.
#[derive(Default, Copy, Clone, Debug, PartialEq, Eq)]
pub struct ViewingConditionsTag;

impl From<ViewingConditionsTag> for TagSignature {
    fn from(_marker: ViewingConditionsTag) -> (sig: TagSignature) {
        TagSignature::ViewingConditionsTag
    }
}

impl vstd::std_specs::convert::FromSpecImpl<ViewingConditionsTag> for TagSignature {
    open spec fn obeys_from_spec() -> bool {
        true
    }

    open spec fn from_spec(_marker: ViewingConditionsTag) -> TagSignature {
        TagSignature::ViewingConditionsTag
    }
}

/// A zero-sized type standing for the `EmbeddedV5ProfileTag` tag signature.
#[derive(Default, Copy, Clone, Debug, PartialEq, Eq)]
pub struct EmbeddedV5ProfileTag;

impl From<EmbeddedV5ProfileTag> for TagSignature {
    fn from(_marker: EmbeddedV5ProfileTag) -> (sig: TagSignature) {
        TagSignature::EmbeddedV5ProfileTag
    }
}

impl vstd::std_specs::convert::FromSpecImpl<EmbeddedV5ProfileTag> for TagSignature {
    open spec fn obeys_from_spec() -> bool {
        true
    }

    open spec fn from_spec(_marker: EmbeddedV5ProfileTag) -> TagSignature {
        TagSignature::EmbeddedV5ProfileTag
    }
}

/// A zero-sized type standing for the `MakeAndModelTag` tag signature.
#[derive(Default, Copy, Clone, Debug, PartialEq, Eq)]
pub struct MakeAndModelTag;

impl From<MakeAndModelTag> for TagSignature {
    fn from(_marker: MakeAndModelTag) -> (sig: TagSignature) {
        TagSignature::MakeAndModelTag
    }
}

impl vstd::std_specs::convert::FromSpecImpl<MakeAndModelTag> for TagSignature {
    open spec fn obeys_from_spec() -> bool {
        true
    }

    open spec fn from_spec(_marker: MakeAndModelTag) -> TagSignature {
        TagSignature::MakeAndModelTag
    }
}

/// A zero-sized type standing for the `MultilocalizedDescriptionStringTag` tag signature.
#[derive(Default, Copy, Clone, Debug, PartialEq, Eq)]
pub struct MultilocalizedDescriptionStringTag;

impl From<MultilocalizedDescriptionStringTag> for TagSignature {
    fn from(_marker: MultilocalizedDescriptionStringTag) -> (sig: TagSignature) {
        TagSignature::MultilocalizedDescriptionStringTag
    }
}

impl vstd::std_specs::convert::FromSpecImpl<MultilocalizedDescriptionStringTag> for TagSignature {
    open spec fn obeys_from_spec() -> bool {
        true
    }

    open spec fn from_spec(_marker: MultilocalizedDescriptionStringTag) -> TagSignature {
        TagSignature::MultilocalizedDescriptionStringTag
    }
}

/// A zero-sized type standing for the `NativeDisplayInfoTag` tag signature.
#[derive(Default, Copy, Clone, Debug, PartialEq, Eq)]
pub struct NativeDisplayInfoTag;

impl From<NativeDisplayInfoTag> for TagSignature {
    fn from(_marker: NativeDisplayInfoTag) -> (sig: TagSignature) {
        TagSignature::NativeDisplayInfoTag
    }
}

impl vstd::std_specs::convert::FromSpecImpl<NativeDisplayInfoTag> for TagSignature {
    open spec fn obeys_from_spec() -> bool {
        true
    }

    open spec fn from_spec(_marker: NativeDisplayInfoTag) -> TagSignature {
        TagSignature::NativeDisplayInfoTag
    }
}

/// A zero-sized type standing for the `VcgtTag` tag signature.
#[derive(Default, Copy, Clone, Debug, PartialEq, Eq)]
pub struct VcgtTag;

impl From<VcgtTag> for TagSignature {
    fn from(_marker: VcgtTag) -> (sig: TagSignature) {
        TagSignature::VcgtTag
    }
}

impl vstd::std_specs::convert::FromSpecImpl<VcgtTag> for TagSignature {
    open spec fn obeys_from_spec() -> bool {
        true
    }

    open spec fn from_spec(_marker: VcgtTag) -> TagSignature {
        TagSignature::VcgtTag
    }
}

/// A zero-sized type standing for the `VcgpTag` tag signature.
#[derive(Default, Copy, Clone, Debug, PartialEq, Eq)]
pub struct VcgpTag;

impl From<VcgpTag> for TagSignature {
    fn from(_marker: VcgpTag) -> (sig: TagSignature) {
        TagSignature::VcgpTag
    }
}

impl vstd::std_specs::convert::FromSpecImpl<VcgpTag> for TagSignature {
    open spec fn obeys_from_spec() -> bool {
        true
    }

    open spec fn from_spec(_marker: VcgpTag) -> TagSignature {
        TagSignature::VcgpTag
    }
}

/// A zero-sized type standing for the `AbsToRelTransSpaceTag` tag signature.
#[derive(Default, Copy, Clone, Debug, PartialEq, Eq)]
pub struct AbsToRelTransSpaceTag;

impl From<AbsToRelTransSpaceTag> for TagSignature {
    fn from(_marker: AbsToRelTransSpaceTag) -> (sig: TagSignature) {
        TagSignature::AbsToRelTransSpaceTag
    }
}

impl vstd::std_specs::convert::FromSpecImpl<AbsToRelTransSpaceTag> for TagSignature {
    open spec fn obeys_from_spec() -> bool {
        true
    }

    open spec fn from_spec(_marker: AbsToRelTransSpaceTag) -> TagSignature {
        TagSignature::AbsToRelTransSpaceTag
    }
}

} // verus!
