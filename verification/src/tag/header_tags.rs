//! Header fields that are small enumerations: the rendering intent and the
//! Apple (ColorSync) hint flags.

use vstd::prelude::*;

verus! {

/// The rendering intent of a profile.
#[derive(Debug, Clone, Copy, PartialEq, Eq, Structural)]
pub enum RenderingIntent {
    Perceptual,
    RelativeColorimetric,
    Saturation,
    AbsoluteColorimetric,
}

impl RenderingIntent {
    /// The header value of the intent (0 to 3).
    pub open spec fn code(self) -> u32 {
        match self {
            RenderingIntent::Perceptual => 0,
            RenderingIntent::RelativeColorimetric => 1,
            RenderingIntent::Saturation => 2,
            RenderingIntent::AbsoluteColorimetric => 3,
        }
    }

    /// The intent a header value stands for; values above 3 are read as `Perceptual`.
    pub open spec fn from_code(v: u32) -> RenderingIntent {
        match v {
            1 => RenderingIntent::RelativeColorimetric,
            2 => RenderingIntent::Saturation,
            3 => RenderingIntent::AbsoluteColorimetric,
            _ => RenderingIntent::Perceptual,
        }
    }

    /// The header value of the intent (0 to 3).
    pub fn to_u32(self) -> (v: u32)
        ensures
            v == self.code(),
    {
        match self {
            RenderingIntent::Perceptual => 0,
            RenderingIntent::RelativeColorimetric => 1,
            RenderingIntent::Saturation => 2,
            RenderingIntent::AbsoluteColorimetric => 3,
        }
    }

    /// Every intent is recovered from its header value.
    pub proof fn lemma_from_code_of_code(intent: RenderingIntent)
        ensures
            RenderingIntent::from_code(intent.code()) == intent,
    {
    }
}

/// The rendering intents named in the order of their ICC header values:
/// 0 perceptual, 1 media-relative colorimetric, 2 saturation, 3 ICC-absolute
/// colorimetric.
pub open spec fn icc_intent_names() -> Seq<Seq<char>> {
    seq!["Perceptual"@, "RelativeColorimetric"@, "Saturation"@, "AbsoluteColorimetric"@]
}

/// The header value of each intent is its ICC value, and a header value is read
/// as the intent of that ICC value: 0 perceptual, 1 relative colorimetric,
/// 2 saturation, 3 absolute colorimetric; any larger value reads as perceptual.
pub proof fn law_rendering_intent_values_are_icc(ri: RenderingIntent, v: u32)
    ensures
        ri.code() < 4,
        icc_intent_names()[ri.code() as int] == ri.name(),
        v < 4 ==> RenderingIntent::from_code(v).name() == icc_intent_names()[v as int],
        v < 4 ==> RenderingIntent::from_code(v).code() == v,
        v >= 4 ==> RenderingIntent::from_code(v) == RenderingIntent::Perceptual,
{
}

impl From<u32> for RenderingIntent {
    fn from(v: u32) -> (intent: RenderingIntent) {
        match v {
            1 => RenderingIntent::RelativeColorimetric,
            2 => RenderingIntent::Saturation,
            3 => RenderingIntent::AbsoluteColorimetric,
            _ => RenderingIntent::Perceptual,
        }
    }
}

impl vstd::std_specs::convert::FromSpecImpl<u32> for RenderingIntent {
    open spec fn obeys_from_spec() -> bool {
        true
    }

    open spec fn from_spec(v: u32) -> RenderingIntent {
        RenderingIntent::from_code(v)
    }
}

/// ColorSync quality hint (bits 16 and 17 of the header flags).
#[derive(Debug, Clone, Copy, PartialEq, Eq, Structural)]
pub enum Quality {
    Normal,
    Draft,
    High,
}

impl Quality {
    /// The two-bit value of the hint.
    pub open spec fn code(self) -> u32 {
        match self {
            Quality::Normal => 0,
            Quality::Draft => 1,
            Quality::High => 2,
        }
    }

    /// The two-bit value of the hint.
    pub fn to_u32(self) -> (v: u32)
        ensures
            v == self.code(),
    {
        match self {
            Quality::Normal => 0,
            Quality::Draft => 1,
            Quality::High => 2,
        }
    }
}

/// ColorSync interpolation hint (bit 18 of the header flags).
#[derive(Debug, Clone, Copy, PartialEq, Eq, Structural)]
pub enum Interpolate {
    True,
    False,
}

impl Interpolate {
    /// The bit value of the hint.
    pub open spec fn code(self) -> u32 {
        match self {
            Interpolate::True => 0,
            Interpolate::False => 1,
        }
    }

    /// The bit value of the hint.
    pub fn to_u32(self) -> (v: u32)
        ensures
            v == self.code(),
    {
        match self {
            Interpolate::True => 0,
            Interpolate::False => 1,
        }
    }
}

/// ColorSync gamut-check hint (bit 19 of the header flags).
#[derive(Debug, Clone, Copy, PartialEq, Eq, Structural)]
pub enum GamutCheck {
    True,
    False,
}

impl GamutCheck {
    /// The bit value of the hint.
    pub open spec fn code(self) -> u32 {
        match self {
            GamutCheck::True => 0,
            GamutCheck::False => 1,
        }
    }

    /// The bit value of the hint.
    pub fn to_u32(self) -> (v: u32)
        ensures
            v == self.code(),
    {
        match self {
            GamutCheck::True => 0,
            GamutCheck::False => 1,
        }
    }
}

impl RenderingIntent {
    /// The name of the variant, as text.
    pub open spec fn name(self) -> Seq<char> {
        match self {
            RenderingIntent::Perceptual => "Perceptual"@,
            RenderingIntent::RelativeColorimetric => "RelativeColorimetric"@,
            RenderingIntent::Saturation => "Saturation"@,
            RenderingIntent::AbsoluteColorimetric => "AbsoluteColorimetric"@,
        }
    }

    /// The name of the variant, e.g. for a text dump of a profile.
    pub fn to_string(&self) -> (s: String)
        ensures
            s@ == self.name(),
    {
        match self {
            RenderingIntent::Perceptual => <String as vstd::string::StringExecFns>::from_str("Perceptual"),
            RenderingIntent::RelativeColorimetric => <String as vstd::string::StringExecFns>::from_str("RelativeColorimetric"),
            RenderingIntent::Saturation => <String as vstd::string::StringExecFns>::from_str("Saturation"),
            RenderingIntent::AbsoluteColorimetric => <String as vstd::string::StringExecFns>::from_str("AbsoluteColorimetric"),
        }
    }
}

} // verus!
