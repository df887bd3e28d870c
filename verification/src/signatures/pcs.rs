use vstd::prelude::*;

use crate::error::Error;
use crate::signatures::Signature;

verus! {

/// The Profile Connection Space of an ICC profile.
#[derive(Debug, Clone, Copy, PartialEq, Eq, Structural)]
pub enum Pcs {
    /// CIE 1931 XYZ ('XYZ ').
    XYZ,
    /// CIELAB ('Lab ').
    Lab,
    /// Spectral PCS ('spec').
    Spectral,
}

impl Pcs {
    /// The four-byte code of the connection space.
    pub open spec fn code(self) -> u32 {
        match self {
            Pcs::XYZ => 0x58595A20,
            Pcs::Lab => 0x4C616220,
            Pcs::Spectral => 0x73706563,
        }
    }

    /// The connection space a code stands for, if any.
    pub open spec fn from_code(code: u32) -> Option<Pcs> {
        match code {
            0x58595A20 => Some(Pcs::XYZ),
            0x4C616220 => Some(Pcs::Lab),
            0x73706563 => Some(Pcs::Spectral),
            _ => None,
        }
    }

    /// Decodes a signature; any code other than `XYZ `, `Lab ` and `spec` is an
    /// `InvalidPcsTag` error carrying the signature.
    pub fn new(tag: Signature) -> (res: Result<Pcs, Error>)
        ensures
            match Pcs::from_code(tag.0) {
                Some(p) => res == Ok::<Pcs, Error>(p),
                None => res == Err::<Pcs, Error>(Error::InvalidPcsTag(tag)),
            },
    {
        match tag.0 {
            0x58595A20 => Ok(Pcs::XYZ),
            0x4C616220 => Ok(Pcs::Lab),
            0x73706563 => Ok(Pcs::Spectral),
            _ => Err(Error::InvalidPcsTag(tag)),
        }
    }

    /// The four-byte code of the connection space.
    pub fn to_u32(self) -> (code: u32)
        ensures
            code == self.code(),
    {
        match self {
            Pcs::XYZ => 0x58595A20,
            Pcs::Lab => 0x4C616220,
            Pcs::Spectral => 0x73706563,
        }
    }

    /// Every connection space is recovered from its code.
    pub proof fn lemma_from_code_of_code(pcs: Pcs)
        ensures
            Pcs::from_code(pcs.code()) == Some(pcs),
    {
    }
}

impl From<Pcs> for Signature {
    fn from(pcs: Pcs) -> (s: Signature) {
        Signature(pcs.to_u32())
    }
}

impl vstd::std_specs::convert::FromSpecImpl<Pcs> for Signature {
    open spec fn obeys_from_spec() -> bool {
        true
    }

    open spec fn from_spec(pcs: Pcs) -> Signature {
        Signature(pcs.code())
    }
}

impl Pcs {
    /// The name of the variant, as text.
    pub open spec fn name(self) -> Seq<char> {
        match self {
            Pcs::XYZ => "XYZ"@,
            Pcs::Lab => "Lab"@,
            Pcs::Spectral => "Spectral"@,
        }
    }

    /// The name of the variant, e.g. for a text dump of a profile.
    pub fn to_string(&self) -> (s: String)
        ensures
            s@ == self.name(),
    {
        match self {
            Pcs::XYZ => <String as vstd::string::StringExecFns>::from_str("XYZ"),
            Pcs::Lab => <String as vstd::string::StringExecFns>::from_str("Lab"),
            Pcs::Spectral => <String as vstd::string::StringExecFns>::from_str("Spectral"),
        }
    }
}

impl Pcs {
    /// The four characters of the ICC name of a value, as the ICC specification
    /// writes them; `None` for a value without one.
    pub open spec fn icc_name(self) -> Option<(char, char, char, char)> {
        match self {
            Pcs::XYZ => Some(('X', 'Y', 'Z', ' ')),
            Pcs::Lab => Some(('L', 'a', 'b', ' ')),
            Pcs::Spectral => Some(('s', 'p', 'e', 'c')),
        }
    }

    /// Each value with an ICC name is written as the big-endian code of the four
    /// characters of that name, and that code is read back as the same value.
    pub proof fn law_codes_are_icc_names(value: Pcs)
        ensures
            value.icc_name() matches Some(n) ==> value.code() == crate::signatures::fourcc(n),
            value.icc_name() matches Some(n) ==> Pcs::from_code(crate::signatures::fourcc(n)) == Some(value),
    {
    }
}

} // verus!
