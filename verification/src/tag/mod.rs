//! Tags: their signatures, their payload bytes, and the header enumerations.

mod header_tags;
mod signature;
pub mod tags;

pub use header_tags::{icc_intent_names, law_rendering_intent_values_are_icc, GamutCheck, Interpolate, Quality, RenderingIntent};
pub use signature::TagSignature;

use vstd::prelude::*;

use crate::signatures::TypeSignature;

verus! {

/// The payload of a tag, exactly as stored in the profile's tag data block:
/// a four-byte type signature, four reserved bytes, and the type's data.
#[derive(Debug, Clone, PartialEq)]
pub struct TagData(pub Vec<u8>);

impl Default for TagData {
    /// An empty payload.
    fn default() -> (d: TagData)
        ensures
            d.0@ == Seq::<u8>::empty(),
    {
        TagData(Vec::new())
    }
}

impl TagData {
    /// Wraps payload bytes.
    pub fn new(data: Vec<u8>) -> (d: TagData)
        ensures
            d.0@ == data@,
    {
        TagData(data)
    }

    /// An empty payload.
    pub fn empty() -> (d: TagData)
        ensures
            d.0@ == Seq::<u8>::empty(),
    {
        TagData(Vec::new())
    }
}

/// Access to the bytes of a tag payload.
pub trait TagDataTraits {
    /// The payload bytes.
    spec fn bytes(&self) -> Seq<u8>;

    /// Converts the tag data into a byte vector.
    fn into_bytes(self) -> (v: Vec<u8>)
        where Self: Sized
        ensures
            v@ == self.bytes(),
    ;

    /// Borrows the payload bytes.
    fn as_slice(&self) -> (s: &[u8])
        ensures
            s@ == self.bytes(),
    ;

    /// Borrows the payload bytes mutably; what is written through the slice is
    /// the payload afterwards.
    fn as_mut_slice(&mut self) -> (s: &mut [u8])
        ensures
            s@ == old(self).bytes(),
            final(self).bytes() == final(s)@,
    ;

    /// Number of payload bytes.
    fn len(&self) -> (n: usize)
        ensures
            n == self.bytes().len(),
    ;

    /// Whether the payload is empty.
    fn is_empty(&self) -> (b: bool)
        ensures
            b == (self.bytes().len() == 0),
    ;

    /// The type signature held in the first four bytes.
    fn type_signature(&self) -> (sig: TypeSignature)
        requires
            self.bytes().len() >= 4,
        ensures
            sig == TypeSignature::from_code(crate::bytes::be_u32_at(self.bytes(), 0)),
    ;
}

impl TagDataTraits for TagData {
    open spec fn bytes(&self) -> Seq<u8> {
        self.0@
    }

    fn into_bytes(self) -> (v: Vec<u8>) {
        self.0
    }

    fn as_slice(&self) -> (s: &[u8]) {
        self.0.as_slice()
    }

    fn as_mut_slice(&mut self) -> (s: &mut [u8]) {
        self.0.as_mut_slice()
    }

    fn len(&self) -> (n: usize) {
        self.0.len()
    }

    fn is_empty(&self) -> (b: bool) {
        self.0.len() == 0
    }

    fn type_signature(&self) -> (sig: TypeSignature) {
        TypeSignature::from_u32(crate::bytes::read_u32_be(self.0.as_slice(), 0))
    }
}

/// A tag of a profile: its signature and its payload.
#[derive(Debug, Clone, PartialEq)]
pub struct Tag {
    pub signature: TagSignature,
    pub data: TagData,
}

impl Tag {
    /// Creates the tag for a four-byte signature code.
    pub fn new(tag_sig_u32: u32, tagdata: TagData) -> (t: Tag)
        ensures
            t.signature == TagSignature::from_code(tag_sig_u32),
            t.data.0@ == tagdata.0@,
    {
        Tag { signature: TagSignature::new(tag_sig_u32), data: tagdata }
    }

    /// The payload bytes.
    pub fn as_slice(&self) -> (s: &[u8])
        ensures
            s@ == self.data.0@,
    {
        self.data.0.as_slice()
    }

    /// Consumes the tag and returns its payload bytes.
    pub fn into_bytes(self) -> (v: Vec<u8>)
        ensures
            v@ == self.data.0@,
    {
        self.data.0
    }

    /// Number of payload bytes.
    pub fn len(&self) -> (n: usize)
        ensures
            n == self.data.0@.len(),
    {
        self.data.0.len()
    }

    /// Whether the payload is empty.
    pub fn is_empty(&self) -> (b: bool)
        ensures
            b == (self.data.0@.len() == 0),
    {
        self.data.0.len() == 0
    }

    /// The payload.
    pub fn data(&self) -> (d: &TagData)
        ensures
            *d == self.data,
    {
        &self.data
    }

    /// The payload, for changing it in place.
    pub fn data_mut(&mut self) -> (d: &mut TagData)
        ensures
            *d == old(self).data,
            final(self).data == *final(d),
            final(self).signature == old(self).signature,
    {
        &mut self.data
    }
}

} // verus!
