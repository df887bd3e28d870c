//! Setting the data of one tag of a profile: `with_tag` names the tag and
//! returns a `TagSetter`, whose `as_*` method sets the data and returns the
//! profile.  The marker traits say which tags take which kind of data.

use vstd::prelude::*;
use vstd::std_specs::convert::IntoSpec;

use crate::bytes::{be_bytes_u32, u32_to_be};
use crate::profile::classes::HasRawProfile;
use crate::profile::tag_map::{
    has_key, key_index, tag_map_get_index, tag_map_index_of, tag_map_insert, tag_map_len,
    tag_map_value_mut, tag_table,
};
use crate::profile::{ProfileTagRecord, RawProfile};
use crate::tag::tags::{
    BlueMatrixColumnTag, BlueTRCTag, CharTargetTag, ChromaticAdaptationTag,
    ColorimetricIntentImageStateTag, CopyrightTag, DeviceMfgDescTag, DeviceModelDescTag,
    GrayTRCTag, GreenMatrixColumnTag, GreenTRCTag, LuminanceTag, MediaBlackPointTag,
    MediaWhitePointTag, PerceptualRenderingIntentGamutTag, ProfileDescriptionTag,
    RedMatrixColumnTag, RedTRCTag, TechnologyTag, ViewingCondDescTag,
};
use crate::tag::{Tag, TagData, TagSignature};

verus! {

/// Tags that hold multi-localized Unicode text.
pub trait IsMultiLocalizedUnicodeTag {}

impl IsMultiLocalizedUnicodeTag for CopyrightTag {}

impl IsMultiLocalizedUnicodeTag for ProfileDescriptionTag {}

impl IsMultiLocalizedUnicodeTag for DeviceMfgDescTag {}

impl IsMultiLocalizedUnicodeTag for DeviceModelDescTag {}

impl IsMultiLocalizedUnicodeTag for ViewingCondDescTag {}

/// Tags that hold a tone curve.
pub trait IsCurveTag {}

impl IsCurveTag for BlueTRCTag {}

impl IsCurveTag for GreenTRCTag {}

impl IsCurveTag for RedTRCTag {}

impl IsCurveTag for GrayTRCTag {}

/// Tags that hold a parametric tone curve.
pub trait IsParametricCurveTag {}

impl IsParametricCurveTag for BlueTRCTag {}

impl IsParametricCurveTag for GreenTRCTag {}

impl IsParametricCurveTag for RedTRCTag {}

impl IsParametricCurveTag for GrayTRCTag {}

/// Tags that hold a signature.
pub trait IsSignatureTag {}

impl IsSignatureTag for ColorimetricIntentImageStateTag {}

impl IsSignatureTag for TechnologyTag {}

impl IsSignatureTag for PerceptualRenderingIntentGamutTag {}

/// Tags that hold an array of XYZ numbers.
pub trait IsXYZArrayTag {}

impl IsXYZArrayTag for RedMatrixColumnTag {}

impl IsXYZArrayTag for GreenMatrixColumnTag {}

impl IsXYZArrayTag for BlueMatrixColumnTag {}

impl IsXYZArrayTag for LuminanceTag {}

impl IsXYZArrayTag for MediaWhitePointTag {}

impl IsXYZArrayTag for MediaBlackPointTag {}

/// Tags that hold an ICC version 2 text description.
pub trait IsTextDescriptionTag {}

impl IsTextDescriptionTag for ProfileDescriptionTag {}

impl IsTextDescriptionTag for CopyrightTag {}

impl IsTextDescriptionTag for DeviceMfgDescTag {}

impl IsTextDescriptionTag for DeviceModelDescTag {}

impl IsTextDescriptionTag for ViewingCondDescTag {}

/// Tags that hold plain text.
pub trait IsTextTag {}

impl IsTextTag for CopyrightTag {}

impl IsTextTag for CharTargetTag {}

/// Tags that hold an array of s15Fixed16 numbers.
pub trait IsS15Fixed16ArrayTag {}

impl IsS15Fixed16ArrayTag for ChromaticAdaptationTag {}

/// Tags that hold an 8-bit lookup table.
pub trait IsLut8DataTag {}

/// Tags that hold a 16-bit lookup table.
pub trait IsLut16DataTag {}

/// Tags that hold an A-to-B lookup table.
pub trait IsLutAtoBDataTag {}

/// Tags that hold a B-to-A lookup table.
pub trait IsLutBtoADataTag {}

/// Tags whose data is kept as raw bytes.
pub trait IsRawTag {}

/// A kind of tag data: which payloads hold it, and how to wrap it as a payload.
pub trait TagDataKind {
    /// The data of this kind.
    type Data: Default;

    /// The data of this kind that a payload holds, if it holds this kind.
    fn as_ref(td: &TagData) -> Option<&Self::Data>;

    /// The data of this kind that a payload holds, for changing it in place.
    fn as_mut(td: &mut TagData) -> Option<&mut Self::Data>;

    /// Wraps data of this kind as a payload.
    fn wrap(data: Self::Data) -> TagData;
}

/// Raw data: every payload holds it, as its bytes.
#[derive(Debug, Clone, Copy, Default)]
pub struct RawKind;

impl TagDataKind for RawKind {
    type Data = TagData;

    fn as_ref(td: &TagData) -> (r: Option<&TagData>)
        ensures
            r == Some(td),
    {
        Some(td)
    }

    fn as_mut(td: &mut TagData) -> (r: Option<&mut TagData>)
        ensures
            r matches Some(x) && *x == *old(td) && *final(td) == *final(x),
    {
        Some(td)
    }

    fn wrap(data: TagData) -> (r: TagData)
        ensures
            r == data,
    {
        data
    }
}

/// The payload that a new raw tag starts with: its signature as the type
/// signature, and four reserved zero bytes.
pub open spec fn raw_tag_start(sig: TagSignature) -> Seq<u8> {
    be_bytes_u32(sig.code()) + Seq::new(4, |i: int| 0u8)
}

/// The payload handed to the configuring function of `as_raw`: the tag's data
/// when the tag holds some, else the start of a new raw tag.
pub open spec fn raw_start(t: Seq<(TagSignature, ProfileTagRecord)>, sig: TagSignature) -> Seq<u8> {
    if has_key(t, sig) && t[key_index(t, sig)].1.tag.data.0@.len() > 0 {
        t[key_index(t, sig)].1.tag.data.0@
    } else {
        raw_tag_start(sig)
    }
}

/// The tag-map entries once the tag `sig` holds `d`: an existing tag keeps its
/// place and record, a new one is appended with offset and size zero.
pub open spec fn with_tag_data(t: Seq<(TagSignature, ProfileTagRecord)>, sig: TagSignature, d: TagData) -> Seq<
    (TagSignature, ProfileTagRecord),
> {
    if has_key(t, sig) {
        let i = key_index(t, sig);
        t.update(
            i,
            (t[i].0, ProfileTagRecord { tag: Tag { data: d, ..t[i].1.tag }, ..t[i].1 }),
        )
    } else {
        t.push(
            (
                sig,
                ProfileTagRecord {
                    offset: 0,
                    size: 0,
                    tag: Tag { signature: TagSignature::from_code(sig.code()), data: d },
                },
            ),
        )
    }
}

/// Sets the raw payload of tag `sig`: `configure` receives the current payload
/// (or the start of a new raw tag, see [`raw_start`]) and returns the new one.
fn set_raw_tag<F: FnOnce(TagData) -> TagData>(raw: &mut RawProfile, sig: TagSignature, configure: F)
    requires
        forall|d: TagData| call_requires(configure, (d,)),
    ensures
        final(raw).header == old(raw).header,
        final(raw).shared_tags == old(raw).shared_tags,
        exists|start: TagData, d: TagData|
            start.0@ == raw_start(tag_table(old(raw).tags), sig) && call_ensures(configure, (start,), d)
                && tag_table(final(raw).tags) == with_tag_data(tag_table(old(raw).tags), sig, d),
{
    let ghost t0 = tag_table(raw.tags);
    let i = match tag_map_index_of(&raw.tags, &sig) {
        Some(i) => i,
        None => {
            let tag = Tag::new(sig.to_u32(), TagData::empty());
            tag_map_insert(&mut raw.tags, sig, ProfileTagRecord::new(0, 0, tag));
            tag_map_len(&raw.tags) - 1
        },
    };
    let ghost t1 = tag_table(raw.tags);
    proof {
        if has_key(t0, sig) {
            assert(key_index(t0, sig) == i);
        }
    }
    let rec = tag_map_value_mut(&mut raw.tags, i);
    let mut current = TagData::empty();
    std::mem::swap(&mut current, &mut rec.tag.data);
    let start = if current.0.len() > 0 {
        current
    } else {
        let code = u32_to_be(sig.to_u32());
        let mut v: Vec<u8> = Vec::new();
        v.push(code[0]);
        v.push(code[1]);
        v.push(code[2]);
        v.push(code[3]);
        v.push(0);
        v.push(0);
        v.push(0);
        v.push(0);
        assert(v@ =~= raw_tag_start(sig));
        TagData::new(v)
    };
    assert(start.0@ == raw_start(t0, sig));
    let d = configure(start);
    rec.tag.data = d;
    assert(tag_table(raw.tags) =~= with_tag_data(t0, sig, d));
}

/// Sets the data of one tag of a profile; made by `with_tag`.
pub struct TagSetter<P: HasRawProfile, S> {
    profile: P,
    tag: S,
}

impl<P: HasRawProfile, S: Into<TagSignature> + Copy> TagSetter<P, S> {
    /// A setter for tag `tag` of `profile`.
    pub fn new(profile: P, tag: S) -> (t: Self)
        ensures
            t.profile_of() == profile,
            t.tag_of() == tag,
    {
        TagSetter { profile, tag }
    }

    /// The profile that the setter changes.
    pub closed spec fn profile_of(self) -> P {
        self.profile
    }

    /// The tag that the setter sets.
    pub closed spec fn tag_of(self) -> S {
        self.tag
    }

    /// Sets the tag's data as raw bytes and returns the profile.  `configure`
    /// receives the tag's current payload, or for a new or empty tag the tag
    /// signature followed by four reserved zero bytes, and returns the payload
    /// to keep.  A new tag is appended to the tag map.
    pub fn as_raw<F: FnOnce(TagData) -> TagData>(self, configure: F) -> (p: P)
        requires
            forall|d: TagData| call_requires(configure, (d,)),
        ensures
            p.raw_view().header == self.profile_of().raw_view().header,
            p.raw_view().shared_tags == self.profile_of().raw_view().shared_tags,
            S::obeys_into_spec() ==> exists|start: TagData, d: TagData|
                start.0@ == raw_start(tag_table(self.profile_of().raw_view().tags), self.tag_of().into_spec())
                    && call_ensures(configure, (start,), d) && tag_table(p.raw_view().tags)
                    == with_tag_data(tag_table(self.profile_of().raw_view().tags), self.tag_of().into_spec(), d),
    {
        let sig: TagSignature = self.tag.into();
        let mut profile = self.profile;
        let raw = profile.raw_mut();
        set_raw_tag(raw, sig, configure);
        profile
    }
}

impl RawProfile {
    /// Starts setting the data of tag `tag`.
    pub fn with_tag<S: Into<TagSignature> + Copy>(self, tag: S) -> (t: TagSetter<RawProfile, S>)
        ensures
            t.profile_of() == self,
            t.tag_of() == tag,
    {
        TagSetter::new(self, tag)
    }

    /// The payload of tag `tag`, if the profile has that tag.
    pub fn tag_data<S: Into<TagSignature>>(&self, tag: S) -> (d: Option<&TagData>)
        ensures
            S::obeys_into_spec() ==> (d is Some <==> has_key(tag_table(self.tags), tag.into_spec())),
            S::obeys_into_spec() ==> (d matches Some(x) ==> *x == tag_table(self.tags)[key_index(
                tag_table(self.tags),
                tag.into_spec(),
            )].1.tag.data),
    {
        let sig: TagSignature = tag.into();
        match tag_map_index_of(&self.tags, &sig) {
            Some(i) => {
                let (_, rec) = tag_map_get_index(&self.tags, i);
                Some(&rec.tag.data)
            },
            None => None,
        }
    }

    /// The payload of tag `tag`, for changing it in place, if the profile has
    /// that tag; what is written through the reference is the tag's payload
    /// afterwards.
    pub fn tag_data_mut<S: Into<TagSignature>>(&mut self, tag: S) -> (d: Option<&mut TagData>)
        ensures
            final(self).header == old(self).header,
            final(self).shared_tags == old(self).shared_tags,
            S::obeys_into_spec() ==> (d is Some <==> has_key(tag_table(old(self).tags), tag.into_spec())),
            d is None ==> final(self).tags == old(self).tags,
            S::obeys_into_spec() ==> (d matches Some(x) ==> {
                let t = tag_table(old(self).tags);
                let i = key_index(t, tag.into_spec());
                &&& *x == t[i].1.tag.data
                &&& tag_table(final(self).tags) == t.update(
                    i,
                    (t[i].0, ProfileTagRecord { tag: Tag { data: *final(x), ..t[i].1.tag }, ..t[i].1 }),
                )
            }),
    {
        let sig: TagSignature = tag.into();
        match tag_map_index_of(&self.tags, &sig) {
            Some(i) => {
                let ghost t = tag_table(self.tags);
                proof {
                    assert(key_index(t, sig) == i);
                }
                let rec = tag_map_value_mut(&mut self.tags, i);
                Some(&mut rec.tag.data)
            },
            None => None,
        }
    }
}

} // verus!
