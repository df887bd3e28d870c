//! Profiles: the raw profile that holds the header and the tag map, and the
//! device-class wrappers around it.

mod checksum;
mod classes;
pub mod format;
pub mod layout;
pub mod roundtrip;
mod raw_profile;
pub mod tag_map;
pub mod tag_setter;

pub use checksum::{md5_digest, md5checksum, set_profile_id};
pub use classes::{
    AbstractProfile, ColorSpaceProfile, DeviceLinkProfile, DisplayProfile, HasRawProfile,
    InputProfile, NamedColorProfile, OutputProfile, Profile, SpectralProfile,
};
pub use tag_setter::TagSetter;
pub use raw_profile::{default_header, EntryModel, ProfileModel, ProfileTagRecord, RawProfile};
