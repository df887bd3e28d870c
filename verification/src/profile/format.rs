//! The binary layout of an ICC profile as spec functions: what reading a byte
//! sequence gives, and which byte sequences it accepts.
//!
//! A profile is the 128-byte header, a big-endian tag count at 128, a tag
//! table of 12-byte entries (signature, offset, size) from 132 on, and the tag
//! data blocks that the entries point to.

use vstd::prelude::*;

use crate::bytes::be_u32_at;
use crate::header::acsp;
use crate::profile::EntryModel;
use crate::tag::TagSignature;

verus! {

/// Signature of the `ncl2` (named color 2) tag.
pub open spec fn ncl2_code() -> u32 {
    0x6E636C32
}

/// Whether a header names `Lab ` as its connection space.
pub open spec fn pcs_is_lab(h: Seq<u8>) -> bool {
    be_u32_at(h, 20) == 0x4C616220
}

/// The tag count.
pub open spec fn tag_count(b: Seq<u8>) -> u32 {
    be_u32_at(b, 128)
}

/// Signature code of table entry `i`.
pub open spec fn entry_sig(b: Seq<u8>, i: int) -> u32 {
    be_u32_at(b, 132 + 12 * i)
}

/// Offset of the data of table entry `i`.
pub open spec fn entry_offset(b: Seq<u8>, i: int) -> u32 {
    be_u32_at(b, 136 + 12 * i)
}

/// Size of the data of table entry `i`.
pub open spec fn entry_size(b: Seq<u8>, i: int) -> u32 {
    be_u32_at(b, 140 + 12 * i)
}

/// The header, the tag count and the whole tag table lie within the bytes.
pub open spec fn table_fits(b: Seq<u8>) -> bool {
    b.len() >= 132 && 132 + 12 * tag_count(b) <= b.len()
}

/// The data of table entry `i` lies within the bytes.
pub open spec fn entry_in_bounds(b: Seq<u8>, i: int) -> bool {
    entry_offset(b, i) + entry_size(b, i) <= b.len()
}

/// The byte sequences that reading accepts: a header with the `acsp` file
/// signature, a complete tag table, and every tag's data inside the bytes.
pub open spec fn parse_accepts(b: Seq<u8>) -> bool {
    &&& table_fits(b)
    &&& be_u32_at(b, 36) == acsp()
    &&& forall|i: int| 0 <= i < tag_count(b) ==> #[trigger] entry_in_bounds(b, i)
}

/// Whether entry `i` is a named-color-2 tag too short for its flag field in a
/// profile with a Lab connection space.
pub open spec fn short_ncl2_at(b: Seq<u8>, i: int) -> bool {
    entry_sig(b, i) == ncl2_code() && pcs_is_lab(b) && entry_size(b, i) < 12
}

/// The inputs that reading refuses besides malformed ones: a named-color-2 tag
/// shorter than 12 bytes in a Lab profile, reached before any entry that points
/// outside the bytes.
pub open spec fn has_short_named_color2(b: Seq<u8>) -> bool {
    &&& table_fits(b)
    &&& be_u32_at(b, 36) == acsp()
    &&& exists|i: int|
        0 <= i < tag_count(b) && #[trigger] short_ncl2_at(b, i) && (forall|j: int|
            0 <= j <= i ==> #[trigger] entry_in_bounds(b, j))
}

/// The data of entry `i` as read: its bytes, with bit 16 of the flags field
/// (byte 9) set for a named-color-2 tag of a Lab profile, marking the PCS.
pub open spec fn entry_data(b: Seq<u8>, i: int) -> Seq<u8> {
    let d = b.subrange(entry_offset(b, i) as int, entry_offset(b, i) + entry_size(b, i));
    if entry_sig(b, i) == ncl2_code() && pcs_is_lab(b) {
        d.update(9, d[9] | 1u8)
    } else {
        d
    }
}

/// The tag-map entry that table entry `i` gives.
pub open spec fn parsed_entry(b: Seq<u8>, i: int) -> EntryModel {
    EntryModel {
        sig: TagSignature::from_code(entry_sig(b, i)),
        offset: entry_offset(b, i),
        size: entry_size(b, i) as i32,
        data: entry_data(b, i),
    }
}

/// Whether some entry has signature `k`.
pub open spec fn model_has_key(s: Seq<EntryModel>, k: TagSignature) -> bool {
    exists|i: int| 0 <= i < s.len() && s[i].sig == k
}

/// Ordered-map insertion on entry models: an entry whose signature is present
/// replaces that entry in place, any other goes last.
pub open spec fn model_insert(s: Seq<EntryModel>, e: EntryModel) -> Seq<EntryModel> {
    if model_has_key(s, e.sig) {
        s.update(choose|i: int| 0 <= i < s.len() && s[i].sig == e.sig, e)
    } else {
        s.push(e)
    }
}

/// The tag-map entries after reading the first `n` table entries in order.
pub open spec fn parsed_entries(b: Seq<u8>, n: nat) -> Seq<EntryModel>
    decreases n,
{
    if n == 0 {
        Seq::empty()
    } else {
        model_insert(parsed_entries(b, (n - 1) as nat), parsed_entry(b, n - 1))
    }
}

/// Whether two table entries share an offset (the profile shares tag data).
pub open spec fn has_duplicate_offsets(b: Seq<u8>) -> bool {
    exists|i: int, j: int|
        0 <= i < j < tag_count(b) && #[trigger] entry_offset(b, i) == #[trigger] entry_offset(b, j)
}

/// No two entries have the same signature.
pub open spec fn sigs_distinct(s: Seq<EntryModel>) -> bool {
    forall|i: int, j: int| 0 <= i < s.len() && 0 <= j < s.len() && i != j ==> s[i].sig != s[j].sig
}

} // verus!
