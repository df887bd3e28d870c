//! The ordered tag map of a profile: `indexmap::IndexMap` keyed by tag
//! signature, used through a few trusted wrappers whose contracts speak of
//! the map's entries in insertion order.

use indexmap::IndexMap;
use vstd::prelude::*;

use crate::profile::ProfileTagRecord;
use crate::tag::TagSignature;

verus! {

#[verifier::external_type_specification]
#[verifier::external_body]
#[verifier::reject_recursive_types(K)]
#[verifier::reject_recursive_types(V)]
#[verifier::reject_recursive_types(S)]
pub struct ExIndexMap<K, V, S>(IndexMap<K, V, S>);

/// Cloning a map (`IndexMap::clone`); nothing is stated of the copy, as the
/// clone is generic over the key and value types.
pub assume_specification<K, V, S>[<IndexMap<K, V, S> as Clone>::clone](map: &IndexMap<K, V, S>) -> IndexMap<K, V, S>
    where
        K: Clone,
        V: Clone,
        S: Clone,
;

/// The tag map of a profile.
pub type TagMap = IndexMap<TagSignature, ProfileTagRecord>;

/// The entries of a tag map, in the map's order.
pub uninterp spec fn tag_table(m: IndexMap<TagSignature, ProfileTagRecord>) -> Seq<(TagSignature, ProfileTagRecord)>;

/// No key occurs twice.
pub open spec fn keys_distinct(s: Seq<(TagSignature, ProfileTagRecord)>) -> bool {
    forall|i: int, j: int| 0 <= i < s.len() && 0 <= j < s.len() && i != j ==> s[i].0 != s[j].0
}

/// Whether `k` is a key of the entries.
pub open spec fn has_key(s: Seq<(TagSignature, ProfileTagRecord)>, k: TagSignature) -> bool {
    exists|i: int| 0 <= i < s.len() && s[i].0 == k
}

/// The position of key `k`, or -1 when absent.
pub open spec fn key_index(s: Seq<(TagSignature, ProfileTagRecord)>, k: TagSignature) -> int {
    if has_key(s, k) {
        choose|i: int| 0 <= i < s.len() && s[i].0 == k
    } else {
        -1
    }
}

/// The entries after inserting `(k, v)`: an existing key keeps its place and
/// takes the new value; a new key goes last.
pub open spec fn inserted(s: Seq<(TagSignature, ProfileTagRecord)>, k: TagSignature, v: ProfileTagRecord) -> Seq<(TagSignature, ProfileTagRecord)> {
    if has_key(s, k) {
        s.update(key_index(s, k), (s[key_index(s, k)].0, v))
    } else {
        s.push((k, v))
    }
}

/// A new, empty map (`IndexMap::new`).
#[verifier::external_body]
pub(crate) fn tag_map_new() -> (m: TagMap)
    ensures
        tag_table(m) == Seq::<(TagSignature, ProfileTagRecord)>::empty(),
{
    IndexMap::new()
}

/// Inserts a key-value pair (`IndexMap::insert`): if the key is present it keeps
/// its position and its value is replaced, else the pair is appended.  Returns
/// the replaced value.
#[verifier::external_body]
pub(crate) fn tag_map_insert(m: &mut TagMap, key: TagSignature, value: ProfileTagRecord) -> (replaced: Option<ProfileTagRecord>)
    ensures
        tag_table(*final(m)) == inserted(tag_table(*old(m)), key, value),
        replaced == (if has_key(tag_table(*old(m)), key) {
            Some(tag_table(*old(m))[key_index(tag_table(*old(m)), key)].1)
        } else {
            None
        }),
        keys_distinct(tag_table(*final(m))),
{
    m.insert(key, value)
}

/// Number of entries (`IndexMap::len`).
#[verifier::external_body]
pub(crate) fn tag_map_len(m: &TagMap) -> (n: usize)
    ensures
        n == tag_table(*m).len(),
{
    m.len()
}

/// The entry at position `i` (`IndexMap::get_index`).
#[verifier::external_body]
pub(crate) fn tag_map_get_index(m: &TagMap, i: usize) -> (entry: (&TagSignature, &ProfileTagRecord))
    requires
        i < tag_table(*m).len(),
    ensures
        *entry.0 == tag_table(*m)[i as int].0,
        *entry.1 == tag_table(*m)[i as int].1,
{
    m.get_index(i).unwrap()
}

/// A mutable reference to the value at position `i` (`IndexMap::get_index_mut`);
/// what is written through it becomes the value at `i`, under the same key.
#[verifier::external_body]
pub(crate) fn tag_map_value_mut(m: &mut TagMap, i: usize) -> (r: &mut ProfileTagRecord)
    requires
        i < tag_table(*old(m)).len(),
    ensures
        *r == tag_table(*old(m))[i as int].1,
        tag_table(*final(m)) == tag_table(*old(m)).update(i as int, (tag_table(*old(m))[i as int].0, *final(r))),
{
    m.get_index_mut(i).unwrap().1
}

/// The position of `key`, if present (`IndexMap::get_index_of`).  Keys are unique,
/// so the position is the only one holding that key.
#[verifier::external_body]
pub(crate) fn tag_map_index_of(m: &TagMap, key: &TagSignature) -> (pos: Option<usize>)
    ensures
        match pos {
            Some(i) => i < tag_table(*m).len() && tag_table(*m)[i as int].0 == *key
                && (forall|j: int| 0 <= j < tag_table(*m).len() && tag_table(*m)[j].0 == *key ==> j == i),
            None => !has_key(tag_table(*m), *key),
        },
{
    m.get_index_of(key)
}

} // verus!
