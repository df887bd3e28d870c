use vstd::prelude::*;

use crate::bytes::{append_bytes, append_zeros, be_bytes_u32, be_u32_at, read_u32_be, same_bytes, u32_to_be};
use crate::error::Error;
use crate::header::acsp;
use crate::profile::format::{
    entry_data, entry_in_bounds, entry_offset, entry_sig, entry_size, has_duplicate_offsets,
    has_short_named_color2, model_has_key, model_insert, ncl2_code, parse_accepts, parsed_entries,
    parsed_entry, pcs_is_lab, short_ncl2_at, sigs_distinct, table_fits, tag_count,
};
use crate::profile::layout::{
    body_bytes, capped, data_start, datas, first_with, is_primary, is_written, layout_fits,
    layout_offset, layout_size, lemma_body_len, lemma_first_is_primary, lemma_first_with,
    lemma_next_offset_monotone, lemma_table_len, named_color2_writable, next_offset, padded,
    relaid, serialize, table_bytes, unsized_bytes, written_data, zeros,
};
use crate::profile::tag_map::{
    has_key, inserted, key_index, keys_distinct, tag_map_get_index, tag_map_insert, tag_map_len,
    tag_map_new, tag_map_value_mut, tag_table, TagMap,
};
use crate::profile::checksum::{id_zeroed, md5_id, set_profile_id, zero_id};
use crate::header::{splice, version_code};
use crate::signatures::Pcs;
use crate::S15Fixed16;
use crate::{pad_size, spec_pad_size};
use crate::tag::{Tag, TagData, TagSignature};

verus! {

/// A tag as it stands in a profile: where the tag table says its data lies,
/// and the tag itself.  A negative size marks a tag whose data block is shared
/// with an earlier tag.
#[derive(Debug, Clone, PartialEq)]
pub struct ProfileTagRecord {
    pub offset: u32,
    pub size: i32,
    pub tag: Tag,
}

impl ProfileTagRecord {
    /// Creates a record with the given offset, size and tag.
    pub fn new(offset: u32, size: i32, tag: Tag) -> (r: Self)
        ensures
            r.offset == offset,
            r.size == size,
            r.tag == tag,
    {
        Self { offset, size, tag }
    }

    /// The raw bytes of the tag.
    pub fn as_slice(&self) -> (s: &[u8])
        ensures
            s@ == self.tag.data.0@,
    {
        self.tag.as_slice()
    }
}

/// One tag-map entry as the contracts see it.
pub struct EntryModel {
    pub sig: TagSignature,
    pub offset: u32,
    pub size: i32,
    pub data: Seq<u8>,
}

/// A raw profile as the contracts see it: the 128 header bytes, the tag-map
/// entries in order, and whether identical tag data is shared when written.
pub struct ProfileModel {
    pub header: Seq<u8>,
    pub entries: Seq<EntryModel>,
    pub shared: bool,
}

/// The model of one tag-map entry.
pub open spec fn entry_model(e: (TagSignature, ProfileTagRecord)) -> EntryModel {
    EntryModel { sig: e.0, offset: e.1.offset, size: e.1.size, data: e.1.tag.data.0@ }
}

/// A deconstructed ICC profile: the 128-byte header as raw bytes, and the tags
/// in an ordered map that keeps the order of the source profile's tag table.
/// Tags that this crate does not interpret are kept as raw bytes.
#[derive(Debug, Clone, PartialEq)]
pub struct RawProfile {
    pub header: [u8; 128],
    pub tags: TagMap,
    /// Whether identical tag data is written once and shared when serialising;
    /// detected from duplicate offsets when reading a profile.
    pub shared_tags: bool,
}

impl View for RawProfile {
    type V = ProfileModel;

    open spec fn view(&self) -> ProfileModel {
        ProfileModel {
            header: self.header@,
            entries: tag_table(self.tags).map_values(|e: (TagSignature, ProfileTagRecord)| entry_model(e)),
            shared: self.shared_tags,
        }
    }
}

/// The models of a sequence of tag-map entries.
pub open spec fn tag_models(s: Seq<(TagSignature, ProfileTagRecord)>) -> Seq<EntryModel> {
    s.map_values(|e: (TagSignature, ProfileTagRecord)| entry_model(e))
}

/// Inserting into the tag map and inserting into its model agree.
proof fn lemma_insert_models(s: Seq<(TagSignature, ProfileTagRecord)>, k: TagSignature, v: ProfileTagRecord)
    requires
        keys_distinct(s),
    ensures
        tag_models(inserted(s, k, v)) == model_insert(tag_models(s), entry_model((k, v))),
        sigs_distinct(tag_models(s)),
{
    let m = tag_models(s);
    assert(sigs_distinct(m));
    if has_key(s, k) {
        let i = key_index(s, k);
        assert(model_has_key(m, k)) by {
            assert(m[i].sig == k);
        }
        let j = choose|j: int| 0 <= j < m.len() && m[j].sig == k;
        assert(j == i);
        assert(tag_models(inserted(s, k, v)) =~= model_insert(m, entry_model((k, v))));
    } else {
        assert(!model_has_key(m, k)) by {
            if model_has_key(m, k) {
                let j = choose|j: int| 0 <= j < m.len() && m[j].sig == k;
                assert(s[j].0 == k);
            }
        }
        assert(tag_models(inserted(s, k, v)) =~= model_insert(m, entry_model((k, v))));
    }
}

/// The header of a new profile but for its creation date and time: zero except
/// for the `acsp` signature, version 4.3, the XYZ connection space and the D50
/// illuminant (0.9642, 1.0, 0.8249 as s15Fixed16 numbers).
pub open spec fn default_header() -> Seq<u8> {
    splice(
        splice(
            splice(
                splice(
                    splice(
                        splice(Seq::new(128, |i: int| 0u8), 36, be_bytes_u32(acsp())),
                        8,
                        be_bytes_u32(version_code(4, 3)),
                    ),
                    20,
                    be_bytes_u32(Pcs::XYZ.code()),
                ),
                68,
                be_bytes_u32(0xF6D6),
            ),
            72,
            be_bytes_u32(0x1_0000),
        ),
        76,
        be_bytes_u32(0xD32D),
    )
}

impl Default for RawProfile {
    /// A new profile: the `acsp` signature, version 4.3, the XYZ connection space,
    /// the D50 illuminant, the current date and time, no tags, and tag data shared
    /// when written.
    fn default() -> (p: Self)
        ensures
            forall|i: int| 0 <= i < 128 && !(24 <= i < 36) ==> #[trigger] p.header@[i] == default_header()[i],
            crate::datetime::is_clock_reading(crate::header::creation_of(p.header@)),
            tag_table(p.tags).len() == 0,
            p.shared_tags,
    {
        let p = RawProfile { header: [0u8; 128], tags: tag_map_new(), shared_tags: true };
        assert(p.header@ =~= Seq::new(128, |i: int| 0u8));
        let p = p.with_valid_file_signature();
        let p = p.with_version(4, 3).unwrap();
        let p = p.with_pcs(Pcs::XYZ);
        let p = p.with_pcs_illuminant_s15(
            [S15Fixed16::from_raw(0xF6D6), S15Fixed16::from_raw(0x1_0000), S15Fixed16::from_raw(0xD32D)],
        );
        assert(p.header@ == default_header());
        p.with_now_as_creation_date()
    }
}

/// Whether two of the first `count` table entries share an offset.
fn share_tags(bytes: &[u8], count: usize) -> (shared: bool)
    requires
        table_fits(bytes@),
        count == tag_count(bytes@),
    ensures
        shared == has_duplicate_offsets(bytes@),
{
    let len = bytes.len();
    let mut j: usize = 0;
    while j < count
        invariant
            j <= count,
            len == bytes@.len(),
            table_fits(bytes@),
            count == tag_count(bytes@),
            forall|a: int, b: int| 0 <= a < b < j ==> #[trigger] entry_offset(bytes@, a) != #[trigger] entry_offset(bytes@, b),
        decreases count - j,
    {
        let oj = read_u32_be(bytes, 136 + 12 * j);
        let mut i: usize = 0;
        while i < j
            invariant
                i <= j < count,
                len == bytes@.len(),
                table_fits(bytes@),
                count == tag_count(bytes@),
                oj == entry_offset(bytes@, j as int),
                forall|a: int| 0 <= a < i ==> #[trigger] entry_offset(bytes@, a) != oj,
            decreases j - i,
        {
            if read_u32_be(bytes, 136 + 12 * i) == oj {
                assert(entry_offset(bytes@, i as int) == entry_offset(bytes@, j as int));
                return true;
            }
            i += 1;
        }
        j += 1;
    }
    false
}

/// Copies `bytes[off..off + len]` into a new vector.
fn copy_range(bytes: &[u8], off: usize, len: usize) -> (v: Vec<u8>)
    requires
        off + len <= bytes@.len(),
    ensures
        v@ == bytes@.subrange(off as int, off + len),
{
    let total = bytes.len();
    let mut v: Vec<u8> = Vec::with_capacity(len);
    let mut i: usize = 0;
    while i < len
        invariant
            i <= len,
            total == bytes@.len(),
            off + len <= bytes@.len(),
            v@ == bytes@.subrange(off as int, off + i),
        decreases len - i,
    {
        v.push(bytes[off + i]);
        i += 1;
        assert(v@ =~= bytes@.subrange(off as int, off + i));
    }
    v
}

/// The first position below `i` whose payload equals that of entry `i`, or `i`.
fn first_same_payload(tags: &TagMap, i: usize) -> (f: usize)
    requires
        i < tag_table(*tags).len(),
    ensures
        f == first_with(datas(tag_models(tag_table(*tags))), datas(tag_models(tag_table(*tags)))[i as int], i as nat),
{
    let ghost d = datas(tag_models(tag_table(*tags)));
    let b = tag_map_get_index(tags, i).1.tag.as_slice();
    assert(b@ == d[i as int]);
    let mut j: usize = 0;
    while j < i
        invariant
            j <= i,
            i < tag_table(*tags).len(),
            d == datas(tag_models(tag_table(*tags))),
            b@ == d[i as int],
            forall|k: int| 0 <= k < j ==> #[trigger] d[k] != d[i as int],
        decreases i - j,
    {
        let a = tag_map_get_index(tags, j).1.tag.as_slice();
        assert(a@ == d[j as int]);
        if same_bytes(a, b) {
            proof {
                lemma_first_with(d, d[i as int], i as nat);
                let fw = first_with(d, d[i as int], i as nat);
                if fw < j {
                    assert(d[fw as int] != d[i as int]);
                }
                if fw > j {
                    assert(d[j as int] != d[i as int]);
                }
            }
            return j;
        }
        j += 1;
    }
    proof {
        lemma_first_with(d, d[i as int], i as nat);
        let fw = first_with(d, d[i as int], i as nat);
        if fw < i {
            assert(d[fw as int] != d[i as int]);
        }
    }
    i
}

impl RawProfile {
    /// Sets each tag record's offset and size to where serialising puts its data.
    /// The data area starts after the tag table; each data block follows the
    /// previous one, padded to a multiple of four.  When tag data is shared, a tag
    /// whose payload equals an earlier tag's takes that tag's offset and the
    /// negated size.  Fails with `ProfileTooLarge` when an offset or the total
    /// size would not fit in 32 bits or a tag in a signed 32-bit size.
    #[verifier::spinoff_prover]
    #[verifier::rlimit(80)]
    pub fn with_updated_tagrecord_offsets_and_sizes(self) -> (res: Result<Self, Error>)
        ensures
            res is Ok <==> layout_fits(datas(self@.entries), self@.shared),
            res matches Err(e) ==> e == Error::ProfileTooLarge(
                capped(next_offset(datas(self@.entries), self@.shared, self@.entries.len()), usize::MAX as nat) as usize,
            ),
            res matches Ok(p) ==> {
                &&& p@ == relaid(self@)
                &&& tag_table(p.tags).len() == tag_table(self.tags).len()
                &&& forall|j: int| 0 <= j < tag_table(p.tags).len() ==> #[trigger] tag_table(p.tags)[j].1.tag == tag_table(self.tags)[j].1.tag
            },
    {
        let ghost m = self@;
        let ghost d = datas(m.entries);
        let ghost t0 = tag_table(self.tags);
        let RawProfile { header, tags, shared_tags } = self;
        let mut tags = tags;
        let n = tag_map_len(&tags);
        let mut acc: u64 = match (n as u64).checked_mul(12) {
            Some(x) => x.saturating_add(132),
            None => u64::MAX,
        };
        let mut ok: bool = acc <= 0xFFFF_FFFF;
        let mut i: usize = 0;
        while i < n
            invariant
                i <= n,
                n == d.len(),
                n == t0.len(),
                d == datas(tag_models(t0)),
                shared_tags == m.shared,
                tag_table(tags).len() == n,
                forall|j: int| 0 <= j < n ==> (#[trigger] tag_table(tags)[j]).0 == t0[j].0 && tag_table(tags)[j].1.tag == t0[j].1.tag,
                acc == capped(next_offset(d, shared_tags, i as nat), u64::MAX as nat),
                ok == (acc <= u32::MAX && forall|j: int| 0 <= j < i ==> #[trigger] d[j].len() <= i32::MAX),
                ok ==> forall|j: int| 0 <= j < i ==> (#[trigger] tag_table(tags)[j]).1.offset == layout_offset(d, shared_tags, j)
                    && tag_table(tags)[j].1.size == layout_size(d, shared_tags, j),
            decreases n - i,
        {
            assert(datas(tag_models(tag_table(tags))) =~= d);
            let len = tag_map_get_index(&tags, i).1.tag.len();
            assert(len == d[i as int].len());
            let f = if shared_tags { first_same_payload(&tags, i) } else { i };
            proof {
                lemma_first_is_primary(d, shared_tags, i as int);
            }
            let primary = f == i;
            assert(primary == is_primary(d, shared_tags, i as int));
            if ok && len <= 0x7FFF_FFFF {
                let offset: u32 = if primary { acc as u32 } else { tag_map_get_index(&tags, f).1.offset };
                let size: i32 = if primary { len as i32 } else { -(len as i32) };
                let r = tag_map_value_mut(&mut tags, i);
                r.offset = offset;
                r.size = size;
            }
            if primary {
                let p = (len as u64).saturating_add(pad_size(len) as u64);
                acc = acc.saturating_add(p);
            }
            ok = ok && len <= 0x7FFF_FFFF && acc <= 0xFFFF_FFFF;
            i += 1;
        }
        if ok {
            let p = RawProfile { header, tags, shared_tags };
            assert(p@.entries =~= relaid(m).entries);
            Ok(p)
        } else {
            let total: usize = if acc > usize::MAX as u64 { usize::MAX } else { acc as usize };
            Err(Error::ProfileTooLarge(total))
        }
    }

    /// Serialises the profile: the header, the tag count, the tag table and the
    /// tag data, each data block padded to a multiple of four (see
    /// [`RawProfile::with_updated_tagrecord_offsets_and_sizes`]).  The size field
    /// receives the total length; a named-color-2 tag of a Lab profile has its
    /// PCS flag bit cleared again; the profile ID field receives the MD5 checksum
    /// when its last byte is non-zero, and is cleared otherwise.
    pub fn into_bytes(self) -> (res: Result<Vec<u8>, Error>)
        requires
            named_color2_writable(self@),
        ensures
            res is Ok <==> layout_fits(datas(self@.entries), self@.shared),
            res matches Ok(b) ==> b@ == serialize(self@),
            res matches Err(e) ==> e == Error::ProfileTooLarge(
                capped(next_offset(datas(self@.entries), self@.shared, self@.entries.len()), usize::MAX as nat) as usize,
            ),
    {
        let ghost m = self@;
        let ghost d = datas(m.entries);
        let q = match self.with_updated_tagrecord_offsets_and_sizes() {
            Ok(q) => q,
            Err(e) => return Err(e),
        };
        let n = tag_map_len(&q.tags);
        proof {
            lemma_next_offset_monotone(d, m.shared, 0, n as nat);
        }
        let mut buf: Vec<u8> = Vec::new();
        append_bytes(&mut buf, &q.header);
        append_bytes(&mut buf, &u32_to_be(n as u32));
        let mut i: usize = 0;
        while i < n
            invariant
                i <= n,
                n == m.entries.len(),
                q@ == relaid(m),
                d == datas(m.entries),
                layout_fits(d, m.shared),
                n == tag_table(q.tags).len(),
                buf@ == m.header + be_bytes_u32(n as u32) + table_bytes(m.entries, m.shared, i as nat),
            decreases n - i,
        {
            let (sig, rec) = tag_map_get_index(&q.tags, i);
            let ghost x = m.entries[i as int];
            assert(q@.entries[i as int] == entry_model(tag_table(q.tags)[i as int]));
            assert(x.sig == *sig);
            assert(d[i as int] == x.data);
            assert(rec.offset == layout_offset(d, m.shared, i as int) as u32);
            assert(rec.size == layout_size(d, m.shared, i as int) as i32);
            let size: u32 = if rec.size < 0 { (-rec.size) as u32 } else { rec.size as u32 };
            assert(size == x.data.len() as u32);
            let ghost before = buf@;
            append_bytes(&mut buf, &u32_to_be(sig.to_u32()));
            append_bytes(&mut buf, &u32_to_be(rec.offset));
            append_bytes(&mut buf, &u32_to_be(size));
            assert(buf@ =~= before + be_bytes_u32(x.sig.code()) + be_bytes_u32(layout_offset(d, m.shared, i as int) as u32) + be_bytes_u32(x.data.len() as u32));
            i += 1;
        }
        let lab = read_u32_be(&q.header, 20) == 0x4C616220;
        let ghost pre = buf@;
        let mut i: usize = 0;
        while i < n
            invariant
                i <= n,
                n == m.entries.len(),
                q@ == relaid(m),
                d == datas(m.entries),
                layout_fits(d, m.shared),
                named_color2_writable(m),
                lab == crate::profile::format::pcs_is_lab(m.header),
                n == tag_table(q.tags).len(),
                buf@ == pre + body_bytes(m.header, m.entries, m.shared, i as nat),
            decreases n - i,
        {
            let (sig, rec) = tag_map_get_index(&q.tags, i);
            let ghost x = m.entries[i as int];
            assert(q@.entries[i as int] == entry_model(tag_table(q.tags)[i as int]));
            assert(x.sig == *sig);
            assert(rec.tag.data.0@ == x.data);
            assert(d[i as int] == x.data);
            let write = if q.shared_tags { rec.size > 0 } else { true };
            assert(write == is_written(d, m.shared, i as int));
            if write {
                let data = rec.tag.as_slice();
                if *sig == TagSignature::NamedColor2 && lab {
                    assert(is_written(d, m.shared, i as int));
                    let mut v: Vec<u8> = Vec::new();
                    append_bytes(&mut v, data);
                    let b9 = v[9] & 0xFE;
                    v.set(9, b9);
                    assert(v@ == written_data(m.header, x));
                    append_bytes(&mut buf, v.as_slice());
                } else {
                    append_bytes(&mut buf, data);
                }
                append_zeros(&mut buf, pad_size(data.len()));
            } else {
                assert(!is_primary(d, m.shared, i as int) || x.data.len() == 0);
                assert(written_data(m.header, x) + zeros(spec_pad_size(x.data.len())) =~= Seq::<u8>::empty() || !is_primary(d, m.shared, i as int));
            }
            i += 1;
            assert(buf@ =~= pre + body_bytes(m.header, m.entries, m.shared, i as nat));
        }
        assert(buf@ =~= unsized_bytes(m));
        proof {
            lemma_table_len(m.entries, m.shared, n as nat);
            lemma_body_len(m.header, m.entries, m.shared, n as nat);
        }
        let ghost b0 = buf@;
        let total = u32_to_be(buf.len() as u32);
        buf.set(0, total[0]);
        buf.set(1, total[1]);
        buf.set(2, total[2]);
        buf.set(3, total[3]);
        assert(buf@ =~= splice(b0, 0, be_bytes_u32(b0.len() as u32)));
        let ghost b1 = buf@;
        assert(b1[99] == m.header[99]);
        if buf[99] > 0 {
            set_profile_id(buf.as_mut_slice());
        } else {
            let mut k: usize = 84;
            while k < 100
                invariant
                    84 <= k <= 100,
                    buf@.len() == b1.len(),
                    b1.len() >= 132,
                    forall|j: int| 0 <= j < b1.len() && !(84 <= j < k) ==> buf@[j] == b1[j],
                    forall|j: int| 84 <= j < k ==> buf@[j] == 0,
                decreases 100 - k,
            {
                buf.set(k, 0);
                k += 1;
            }
            assert(buf@ =~= splice(b1, 84, zero_id()));
        }
        Ok(buf)
    }

    /// Serialises the profile (see [`RawProfile::into_bytes`]) and reads the
    /// bytes as text, replacing what is not UTF-8; for debugging only.
    pub fn into_string(self) -> (res: Result<String, Error>)
        requires
            named_color2_writable(self@),
        ensures
            res is Ok <==> layout_fits(datas(self@.entries), self@.shared),
            res matches Ok(s) ==> s@ == crate::text::utf8_lossy(serialize(self@)),
            res matches Err(e) ==> e == Error::ProfileTooLarge(
                capped(next_offset(datas(self@.entries), self@.shared, self@.entries.len()), usize::MAX as nat) as usize,
            ),
    {
        let bytes = self.into_bytes()?;
        Ok(crate::text::decode_utf8_lossy(bytes.as_slice()))
    }

    /// Whether identical tag data is written once and shared when serialising.
    pub fn uses_shared_tags(&self) -> (b: bool)
        ensures
            b == self.shared_tags,
    {
        self.shared_tags
    }

    /// The tag map, keyed by tag signature, in table order.
    pub fn tags(&self) -> (t: &TagMap)
        ensures
            *t == self.tags,
    {
        &self.tags
    }

    /// The tag map, for changing the tags in place.
    pub fn tags_mut(&mut self) -> (t: &mut TagMap)
        ensures
            *t == old(self).tags,
            final(self).tags == *final(t),
            final(self).header == old(self).header,
            final(self).shared_tags == old(self).shared_tags,
    {
        &mut self.tags
    }

    /// Reads an ICC profile from its bytes.  Fails with `InvalidICCProfile` unless
    /// the bytes hold the header with the `acsp` signature, the tag count, the whole
    /// tag table, and every tag's data, and also when a named-color-2 tag of a Lab
    /// profile is shorter than its 12-byte flag field.  Each record's tag carries
    /// the signature of its table entry.  Tags are kept in table order; a signature
    /// that occurs twice keeps its first place and takes the later data.  Tag data
    /// is shared on writing when two entries share an offset.
    pub fn from_bytes(bytes: &[u8]) -> (res: Result<Self, Error>)
        ensures
            res is Ok <==> parse_accepts(bytes@) && !has_short_named_color2(bytes@),
            res matches Err(e) ==> e == Error::InvalidICCProfile,
            res matches Ok(p) ==> {
                &&& p@.header == bytes@.subrange(0, 128)
                &&& p@.entries == parsed_entries(bytes@, tag_count(bytes@) as nat)
                &&& p@.shared == has_duplicate_offsets(bytes@)
                &&& keys_distinct(tag_table(p.tags))
                &&& forall|k: int|
                    0 <= k < tag_table(p.tags).len() ==> #[trigger] tag_table(p.tags)[k].1.tag.signature
                        == tag_table(p.tags)[k].0
            },
    {
        if bytes.len() < 132 {
            return Err(Error::InvalidICCProfile);
        }
        let mut header = [0u8; 128];
        let mut k: usize = 0;
        while k < 128
            invariant
                k <= 128,
                bytes@.len() >= 132,
                forall|j: int| 0 <= j < k ==> header@[j] == bytes@[j],
            decreases 128 - k,
        {
            header[k] = bytes[k];
            k += 1;
        }
        assert(header@ =~= bytes@.subrange(0, 128));
        if read_u32_be(bytes, 36) != 0x61637370 {
            return Err(Error::InvalidICCProfile);
        }
        let count = read_u32_be(bytes, 128) as usize;
        if count > (bytes.len() - 132) / 12 {
            return Err(Error::InvalidICCProfile);
        }
        let lab = read_u32_be(bytes, 20) == 0x4C616220;
        let shared_tags = share_tags(bytes, count);
        let mut tags = tag_map_new();
        let mut i: usize = 0;
        let len = bytes.len();
        while i < count
            invariant
                i <= count,
                len == bytes@.len(),
                table_fits(bytes@),
                count == tag_count(bytes@),
                be_u32_at(bytes@, 36) == acsp(),
                lab == pcs_is_lab(bytes@),
                forall|j: int| 0 <= j < i ==> #[trigger] entry_in_bounds(bytes@, j),
                forall|j: int| 0 <= j < i ==> !#[trigger] short_ncl2_at(bytes@, j),
                tag_models(tag_table(tags)) == parsed_entries(bytes@, i as nat),
                keys_distinct(tag_table(tags)),
                forall|k: int|
                    0 <= k < tag_table(tags).len() ==> #[trigger] tag_table(tags)[k].1.tag.signature
                        == tag_table(tags)[k].0,
            decreases count - i,
        {
            let base = 132 + 12 * i;
            let sig = read_u32_be(bytes, base);
            let offset = read_u32_be(bytes, base + 4);
            let size = read_u32_be(bytes, base + 8);
            if offset as u64 + size as u64 > bytes.len() as u64 {
                assert(!entry_in_bounds(bytes@, i as int));
                return Err(Error::InvalidICCProfile);
            }
            assert(entry_in_bounds(bytes@, i as int));
            let mut data = copy_range(bytes, offset as usize, size as usize);
            if sig == 0x6E636C32 && lab && size < 12 {
                assert(short_ncl2_at(bytes@, i as int));
                assert(forall|j: int| 0 <= j <= i ==> #[trigger] entry_in_bounds(bytes@, j));
                return Err(Error::InvalidICCProfile);
            }
            if sig == 0x6E636C32 && lab {
                let flag = data[9] | 1;
                data.set(9, flag);
            }
            assert(data@ == entry_data(bytes@, i as int));
            let key = TagSignature::new(sig);
            let record = ProfileTagRecord { offset, size: #[verifier::truncate] (size as i32), tag: Tag::new(sig, TagData::new(data)) };
            assert(entry_model((key, record)) == parsed_entry(bytes@, i as int));
            proof {
                lemma_insert_models(tag_table(tags), key, record);
            }
            tag_map_insert(&mut tags, key, record);
            i += 1;
        }
        assert(!has_short_named_color2(bytes@)) by {
            if has_short_named_color2(bytes@) {
                let w = choose|w: int| 0 <= w < tag_count(bytes@) && #[trigger] short_ncl2_at(bytes@, w)
                    && (forall|j: int| 0 <= j <= w ==> #[trigger] entry_in_bounds(bytes@, j));
                assert(!short_ncl2_at(bytes@, w));
            }
        }
        Ok(RawProfile { header, tags, shared_tags })
    }

    /// Whether [`RawProfile::from_bytes`] would meet a named-color-2 tag shorter
    /// than its 12-byte flag field in a Lab profile, before any entry that points
    /// outside the bytes; `from_bytes` answers such input with `InvalidICCProfile`.
    pub fn has_short_named_color2(bytes: &[u8]) -> (b: bool)
        ensures
            b == has_short_named_color2(bytes@),
    {
        if bytes.len() < 132 || read_u32_be(bytes, 36) != 0x61637370 {
            return false;
        }
        let count = read_u32_be(bytes, 128) as usize;
        if count > (bytes.len() - 132) / 12 {
            return false;
        }
        let lab = read_u32_be(bytes, 20) == 0x4C616220;
        let mut i: usize = 0;
        let len = bytes.len();
        while i < count
            invariant
                i <= count,
                len == bytes@.len(),
                table_fits(bytes@),
                count == tag_count(bytes@),
                be_u32_at(bytes@, 36) == acsp(),
                lab == pcs_is_lab(bytes@),
                forall|j: int| 0 <= j < i ==> #[trigger] entry_in_bounds(bytes@, j),
                forall|j: int| 0 <= j < i ==> !#[trigger] short_ncl2_at(bytes@, j),
            decreases count - i,
        {
            let base = 132 + 12 * i;
            let sig = read_u32_be(bytes, base);
            let offset = read_u32_be(bytes, base + 4);
            let size = read_u32_be(bytes, base + 8);
            if offset as u64 + size as u64 > bytes.len() as u64 {
                assert(!has_short_named_color2(bytes@)) by {
                    if has_short_named_color2(bytes@) {
                        let w = choose|w: int| 0 <= w < tag_count(bytes@) && #[trigger] short_ncl2_at(bytes@, w)
                            && (forall|j: int| 0 <= j <= w ==> #[trigger] entry_in_bounds(bytes@, j));
                        if w >= i {
                            assert(entry_in_bounds(bytes@, i as int));
                        }
                    }
                }
                return false;
            }
            if sig == 0x6E636C32 && lab && size < 12 {
                assert(short_ncl2_at(bytes@, i as int));
                assert(forall|j: int| 0 <= j <= i ==> #[trigger] entry_in_bounds(bytes@, j));
                return true;
            }
            i += 1;
        }
        assert(!has_short_named_color2(bytes@)) by {
            if has_short_named_color2(bytes@) {
                let w = choose|w: int| 0 <= w < tag_count(bytes@) && #[trigger] short_ncl2_at(bytes@, w)
                    && (forall|j: int| 0 <= j <= w ==> #[trigger] entry_in_bounds(bytes@, j));
                assert(!short_ncl2_at(bytes@, w));
            }
        }
        false
    }
}

} // verus!
