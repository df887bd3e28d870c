//! Reading what was written: the laws that tie serialising a profile to
//! reading the bytes back.

use vstd::prelude::*;

use crate::bytes::{be_bytes_u32, be_u32_at, lemma_be_u32_roundtrip};
use crate::header::{acsp, splice};
use crate::profile::checksum::{id_zeroed, md5_id, zero_id};
use crate::profile::format::{
    has_duplicate_offsets, entry_data, entry_in_bounds, entry_offset, entry_sig, entry_size, has_short_named_color2,
    model_has_key, model_insert, ncl2_code, parse_accepts, parsed_entries, parsed_entry, pcs_is_lab,
    short_ncl2_at, sigs_distinct, table_fits, tag_count,
};
use crate::profile::layout::{
    body_bytes, data_start, datas, first_with, is_primary, layout_fits, layout_offset,
    lemma_body_len, lemma_first_is_primary, lemma_first_with, lemma_next_offset_monotone,
    lemma_table_len, next_offset, padded, relaid, serialize, table_bytes, unsized_bytes, written_data,
    zeros,
};
use crate::profile::{EntryModel, ProfileModel};
use crate::spec_pad_size;
use crate::tag::TagSignature;

verus! {

/// The twelve tag-table bytes written for entry `i`: signature, offset, size.
pub open spec fn table_entry(e: Seq<EntryModel>, shared: bool, i: int) -> Seq<u8> {
    be_bytes_u32(e[i].sig.code()) + be_bytes_u32(layout_offset(datas(e), shared, i) as u32)
        + be_bytes_u32(e[i].data.len() as u32)
}

/// Byte `12 * i + j` of the table is byte `j` of entry `i`'s table entry.
proof fn lemma_table_index(e: Seq<EntryModel>, shared: bool, k: nat, i: int, j: int)
    requires
        0 <= i < k,
        0 <= j < 12,
    ensures
        table_bytes(e, shared, k)[12 * i + j] == table_entry(e, shared, i)[j],
    decreases k,
{
    lemma_table_len(e, shared, (k - 1) as nat);
    if i < k - 1 {
        lemma_table_index(e, shared, (k - 1) as nat, i, j);
    }
}

/// A block of its own holds the written data of its entry, at its offset
/// within the data area.
proof fn lemma_body_index(h: Seq<u8>, e: Seq<EntryModel>, shared: bool, k: nat, i: int, j: int)
    requires
        k <= e.len(),
        0 <= i < k,
        is_primary(datas(e), shared, i),
        0 <= j < e[i].data.len(),
    ensures
        body_bytes(h, e, shared, k)[next_offset(datas(e), shared, i as nat) - data_start(e.len()) + j]
            == written_data(h, e[i])[j],
    decreases k,
{
    let d = datas(e);
    let prev = body_bytes(h, e, shared, (k - 1) as nat);
    let p = next_offset(d, shared, i as nat) - data_start(e.len()) + j;
    lemma_body_len(h, e, shared, (k - 1) as nat);
    lemma_next_offset_monotone(d, shared, 0, i as nat);
    assert(written_data(h, e[i]).len() == e[i].data.len());
    assert(d[i] == e[i].data);
    if i < k - 1 {
        lemma_body_index(h, e, shared, (k - 1) as nat, i, j);
        lemma_next_offset_monotone(d, shared, (i + 1) as nat, (k - 1) as nat);
        assert(next_offset(d, shared, (i + 1) as nat) == next_offset(d, shared, i as nat) + padded(
            d[i].len(),
        ));
        assert(p < prev.len());
        let last = if is_primary(d, shared, k - 1) {
            written_data(h, e[k - 1]) + zeros(spec_pad_size(e[k - 1].data.len()))
        } else {
            Seq::<u8>::empty()
        };
        assert(body_bytes(h, e, shared, k) == prev + last);
        assert((prev + last)[p] == prev[p]);
    } else {
        let block = written_data(h, e[i]) + zeros(spec_pad_size(e[i].data.len()));
        assert(body_bytes(h, e, shared, k) == prev + block);
        assert(p == prev.len() + j);
        assert(block[j] == written_data(h, e[i])[j]);
    }
}

/// The bytes of a serialised profile outside the size and ID fields are those
/// of the unsized serialisation, and its length is the end of the data area.
proof fn lemma_serialized(m: ProfileModel)
    requires
        m.header.len() == 128,
        layout_fits(datas(m.entries), m.shared),
    ensures
        unsized_bytes(m).len() == next_offset(datas(m.entries), m.shared, m.entries.len()),
        serialize(m).len() == unsized_bytes(m).len(),
        forall|x: int|
            0 <= x < serialize(m).len() && !(0 <= x < 4) && !(84 <= x < 100) ==> #[trigger] serialize(
                m,
            )[x] == unsized_bytes(m)[x],
        serialize(m).subrange(0, 4) == be_bytes_u32(serialize(m).len() as u32),
{
    let n = m.entries.len();
    let d = datas(m.entries);
    lemma_table_len(m.entries, m.shared, n);
    lemma_body_len(m.header, m.entries, m.shared, n);
    lemma_next_offset_monotone(d, m.shared, 0, n);
    let b0 = unsized_bytes(m);
    let b1 = splice(b0, 0, be_bytes_u32(b0.len() as u32));
    assert(b1.len() == b0.len());
    let id = if m.header[99] > 0 {
        md5_id(id_zeroed(b1))
    } else {
        zero_id()
    };
    assert(id.len() == 16);
    assert(serialize(m) == splice(b1, 84, id));
    assert(serialize(m).subrange(0, 4) =~= be_bytes_u32(serialize(m).len() as u32));
}

/// The bytes of the unsized serialisation, region by region.
proof fn lemma_unsized_regions(m: ProfileModel)
    requires
        m.header.len() == 128,
    ensures
        forall|x: int| 0 <= x < 128 ==> #[trigger] unsized_bytes(m)[x] == m.header[x],
        forall|x: int|
            128 <= x < 132 ==> #[trigger] unsized_bytes(m)[x] == be_bytes_u32(
                m.entries.len() as u32,
            )[x - 128],
        forall|x: int|
            132 <= x < data_start(m.entries.len()) ==> #[trigger] unsized_bytes(m)[x]
                == table_bytes(m.entries, m.shared, m.entries.len())[x - 132],
        forall|x: int|
            data_start(m.entries.len()) <= x < unsized_bytes(m).len() ==> #[trigger] unsized_bytes(
                m,
            )[x] == body_bytes(m.header, m.entries, m.shared, m.entries.len())[x - data_start(
                m.entries.len(),
            )],
{
    let n = m.entries.len();
    lemma_table_len(m.entries, m.shared, n);
    assert(be_bytes_u32(n as u32).len() == 4);
}

/// No two entries have signatures with the same four-byte code.
pub open spec fn codes_distinct(s: Seq<EntryModel>) -> bool {
    forall|i: int, j: int|
        0 <= i < s.len() && 0 <= j < s.len() && i != j ==> #[trigger] s[i].sig.code() != #[trigger] s[j].sig.code()
}

/// In a Lab profile only the named signature holds the named-color-2 code: an
/// `Unknown` signature with that code is written without clearing the PCS bit,
/// but read back as a named-color-2 tag.
pub open spec fn ncl2_code_named(m: ProfileModel) -> bool {
    forall|i: int|
        0 <= i < m.entries.len() && pcs_is_lab(m.header) && (#[trigger] m.entries[i]).sig.code() == ncl2_code()
            ==> m.entries[i].sig == TagSignature::NamedColor2
}

/// A signature decodes from a code as the named-color-2 signature exactly for
/// the named-color-2 code.
proof fn lemma_from_code_ncl2(c: u32)
    ensures
        (TagSignature::from_code(c) == TagSignature::NamedColor2) == (c == ncl2_code()),
{
    TagSignature::lemma_code_of_from_code(c);
    assert(TagSignature::NamedColor2.code() == ncl2_code());
}

/// Named-color-2 tags of a Lab profile hold their 12-byte flag field with the
/// PCS bit set (as reading leaves them), and, when tag data is shared and such
/// a tag is the first with its payload, no later tag has the same payload (the
/// block is written with the bit cleared).
pub open spec fn named_color2_normal(m: ProfileModel) -> bool {
    forall|i: int|
        0 <= i < m.entries.len() && (#[trigger] m.entries[i]).sig == TagSignature::NamedColor2
            && pcs_is_lab(m.header) ==> {
            &&& m.entries[i].data.len() >= 12
            &&& m.entries[i].data[9] & 1u8 == 1u8
            &&& (m.shared && first_with(datas(m.entries), m.entries[i].data, i as nat) == i) ==> forall|
                j: int,
            |
                i < j < m.entries.len() ==> (#[trigger] m.entries[j]).data != m.entries[i].data
        }
}

/// The profiles for which reading back what was written is stated: a 128-byte
/// header with the `acsp` signature, a layout that fits, signatures with
/// distinct codes, the named-color-2 code held only by its named signature in a
/// Lab profile, and named-color-2 tags as reading leaves them.
pub open spec fn writable_and_readable(m: ProfileModel) -> bool {
    &&& m.header.len() == 128
    &&& be_u32_at(m.header, 36) == acsp()
    &&& layout_fits(datas(m.entries), m.shared)
    &&& codes_distinct(m.entries)
    &&& ncl2_code_named(m)
    &&& named_color2_normal(m)
}

/// The tag-map entries that reading a serialised profile gives: the signatures
/// that their codes stand for, the same payloads, with the offsets where they were written and the
/// payload lengths as sizes.
pub open spec fn read_back(m: ProfileModel) -> Seq<EntryModel> {
    Seq::new(
        m.entries.len(),
        |i: int|
            EntryModel {
                sig: TagSignature::from_code(m.entries[i].sig.code()),
                offset: layout_offset(datas(m.entries), m.shared, i) as u32,
                size: m.entries[i].data.len() as i32,
                data: m.entries[i].data,
            },
    )
}

/// Reading entry `i` of a serialised profile.
#[verifier::rlimit(80)]
proof fn lemma_entry_read_back(m: ProfileModel, i: int)
    requires
        writable_and_readable(m),
        0 <= i < m.entries.len(),
    ensures
        entry_in_bounds(serialize(m), i),
        !short_ncl2_at(serialize(m), i),
        parsed_entry(serialize(m), i) == read_back(m)[i],
{
    let n = m.entries.len();
    let e = m.entries;
    let d = datas(e);
    let b = serialize(m);
    let u = unsized_bytes(m);
    let ds = data_start(n);
    lemma_serialized(m);
    lemma_unsized_regions(m);
    lemma_next_offset_monotone(d, m.shared, 0, n);
    // table entry
    assert forall|t: int| 0 <= t < 12 implies b[132 + 12 * i + t] == table_entry(e, m.shared, i)[t] by {
        lemma_table_index(e, m.shared, n, i, t);
    }
    let te = table_entry(e, m.shared, i);
    lemma_be_u32_roundtrip(e[i].sig.code());
    lemma_be_u32_roundtrip(layout_offset(d, m.shared, i) as u32);
    lemma_be_u32_roundtrip(e[i].data.len() as u32);
    assert(entry_sig(b, i) == e[i].sig.code()) by {
        assert(te[0] == b[132 + 12 * i]);
        assert(te[1] == b[132 + 12 * i + 1]);
        assert(te[2] == b[132 + 12 * i + 2]);
        assert(te[3] == b[132 + 12 * i + 3]);
    }
    assert(entry_offset(b, i) == layout_offset(d, m.shared, i) as u32) by {
        assert(te[4] == b[132 + 12 * i + 4]);
        assert(te[5] == b[132 + 12 * i + 5]);
        assert(te[6] == b[132 + 12 * i + 6]);
        assert(te[7] == b[132 + 12 * i + 7]);
    }
    assert(entry_size(b, i) == e[i].data.len() as u32) by {
        assert(te[8] == b[132 + 12 * i + 8]);
        assert(te[9] == b[132 + 12 * i + 9]);
        assert(te[10] == b[132 + 12 * i + 10]);
        assert(te[11] == b[132 + 12 * i + 11]);
    }
    assert(d[i] == e[i].data);
    assert(e[i].data.len() <= i32::MAX);
    // the block that holds the data
    lemma_first_is_primary(d, m.shared, i);
    let f: int = if is_primary(d, m.shared, i) {
        i
    } else {
        first_with(d, d[i], i as nat) as int
    };
    lemma_first_with(d, d[i], i as nat);
    assert(is_primary(d, m.shared, f));
    assert(d[f] == d[i]);
    assert(layout_offset(d, m.shared, i) == next_offset(d, m.shared, f as nat));
    let off = next_offset(d, m.shared, f as nat);
    lemma_next_offset_monotone(d, m.shared, (f + 1) as nat, n);
    lemma_next_offset_monotone(d, m.shared, 0, f as nat);
    assert(off + e[i].data.len() <= next_offset(d, m.shared, n));
    assert(entry_in_bounds(b, i));
    let raw = b.subrange(off as int, (off + e[i].data.len()) as int);
    assert forall|j: int| 0 <= j < e[i].data.len() implies raw[j] == written_data(m.header, e[f])[j] by {
        lemma_body_index(m.header, e, m.shared, n, f, j);
    }
    assert(written_data(m.header, e[f]).len() == e[i].data.len());
    assert(raw =~= written_data(m.header, e[f]));
    // the PCS field is the header's
    assert(pcs_is_lab(b) == pcs_is_lab(m.header)) by {
        assert(b[20] == m.header[20]);
        assert(b[21] == m.header[21]);
        assert(b[22] == m.header[22]);
        assert(b[23] == m.header[23]);
    }
    assert(TagSignature::NamedColor2.code() == ncl2_code());
    assert(pcs_is_lab(m.header) ==> ((entry_sig(b, i) == ncl2_code()) == (e[i].sig == TagSignature::NamedColor2)));
    if e[i].sig == TagSignature::NamedColor2 && pcs_is_lab(m.header) {
        assert(e[i].data.len() >= 12);
        let x = e[i].data[9];
        assert(x & 1u8 == 1u8);
        assert((x & 0xFEu8) | 1u8 == x) by (bit_vector)
            requires
                x & 1u8 == 1u8,
        ;
        assert((x | 1u8) == x) by (bit_vector)
            requires
                x & 1u8 == 1u8,
        ;
        if f != i {
            assert(e[f].sig.code() != e[i].sig.code());
            assert(written_data(m.header, e[f]) == e[i].data);
        }
        assert(entry_data(b, i) =~= e[i].data);
    } else {
        if e[f].sig == TagSignature::NamedColor2 && pcs_is_lab(m.header) {
            assert(f != i);
            assert(f < i);
            assert(m.shared);
            lemma_first_with(d, d[f], f as nat);
            assert(first_with(d, e[f].data, f as nat) == f);
            assert(e[i].data != e[f].data);
        }
        assert(entry_data(b, i) =~= e[i].data);
    }
}

/// With distinct signatures, reading the table inserts every entry at the end.
proof fn lemma_parsed_entries_in_order(b: Seq<u8>, k: nat)
    requires
        forall|i: int, j: int|
            0 <= i < k && 0 <= j < k && i != j ==> parsed_entry(b, i).sig != parsed_entry(b, j).sig,
    ensures
        parsed_entries(b, k) == Seq::new(k, |i: int| parsed_entry(b, i)),
    decreases k,
{
    if k > 0 {
        lemma_parsed_entries_in_order(b, (k - 1) as nat);
        let s = parsed_entries(b, (k - 1) as nat);
        let x = parsed_entry(b, k - 1);
        assert(!model_has_key(s, x.sig)) by {
            if model_has_key(s, x.sig) {
                let w = choose|w: int| 0 <= w < s.len() && s[w].sig == x.sig;
                assert(s[w] == parsed_entry(b, w));
            }
        }
        assert(parsed_entries(b, k) =~= Seq::new(k, |i: int| parsed_entry(b, i)));
    }
}

/// Reading a serialised profile accepts it and gives back its header (but for
/// the size field, which holds the total length, and the profile ID field) and
/// its tags, in order, with the offsets they were written at, each under the
/// signature that its code stands for.
#[verifier::rlimit(80)]
pub proof fn law_read_after_write(m: ProfileModel)
    requires
        writable_and_readable(m),
    ensures
        parse_accepts(serialize(m)),
        !has_short_named_color2(serialize(m)),
        tag_count(serialize(m)) == m.entries.len(),
        serialize(m).len() == next_offset(datas(m.entries), m.shared, m.entries.len()),
        serialize(m).subrange(0, 128) == splice(
            splice(m.header, 0, be_bytes_u32(serialize(m).len() as u32)),
            84,
            serialize(m).subrange(84, 100),
        ),
        parsed_entries(serialize(m), tag_count(serialize(m)) as nat) == read_back(m),
{
    let n = m.entries.len();
    let b = serialize(m);
    let d = datas(m.entries);
    lemma_serialized(m);
    lemma_unsized_regions(m);
    lemma_next_offset_monotone(d, m.shared, 0, n);
    lemma_be_u32_roundtrip(n as u32);
    assert(tag_count(b) == n) by {
        assert(b[128] == be_bytes_u32(n as u32)[0]);
        assert(b[129] == be_bytes_u32(n as u32)[1]);
        assert(b[130] == be_bytes_u32(n as u32)[2]);
        assert(b[131] == be_bytes_u32(n as u32)[3]);
    }
    assert(be_u32_at(b, 36) == acsp()) by {
        assert(b[36] == m.header[36]);
        assert(b[37] == m.header[37]);
        assert(b[38] == m.header[38]);
        assert(b[39] == m.header[39]);
    }
    assert(table_fits(b));
    assert forall|i: int| 0 <= i < tag_count(b) implies #[trigger] entry_in_bounds(b, i) by {
        lemma_entry_read_back(m, i);
    }
    assert(!has_short_named_color2(b)) by {
        if has_short_named_color2(b) {
            let w = choose|w: int|
                0 <= w < tag_count(b) && #[trigger] short_ncl2_at(b, w) && (forall|j: int|
                    0 <= j <= w ==> #[trigger] entry_in_bounds(b, j));
            lemma_entry_read_back(m, w);
        }
    }
    assert forall|i: int, j: int|
        0 <= i < n && 0 <= j < n && i != j implies parsed_entry(b, i).sig != parsed_entry(
        b,
        j,
    ).sig by {
        lemma_entry_read_back(m, i);
        lemma_entry_read_back(m, j);
        TagSignature::lemma_code_of_from_code(m.entries[i].sig.code());
        TagSignature::lemma_code_of_from_code(m.entries[j].sig.code());
    }
    lemma_parsed_entries_in_order(b, n);
    assert forall|i: int| 0 <= i < n implies parsed_entries(b, n)[i] == read_back(m)[i] by {
        lemma_entry_read_back(m, i);
    }
    assert(parsed_entries(b, n) =~= read_back(m));
    let hb = splice(splice(m.header, 0, be_bytes_u32(b.len() as u32)), 84, b.subrange(84, 100));
    assert forall|x: int| 0 <= x < 128 implies b.subrange(0, 128)[x] == hb[x] by {
        if x < 4 {
            assert(b.subrange(0, 4)[x] == b[x]);
        }
    }
    assert(b.subrange(0, 128) =~= hb);
}

/// Two ways of assigning data blocks lay the payloads out alike: where they
/// differ on whether an entry gets a block of its own, its payload is empty and
/// the first entry with that payload starts where it does.
pub open spec fn blocks_agree(d: Seq<Seq<u8>>, s1: bool, s2: bool) -> bool {
    forall|i: int|
        0 <= i < d.len() && #[trigger] is_primary(d, s1, i) != is_primary(d, s2, i) ==> d[i].len() == 0
            && next_offset(d, s1, first_with(d, d[i], i as nat)) == next_offset(d, s1, i as nat)
}

/// Where the block assignments differ only on empty payloads, the blocks end
/// at the same offsets.
proof fn lemma_next_offsets_agree(d: Seq<Seq<u8>>, s1: bool, s2: bool, k: nat)
    requires
        k <= d.len(),
        forall|i: int|
            0 <= i < d.len() && #[trigger] is_primary(d, s1, i) != is_primary(d, s2, i) ==> d[i].len() == 0,
    ensures
        next_offset(d, s1, k) == next_offset(d, s2, k),
    decreases k,
{
    if k > 0 {
        lemma_next_offsets_agree(d, s1, s2, (k - 1) as nat);
        let i = k - 1;
        if is_primary(d, s1, i) != is_primary(d, s2, i) {
            assert(d[i].len() == 0);
            assert(padded(0) == 0);
        }
    }
}

/// Block assignments that agree give the same offsets.
proof fn lemma_layout_agrees(d: Seq<Seq<u8>>, s1: bool, s2: bool, k: nat)
    requires
        k <= d.len(),
        blocks_agree(d, s1, s2),
    ensures
        next_offset(d, s1, k) == next_offset(d, s2, k),
        forall|i: int| 0 <= i < k ==> layout_offset(d, s1, i) == layout_offset(d, s2, i),
{
    lemma_next_offsets_agree(d, s1, s2, k);
    assert forall|i: int| 0 <= i < k implies layout_offset(d, s1, i) == layout_offset(d, s2, i) by {
        lemma_first_with(d, d[i], i as nat);
        let f = first_with(d, d[i], i as nat);
        lemma_next_offsets_agree(d, s1, s2, i as nat);
        lemma_next_offsets_agree(d, s1, s2, f);
    }
}

/// Equal signatures, payloads, PCS and block assignment give equal tables and
/// data areas.
proof fn lemma_serialisations_agree(
    h1: Seq<u8>,
    h2: Seq<u8>,
    e1: Seq<EntryModel>,
    e2: Seq<EntryModel>,
    s1: bool,
    s2: bool,
    k: nat,
)
    requires
        k <= e1.len(),
        e1.len() == e2.len(),
        pcs_is_lab(h1) == pcs_is_lab(h2),
        forall|i: int|
            0 <= i < e1.len() ==> (#[trigger] e1[i]).sig.code() == e2[i].sig.code() && e1[i].data == e2[i].data
                && written_data(h1, e1[i]) == written_data(h2, e2[i]),
        blocks_agree(datas(e1), s1, s2),
    ensures
        table_bytes(e1, s1, k) == table_bytes(e2, s2, k),
        body_bytes(h1, e1, s1, k) == body_bytes(h2, e2, s2, k),
    decreases k,
{
    assert(datas(e1) =~= datas(e2));
    if k > 0 {
        lemma_serialisations_agree(h1, h2, e1, e2, s1, s2, (k - 1) as nat);
        lemma_layout_agrees(datas(e1), s1, s2, k);
        let i = k - 1;
        assert(e1[i].sig.code() == e2[i].sig.code() && e1[i].data == e2[i].data);
        assert(written_data(h1, e1[i]) == written_data(h2, e2[i]));
        if is_primary(datas(e1), s1, i) != is_primary(datas(e1), s2, i) {
            assert(datas(e1)[i].len() == 0);
            assert(written_data(h1, e1[i]) + zeros(spec_pad_size(e1[i].data.len())) =~= Seq::<u8>::empty());
        }
    }
}

/// Without sharing, a block with a non-empty payload ends before every later
/// block starts.
proof fn lemma_offsets_increase(d: Seq<Seq<u8>>, a: nat, b: nat)
    requires
        a < b <= d.len(),
        d[a as int].len() > 0,
    ensures
        next_offset(d, false, a) < next_offset(d, false, b),
    decreases b - a,
{
    lemma_next_offset_monotone(d, false, (a + 1) as nat, b);
}

/// Every tag whose payload equals an earlier tag's has an empty payload, and no
/// data block lies between it and the first tag with that payload.
pub open spec fn duplicates_empty_in_place(m: ProfileModel) -> bool {
    forall|i: int|
        0 <= i < m.entries.len() && first_with(datas(m.entries), m.entries[i].data, i as nat) < i ==> (
        #[trigger] m.entries[i]).data.len() == 0 && next_offset(
            datas(m.entries),
            false,
            first_with(datas(m.entries), m.entries[i].data, i as nat),
        ) == next_offset(datas(m.entries), false, i as nat)
}

/// No payload but possibly the last one is empty.
pub open spec fn no_empty_before_last(m: ProfileModel) -> bool {
    forall|k: int| 0 <= k < m.entries.len() - 1 ==> (#[trigger] m.entries[k]).data.len() > 0
}

/// What reading a serialised profile gives, as a profile model.
pub open spec fn reread(m: ProfileModel) -> ProfileModel {
    let b = serialize(m);
    ProfileModel {
        header: b.subrange(0, 128),
        entries: parsed_entries(b, tag_count(b) as nat),
        shared: has_duplicate_offsets(b),
    }
}

/// Two profiles whose headers differ at most in the size and ID fields, that
/// both do or both do not request a profile ID, and whose tags have the same
/// signature codes and payloads, written alike and laid out alike, serialise to
/// the same bytes.
#[verifier::rlimit(40)]
proof fn lemma_serialize_agrees(m1: ProfileModel, m2: ProfileModel)
    requires
        m1.header.len() == 128,
        m2.header.len() == 128,
        forall|x: int| 0 <= x < 128 && !(0 <= x < 4) && !(84 <= x < 100) ==> #[trigger] m1.header[x] == m2.header[x],
        (m1.header[99] > 0) == (m2.header[99] > 0) || (m2.header[99] == 0 && serialize(m1).subrange(84, 100)
            == zero_id()),
        m1.entries.len() == m2.entries.len(),
        forall|i: int|
            0 <= i < m1.entries.len() ==> (#[trigger] m1.entries[i]).sig.code() == m2.entries[i].sig.code()
                && m1.entries[i].data == m2.entries[i].data && written_data(m1.header, m1.entries[i]) == written_data(
                m2.header,
                m2.entries[i],
            ),
        blocks_agree(datas(m1.entries), m1.shared, m2.shared),
        layout_fits(datas(m1.entries), m1.shared),
    ensures
        serialize(m1) == serialize(m2),
{
    let n = m1.entries.len();
    let (h1, h2) = (m1.header, m2.header);
    assert(pcs_is_lab(h1) == pcs_is_lab(h2)) by {
        assert(h1[20] == h2[20]);
        assert(h1[21] == h2[21]);
        assert(h1[22] == h2[22]);
        assert(h1[23] == h2[23]);
    }
    lemma_serialisations_agree(h1, h2, m1.entries, m2.entries, m1.shared, m2.shared, n);
    assert(datas(m1.entries) =~= datas(m2.entries));
    lemma_layout_agrees(datas(m1.entries), m1.shared, m2.shared, n);
    lemma_table_len(m1.entries, m1.shared, n);
    lemma_body_len(h1, m1.entries, m1.shared, n);
    lemma_body_len(h2, m2.entries, m2.shared, n);
    let u1 = unsized_bytes(m1);
    let u2 = unsized_bytes(m2);
    assert(u1.len() == u2.len());
    let b1 = splice(u1, 0, be_bytes_u32(u1.len() as u32));
    let b2 = splice(u2, 0, be_bytes_u32(u2.len() as u32));
    lemma_unsized_regions(m1);
    lemma_unsized_regions(m2);
    assert forall|x: int| 0 <= x < b1.len() && !(84 <= x < 100) implies b1[x] == b2[x] by {
        if x >= 128 {
            assert(u1[x] == u2[x]);
        }
    }
    assert(id_zeroed(b1) =~= id_zeroed(b2));
    let id1 = if h1[99] > 0 { md5_id(id_zeroed(b1)) } else { zero_id() };
    let id2 = if h2[99] > 0 { md5_id(id_zeroed(b2)) } else { zero_id() };
    assert(serialize(m1) == splice(b1, 84, id1));
    assert(serialize(m2) == splice(b2, 84, id2));
    assert(id1.len() == 16 && id2.len() == 16);
    if (h1[99] > 0) != (h2[99] > 0) {
        assert(serialize(m1).subrange(84, 100) =~= id1);
    }
    assert(id1 == id2);
    assert(serialize(m1) =~= serialize(m2));
}

/// The table of a serialised profile holds the offsets of the layout.
proof fn lemma_written_offsets(m: ProfileModel)
    requires
        writable_and_readable(m),
    ensures
        tag_count(serialize(m)) == m.entries.len(),
        forall|i: int|
            0 <= i < m.entries.len() ==> #[trigger] entry_offset(serialize(m), i) == layout_offset(
                datas(m.entries),
                m.shared,
                i,
            ),
{
    let n = m.entries.len();
    let d = datas(m.entries);
    law_read_after_write(m);
    assert forall|i: int| 0 <= i < n implies #[trigger] entry_offset(serialize(m), i) == layout_offset(d, m.shared, i) by {
        lemma_entry_read_back(m, i);
        lemma_next_offset_monotone(d, m.shared, 0, n);
        lemma_first_is_primary(d, m.shared, i);
        lemma_first_with(d, d[i], i as nat);
        let f = first_with(d, d[i], i as nat);
        lemma_next_offset_monotone(d, m.shared, (i + 1) as nat, n);
        lemma_next_offset_monotone(d, m.shared, f, n);
    }
}

/// Whether two tags carry equal payloads.
pub open spec fn has_duplicate_payloads(m: ProfileModel) -> bool {
    exists|i: int, j: int|
        0 <= i < j < m.entries.len() && (#[trigger] m.entries[i]).data == (#[trigger] m.entries[j]).data
}

/// Reading back a serialised profile finds shared tag data exactly when the
/// profile shares tag data, for a profile that, when it shares tag data, has
/// two tags with equal payloads or an empty payload before its last tag, and
/// when it does not, has no empty payload before its last tag (two tags would
/// start at the same offset).
pub proof fn law_sharing_survives_roundtrip(m: ProfileModel)
    requires
        writable_and_readable(m),
        m.shared ==> (has_duplicate_payloads(m) || !no_empty_before_last(m)),
        !m.shared ==> no_empty_before_last(m),
    ensures
        has_duplicate_offsets(serialize(m)) == m.shared,
{
    let n = m.entries.len();
    let b = serialize(m);
    let d = datas(m.entries);
    lemma_written_offsets(m);
    if m.shared {
        if has_duplicate_payloads(m) {
            let (i, j) = choose|i: int, j: int|
                0 <= i < j < m.entries.len() && (#[trigger] m.entries[i]).data == (#[trigger] m.entries[j]).data;
            assert(d[i] == d[j]);
            lemma_first_with(d, d[j], j as nat);
            lemma_first_is_primary(d, m.shared, j);
            let f = first_with(d, d[j], j as nat) as int;
            assert(f <= i);
            assert(layout_offset(d, m.shared, f) == next_offset(d, m.shared, f as nat));
            assert(entry_offset(b, f) == entry_offset(b, j));
        } else {
            let k = choose|k: int| 0 <= k < m.entries.len() - 1 && !((#[trigger] m.entries[k]).data.len() > 0);
            assert forall|x: int| 0 <= x < n implies is_primary(d, m.shared, x) by {
                lemma_first_with(d, d[x], x as nat);
                let f = first_with(d, d[x], x as nat) as int;
                if f < x {
                    assert(m.entries[f].data == m.entries[x].data);
                }
            }
            assert(is_primary(d, m.shared, k) && is_primary(d, m.shared, k + 1));
            assert(d[k].len() == 0);
            assert(padded(0) == 0);
            assert(next_offset(d, m.shared, (k + 1) as nat) == next_offset(d, m.shared, k as nat));
            assert(entry_offset(b, k) == entry_offset(b, k + 1));
        }
    } else {
        if has_duplicate_offsets(b) {
            let (x, y) = choose|x: int, y: int|
                0 <= x < y < tag_count(b) && #[trigger] entry_offset(b, x) == #[trigger] entry_offset(b, y);
            assert(m.entries[x].data.len() > 0);
            lemma_offsets_increase(d, x as nat, y as nat);
        }
    }
}

/// Reading a serialised profile back keeps which tags get data blocks of their
/// own, unless an unshared profile has both an empty payload before its last
/// tag and two tags with equal payloads.
#[verifier::rlimit(40)]
proof fn lemma_reread_blocks(m: ProfileModel)
    requires
        writable_and_readable(m),
        m.shared || no_empty_before_last(m) || duplicates_empty_in_place(m),
    ensures
        blocks_agree(datas(m.entries), m.shared, reread(m).shared),
{
    let n = m.entries.len();
    let b = serialize(m);
    let d = datas(m.entries);
    let rs = has_duplicate_offsets(b);
    law_read_after_write(m);
    lemma_written_offsets(m);
    assert forall|i: int| 0 <= i < n && #[trigger] is_primary(d, m.shared, i) != is_primary(d, rs, i) implies d[i].len()
        == 0 && next_offset(d, m.shared, first_with(d, d[i], i as nat)) == next_offset(d, m.shared, i as nat) by {
        if m.shared && !rs && !is_primary(d, m.shared, i) {
            lemma_first_is_primary(d, m.shared, i);
            lemma_first_with(d, d[i], i as nat);
            let f = first_with(d, d[i], i as nat) as int;
            assert(entry_offset(b, f) == entry_offset(b, i));
            assert(has_duplicate_offsets(b));
        }
        if !m.shared && rs {
            if no_empty_before_last(m) {
                let (x, y) = choose|x: int, y: int|
                    0 <= x < y < tag_count(b) && #[trigger] entry_offset(b, x) == #[trigger] entry_offset(b, y);
                assert(m.entries[x].data.len() > 0);
                lemma_offsets_increase(d, x as nat, y as nat);
            } else {
                lemma_first_with(d, d[i], i as nat);
            }
        }
    }
}

/// Serialising a profile that was read from serialised bytes gives those bytes
/// again, unless the profile is unshared with both an empty payload before its
/// last tag and two tags with equal payloads (reading would find shared data),
/// or a requested profile ID ends in a zero byte (reading would find none
/// requested).
#[verifier::rlimit(80)]
pub proof fn law_rewrite_is_identical(m: ProfileModel)
    requires
        writable_and_readable(m),
        m.shared || no_empty_before_last(m) || duplicates_empty_in_place(m),
        m.header[99] == 0 || serialize(m)[99] != 0 || serialize(m).subrange(84, 100) == zero_id(),
    ensures
        serialize(reread(m)) == serialize(m),
{
    let b = serialize(m);
    let r = reread(m);
    law_read_after_write(m);
    lemma_serialized(m);
    lemma_reread_blocks(m);
    assert(r.entries == read_back(m));
    assert(datas(r.entries) =~= datas(m.entries));
    let hb = splice(splice(m.header, 0, be_bytes_u32(b.len() as u32)), 84, b.subrange(84, 100));
    assert(r.header == hb);
    assert(r.header[99] == b[99]);
    if m.header[99] == 0 {
        let b1 = splice(unsized_bytes(m), 0, be_bytes_u32(unsized_bytes(m).len() as u32));
        assert(b == splice(b1, 84, zero_id()));
        assert(b[99] == zero_id()[15]);
    }
    assert forall|x: int| 0 <= x < 128 && !(0 <= x < 4) && !(84 <= x < 100) implies #[trigger] m.header[x] == r.header[x] by {
        assert(hb[x] == m.header[x]);
    }
    assert(pcs_is_lab(r.header) == pcs_is_lab(m.header)) by {
        assert(r.header[20] == m.header[20]);
        assert(r.header[21] == m.header[21]);
        assert(r.header[22] == m.header[22]);
        assert(r.header[23] == m.header[23]);
    }
    assert forall|i: int| 0 <= i < m.entries.len() implies (#[trigger] m.entries[i]).sig.code() == r.entries[i].sig.code()
        && m.entries[i].data == r.entries[i].data && written_data(m.header, m.entries[i]) == written_data(
        r.header,
        r.entries[i],
    ) by {
        let c = m.entries[i].sig.code();
        TagSignature::lemma_code_of_from_code(c);
        lemma_from_code_ncl2(c);
        assert(TagSignature::NamedColor2.code() == ncl2_code());
    }
    lemma_serialize_agrees(m, r);
}

/// Recording the layout in the tag records changes nothing that is written,
/// and recording it again changes nothing at all.
pub proof fn law_relayout_is_stable(m: ProfileModel)
    requires
        m.header.len() == 128,
        layout_fits(datas(m.entries), m.shared),
    ensures
        serialize(relaid(m)) == serialize(m),
        relaid(relaid(m)) == relaid(m),
{
    let r = relaid(m);
    assert(datas(r.entries) =~= datas(m.entries));
    lemma_serialize_agrees(m, r);
    assert(relaid(r).entries =~= r.entries);
}

/// What `RawProfile::from_bytes` gives for some bytes, as a profile model.
pub open spec fn read_model(b: Seq<u8>) -> ProfileModel {
    ProfileModel {
        header: b.subrange(0, 128),
        entries: parsed_entries(b, tag_count(b) as nat),
        shared: has_duplicate_offsets(b),
    }
}

/// The entries read from a table have distinct signatures, and each is what
/// some table entry gives.
proof fn lemma_parsed_entries_facts(b: Seq<u8>, n: nat)
    ensures
        sigs_distinct(parsed_entries(b, n)),
        forall|k: int|
            #![trigger parsed_entries(b, n)[k]]
            0 <= k < parsed_entries(b, n).len() ==> exists|j: int|
                0 <= j < n && parsed_entries(b, n)[k] == #[trigger] parsed_entry(b, j),
    decreases n,
{
    if n > 0 {
        lemma_parsed_entries_facts(b, (n - 1) as nat);
        let s = parsed_entries(b, (n - 1) as nat);
        let x = parsed_entry(b, n - 1);
        let r = parsed_entries(b, n);
        if model_has_key(s, x.sig) {
            let w = choose|w: int| 0 <= w < s.len() && s[w].sig == x.sig;
            assert(r == s.update(w, x));
            assert forall|k: int| #![trigger r[k]] 0 <= k < r.len() implies exists|j: int|
                0 <= j < n && r[k] == #[trigger] parsed_entry(b, j) by {
                if k == w {
                    assert(r[k] == parsed_entry(b, n - 1));
                } else {
                    assert(r[k] == s[k]);
                    let j = choose|j: int| 0 <= j < n - 1 && s[k] == #[trigger] parsed_entry(b, j);
                    assert(r[k] == parsed_entry(b, j));
                }
            }
        } else {
            assert(r == s.push(x));
            assert forall|k: int| #![trigger r[k]] 0 <= k < r.len() implies exists|j: int|
                0 <= j < n && r[k] == #[trigger] parsed_entry(b, j) by {
                if k == s.len() {
                    assert(r[k] == parsed_entry(b, n - 1));
                } else {
                    assert(r[k] == s[k]);
                    let j = choose|j: int| 0 <= j < n - 1 && s[k] == #[trigger] parsed_entry(b, j);
                    assert(r[k] == parsed_entry(b, j));
                }
            }
            assert forall|i: int, j: int| 0 <= i < r.len() && 0 <= j < r.len() && i != j implies r[i].sig
                != r[j].sig by {
                if i == s.len() {
                    assert(r[j] == s[j]);
                } else if j == s.len() {
                    assert(r[i] == s[i]);
                }
            }
        }
    }
}

/// A profile read from bytes has signatures with distinct codes, each the one
/// its code stands for, and its
/// named-color-2 tags in a Lab profile hold the PCS bit.
proof fn lemma_read_model_readable(b: Seq<u8>)
    requires
        parse_accepts(b),
        !has_short_named_color2(b),
        layout_fits(datas(read_model(b).entries), read_model(b).shared),
        ({
            let m = read_model(b);
            forall|i: int|
                0 <= i < m.entries.len() && (#[trigger] m.entries[i]).sig == TagSignature::NamedColor2
                    && pcs_is_lab(m.header) && m.shared && first_with(datas(m.entries), m.entries[i].data, i as nat) == i
                    ==> forall|j: int| i < j < m.entries.len() ==> (#[trigger] m.entries[j]).data != m.entries[i].data
        }),
    ensures
        writable_and_readable(read_model(b)),
{
    let m = read_model(b);
    let n = tag_count(b) as nat;
    lemma_parsed_entries_facts(b, n);
    assert(be_u32_at(m.header, 36) == be_u32_at(b, 36));
    assert(pcs_is_lab(m.header) == pcs_is_lab(b));
    assert forall|i: int| 0 <= i < m.entries.len() implies TagSignature::from_code(
        (#[trigger] m.entries[i]).sig.code(),
    ) == m.entries[i].sig by {
        let j = choose|j: int| 0 <= j < n && m.entries[i] == #[trigger] parsed_entry(b, j);
        TagSignature::lemma_code_of_from_code(entry_sig(b, j));
    }
    assert forall|i: int, k: int|
        0 <= i < m.entries.len() && 0 <= k < m.entries.len() && i != k implies #[trigger] m.entries[i].sig.code()
        != #[trigger] m.entries[k].sig.code() by {
        assert(TagSignature::from_code(m.entries[i].sig.code()) == m.entries[i].sig);
        assert(TagSignature::from_code(m.entries[k].sig.code()) == m.entries[k].sig);
    }
    assert forall|i: int|
        0 <= i < m.entries.len() && pcs_is_lab(m.header) && (#[trigger] m.entries[i]).sig.code() == ncl2_code()
            implies m.entries[i].sig == TagSignature::NamedColor2 by {
        assert(TagSignature::from_code(m.entries[i].sig.code()) == m.entries[i].sig);
        lemma_from_code_ncl2(m.entries[i].sig.code());
    }
    assert forall|i: int|
        0 <= i < m.entries.len() && (#[trigger] m.entries[i]).sig == TagSignature::NamedColor2
            && pcs_is_lab(m.header) implies m.entries[i].data.len() >= 12 && m.entries[i].data[9] & 1u8 == 1u8 by {
        let j = choose|j: int| 0 <= j < n && m.entries[i] == #[trigger] parsed_entry(b, j);
        TagSignature::lemma_code_of_from_code(entry_sig(b, j));
        assert(entry_sig(b, j) == ncl2_code());
        assert(entry_in_bounds(b, j));
        if entry_size(b, j) < 12 {
            assert(short_ncl2_at(b, j));
            assert(forall|k: int| 0 <= k <= j ==> #[trigger] entry_in_bounds(b, k));
            assert(has_short_named_color2(b));
        }
        let x = b.subrange(entry_offset(b, j) as int, entry_offset(b, j) + entry_size(b, j))[9];
        assert((x | 1u8) & 1u8 == 1u8) by (bit_vector);
    }
}

/// Reading bytes and writing the profile, then reading those bytes and writing
/// again, gives the same bytes: a written profile is written back unchanged.
/// Stated for bytes whose layout fits, unless tag data is shared and a
/// named-color-2 tag of a Lab profile is the first of several with its payload
/// (the later ones would lose the PCS bit), unless the profile is unshared with
/// an empty payload before its last tag and a repeated payload that is not
/// empty or not in place, and unless a requested profile ID ends in a zero byte
/// without being zero.
pub proof fn law_written_profile_rewrites_identically(b: Seq<u8>)
    requires
        parse_accepts(b),
        !has_short_named_color2(b),
        layout_fits(datas(read_model(b).entries), read_model(b).shared),
        ({
            let m = read_model(b);
            forall|i: int|
                0 <= i < m.entries.len() && (#[trigger] m.entries[i]).sig == TagSignature::NamedColor2
                    && pcs_is_lab(m.header) && m.shared && first_with(datas(m.entries), m.entries[i].data, i as nat) == i
                    ==> forall|j: int| i < j < m.entries.len() ==> (#[trigger] m.entries[j]).data != m.entries[i].data
        }),
        read_model(b).shared || no_empty_before_last(read_model(b)) || duplicates_empty_in_place(read_model(b)),
        read_model(b).header[99] == 0 || serialize(read_model(b))[99] != 0 || serialize(read_model(b)).subrange(84, 100)
            == zero_id(),
    ensures
        parse_accepts(serialize(read_model(b))),
        !has_short_named_color2(serialize(read_model(b))),
        serialize(read_model(serialize(read_model(b)))) == serialize(read_model(b)),
{
    lemma_read_model_readable(b);
    let m = read_model(b);
    law_read_after_write(m);
    law_rewrite_is_identical(m);
    assert(reread(m) == read_model(serialize(m)));
}

} // verus!
