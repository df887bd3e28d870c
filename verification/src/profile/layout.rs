//! What serialising a profile writes, as spec functions.
//!
//! The tag data area starts right after the tag table.  Each tag's data is
//! written at the next free offset and padded with zeros to a multiple of four.
//! When tag data is shared, a tag whose data equals that of an earlier tag is
//! not written again: its table entry points at the earlier copy.

use vstd::prelude::*;

use crate::bytes::be_bytes_u32;
use crate::header::splice;
use crate::profile::checksum::{id_zeroed, md5_id, zero_id};
use crate::profile::format::pcs_is_lab;
use crate::profile::{EntryModel, ProfileModel};
use crate::spec_pad_size;
use crate::tag::TagSignature;

verus! {

/// Where the tag data area begins, for `n` tags.
pub open spec fn data_start(n: nat) -> nat {
    132 + 12 * n
}

/// `len` rounded up to a multiple of four.
pub open spec fn padded(len: nat) -> nat {
    len + spec_pad_size(len)
}

/// `n` zero bytes.
pub open spec fn zeros(n: nat) -> Seq<u8> {
    Seq::new(n, |i: int| 0u8)
}

/// The payloads of the entries, in order.
pub open spec fn datas(e: Seq<EntryModel>) -> Seq<Seq<u8>> {
    e.map_values(|x: EntryModel| x.data)
}

/// The first position below `k` whose payload equals `x`, or `k` if none.
pub open spec fn first_with(d: Seq<Seq<u8>>, x: Seq<u8>, k: nat) -> nat
    decreases k,
{
    if k == 0 {
        0
    } else {
        let f = first_with(d, x, (k - 1) as nat);
        if f < k - 1 {
            f
        } else if d[k - 1] == x {
            (k - 1) as nat
        } else {
            k
        }
    }
}

/// Whether entry `i` gets a data block of its own: always without sharing, and
/// with sharing when no earlier entry has the same payload.
pub open spec fn is_primary(d: Seq<Seq<u8>>, shared: bool, i: int) -> bool {
    !shared || first_with(d, d[i], i as nat) == i
}

/// The first free offset after the data blocks of the first `k` entries.
pub open spec fn next_offset(d: Seq<Seq<u8>>, shared: bool, k: nat) -> nat
    decreases k,
{
    if k == 0 {
        data_start(d.len())
    } else {
        next_offset(d, shared, (k - 1) as nat) + (if is_primary(d, shared, k - 1) {
            padded(d[k - 1].len())
        } else {
            0
        })
    }
}

/// The offset recorded for entry `i`.
pub open spec fn layout_offset(d: Seq<Seq<u8>>, shared: bool, i: int) -> nat {
    if is_primary(d, shared, i) {
        next_offset(d, shared, i as nat)
    } else {
        next_offset(d, shared, first_with(d, d[i], i as nat))
    }
}

/// The size recorded for entry `i`: its length, negated for a tag that shares an
/// earlier tag's data.
pub open spec fn layout_size(d: Seq<Seq<u8>>, shared: bool, i: int) -> int {
    if is_primary(d, shared, i) {
        d[i].len() as int
    } else {
        -(d[i].len() as int)
    }
}

/// Whether the serialised profile fits the 32-bit size and offset fields and every
/// tag fits the signed 32-bit size of a tag record.
pub open spec fn layout_fits(d: Seq<Seq<u8>>, shared: bool) -> bool {
    &&& next_offset(d, shared, d.len()) <= u32::MAX
    &&& forall|i: int| 0 <= i < d.len() ==> #[trigger] d[i].len() <= i32::MAX
}

/// `x`, or `m` when `x` exceeds it.
pub open spec fn capped(x: nat, m: nat) -> nat {
    if x <= m {
        x
    } else {
        m
    }
}

/// The profile with each tag record's offset and size set to where serialising
/// puts its data; signatures, payloads, header and sharing are kept.
pub open spec fn relaid(m: ProfileModel) -> ProfileModel {
    ProfileModel {
        header: m.header,
        entries: Seq::new(
            m.entries.len(),
            |i: int|
                EntryModel {
                    sig: m.entries[i].sig,
                    offset: layout_offset(datas(m.entries), m.shared, i) as u32,
                    size: layout_size(datas(m.entries), m.shared, i) as i32,
                    data: m.entries[i].data,
                },
        ),
        shared: m.shared,
    }
}

/// Whether entry `i`'s data is written out: all entries without sharing, and the
/// non-empty entries with a block of their own with sharing.
pub open spec fn is_written(d: Seq<Seq<u8>>, shared: bool, i: int) -> bool {
    is_primary(d, shared, i) && (!shared || d[i].len() > 0)
}

/// The data as written: for a named-color-2 tag of a Lab profile, bit 16 of the
/// flags field (byte 9) is cleared again.
pub open spec fn written_data(h: Seq<u8>, x: EntryModel) -> Seq<u8> {
    if x.sig == TagSignature::NamedColor2 && pcs_is_lab(h) && x.data.len() >= 12 {
        x.data.update(9, x.data[9] & 0xFEu8)
    } else {
        x.data
    }
}

/// Serialising needs each written named-color-2 tag of a Lab profile to hold its
/// 12-byte flag field.
pub open spec fn named_color2_writable(m: ProfileModel) -> bool {
    forall|i: int|
        0 <= i < m.entries.len() && #[trigger] is_written(datas(m.entries), m.shared, i) && m.entries[i].sig
            == TagSignature::NamedColor2 && pcs_is_lab(m.header) ==> m.entries[i].data.len() >= 12
}

/// The table entries of the first `k` tags.
pub open spec fn table_bytes(e: Seq<EntryModel>, shared: bool, k: nat) -> Seq<u8>
    decreases k,
{
    if k == 0 {
        Seq::empty()
    } else {
        let i = k - 1;
        table_bytes(e, shared, (k - 1) as nat) + be_bytes_u32(e[i].sig.code()) + be_bytes_u32(
            layout_offset(datas(e), shared, i) as u32,
        ) + be_bytes_u32(e[i].data.len() as u32)
    }
}

/// The data area for the first `k` tags.
pub open spec fn body_bytes(h: Seq<u8>, e: Seq<EntryModel>, shared: bool, k: nat) -> Seq<u8>
    decreases k,
{
    if k == 0 {
        Seq::empty()
    } else {
        let i = k - 1;
        body_bytes(h, e, shared, (k - 1) as nat) + (if is_primary(datas(e), shared, i) {
            written_data(h, e[i]) + zeros(spec_pad_size(e[i].data.len()))
        } else {
            Seq::empty()
        })
    }
}

/// Header, tag count, tag table and data area, before the size and profile ID
/// fields are filled in.
pub open spec fn unsized_bytes(m: ProfileModel) -> Seq<u8> {
    let n = m.entries.len();
    m.header + be_bytes_u32(n as u32) + table_bytes(m.entries, m.shared, n) + body_bytes(
        m.header,
        m.entries,
        m.shared,
        n,
    )
}

/// The bytes of a serialised profile: the size field holds the total length,
/// and the profile ID field holds the MD5 checksum when an ID was requested
/// (last ID byte non-zero) and zeros otherwise.
pub open spec fn serialize(m: ProfileModel) -> Seq<u8> {
    let b0 = unsized_bytes(m);
    let b1 = splice(b0, 0, be_bytes_u32(b0.len() as u32));
    if m.header[99] > 0 {
        splice(b1, 84, md5_id(id_zeroed(b1)))
    } else {
        splice(b1, 84, zero_id())
    }
}

/// Properties of `first_with`: it is the first match, or `k` when none.
pub proof fn lemma_first_with(d: Seq<Seq<u8>>, x: Seq<u8>, k: nat)
    requires
        k <= d.len(),
    ensures
        first_with(d, x, k) <= k,
        first_with(d, x, k) < k ==> d[first_with(d, x, k) as int] == x,
        forall|j: int| 0 <= j < first_with(d, x, k) ==> #[trigger] d[j] != x,
    decreases k,
{
    if k > 0 {
        lemma_first_with(d, x, (k - 1) as nat);
    }
}

/// The first entry with some payload has a block of its own, and with sharing
/// every entry with that payload points at it.
pub proof fn lemma_first_is_primary(d: Seq<Seq<u8>>, shared: bool, i: int)
    requires
        0 <= i < d.len(),
    ensures
        first_with(d, d[i], i as nat) <= i,
        is_primary(d, shared, first_with(d, d[i], i as nat) as int),
        shared ==> layout_offset(d, shared, i) == next_offset(d, shared, first_with(d, d[i], i as nat)),
{
    lemma_first_with(d, d[i], i as nat);
    let f = first_with(d, d[i], i as nat);
    if f < i {
        lemma_first_with(d, d[i], f);
    }
}

/// Offsets grow with the number of entries laid out.
pub proof fn lemma_next_offset_monotone(d: Seq<Seq<u8>>, shared: bool, a: nat, b: nat)
    requires
        a <= b,
    ensures
        next_offset(d, shared, a) <= next_offset(d, shared, b),
    decreases b - a,
{
    if a < b {
        lemma_next_offset_monotone(d, shared, a, (b - 1) as nat);
    }
}

/// The table holds twelve bytes per entry.
pub proof fn lemma_table_len(e: Seq<EntryModel>, shared: bool, k: nat)
    ensures
        table_bytes(e, shared, k).len() == 12 * k,
    decreases k,
{
    if k > 0 {
        lemma_table_len(e, shared, (k - 1) as nat);
    }
}

/// The data area ends at the next free offset.
pub proof fn lemma_body_len(h: Seq<u8>, e: Seq<EntryModel>, shared: bool, k: nat)
    requires
        k <= e.len(),
    ensures
        body_bytes(h, e, shared, k).len() + data_start(e.len()) == next_offset(datas(e), shared, k),
    decreases k,
{
    if k > 0 {
        lemma_body_len(h, e, shared, (k - 1) as nat);
        let i = k - 1;
        assert(written_data(h, e[i]).len() == e[i].data.len());
        assert(zeros(spec_pad_size(e[i].data.len())).len() == spec_pad_size(e[i].data.len()));
    }
}

} // verus!
