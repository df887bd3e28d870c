//! The MD5 checksum that an ICC profile ID holds.

use vstd::prelude::*;

use crate::header::splice;

verus! {

/// The MD5 digest of a byte sequence (what `md5::compute` returns).
pub uninterp spec fn md5_digest(data: Seq<u8>) -> Seq<u8>;

/// The MD5 digest of `data` (`md5::compute`, converted to its 16 bytes).
#[verifier::external_body]
fn md5_compute(data: &[u8]) -> (digest: [u8; 16])
    ensures
        digest@ == md5_digest(data@),
{
    md5::compute(data).into()
}

/// The 16 digest bytes, as they are stored in the profile ID field.
pub open spec fn md5_id(data: Seq<u8>) -> Seq<u8> {
    Seq::new(16, |i: int| md5_digest(data)[i])
}

/// The bytes with the flags (44..48), rendering intent (64..68) and profile ID
/// (84..100) fields set to zero, as the ICC profile ID is computed over them.
pub open spec fn id_zeroed(b: Seq<u8>) -> Seq<u8> {
    Seq::new(
        b.len(),
        |i: int|
            if (44 <= i < 48) || (64 <= i < 68) || (84 <= i < 100) {
                0u8
            } else {
                b[i]
            },
    )
}

/// Sixteen zero bytes.
pub open spec fn zero_id() -> Seq<u8> {
    Seq::new(16, |i: int| 0u8)
}

/// Computes the MD5 checksum of a serialised profile with the flags, rendering
/// intent and profile ID fields taken as zero.  Afterwards the flags and
/// rendering intent hold their old values again and the profile ID is zero.
pub fn md5checksum(bytes: &mut [u8]) -> (checksum: [u8; 16])
    requires
        old(bytes)@.len() >= 128,
    ensures
        checksum@ == md5_id(id_zeroed(old(bytes)@)),
        final(bytes)@ == splice(old(bytes)@, 84, zero_id()),
{
    let flags = [bytes[44], bytes[45], bytes[46], bytes[47]];
    let rendering_intent = [bytes[64], bytes[65], bytes[66], bytes[67]];
    let mut i: usize = 0;
    while i < 4
        invariant
            i <= 4,
            bytes@.len() == old(bytes)@.len(),
            old(bytes)@.len() >= 128,
            forall|j: int| 0 <= j < bytes@.len() && !(44 <= j < 44 + i) && !(64 <= j < 64 + i) ==> bytes@[j] == old(bytes)@[j],
            forall|j: int| (44 <= j < 44 + i || 64 <= j < 64 + i) ==> bytes@[j] == 0,
        decreases 4 - i,
    {
        bytes[44 + i] = 0;
        bytes[64 + i] = 0;
        i += 1;
    }
    let mut k: usize = 84;
    while k < 100
        invariant
            84 <= k <= 100,
            bytes@.len() == old(bytes)@.len(),
            old(bytes)@.len() >= 128,
            forall|j: int| 0 <= j < bytes@.len() && !(44 <= j < 48) && !(64 <= j < 68) && !(84 <= j < k) ==> bytes@[j] == old(bytes)@[j],
            forall|j: int| (44 <= j < 48) || (64 <= j < 68) || (84 <= j < k) ==> bytes@[j] == 0,
        decreases 100 - k,
    {
        bytes[k] = 0;
        k += 1;
    }
    assert(bytes@ =~= id_zeroed(old(bytes)@));
    let digest = md5_compute(bytes);
    let mut i: usize = 0;
    while i < 4
        invariant
            i <= 4,
            bytes@.len() == old(bytes)@.len(),
            old(bytes)@.len() >= 128,
            flags@ == old(bytes)@.subrange(44, 48),
            rendering_intent@ == old(bytes)@.subrange(64, 68),
            forall|j: int| 0 <= j < bytes@.len() && !(44 + i <= j < 48) && !(64 + i <= j < 68) && !(84 <= j < 100) ==> bytes@[j] == old(bytes)@[j],
            forall|j: int| 84 <= j < 100 ==> bytes@[j] == 0,
        decreases 4 - i,
    {
        bytes[44 + i] = flags[i];
        bytes[64 + i] = rendering_intent[i];
        i += 1;
    }
    assert(bytes@ =~= splice(old(bytes)@, 84, zero_id()));
    assert(digest@ =~= md5_id(id_zeroed(old(bytes)@)));
    digest
}

/// The profile ID does not depend on the flags, rendering intent and profile
/// ID fields: two buffers of the same length that differ only in bytes 44..48,
/// 64..68 and 84..100 have the same digested data, so `md5checksum` and
/// `set_profile_id` give them the same checksum.
pub proof fn law_checksum_ignores_flags_intent_and_id(b1: Seq<u8>, b2: Seq<u8>)
    requires
        b1.len() >= 128,
        b1.len() == b2.len(),
        forall|i: int|
            0 <= i < b1.len() && !(44 <= i < 48) && !(64 <= i < 68) && !(84 <= i < 100) ==> #[trigger] b1[i] == b2[i],
    ensures
        id_zeroed(b1) == id_zeroed(b2),
        md5_id(id_zeroed(b1)) == md5_id(id_zeroed(b2)),
{
    assert(id_zeroed(b1) =~= id_zeroed(b2));
}

/// The digested data is the buffer with exactly the flags, rendering intent and
/// profile ID fields cleared: every byte of those fields is zero, and every
/// other byte is the buffer's.
pub proof fn law_digested_data_clears_exactly_three_fields(b: Seq<u8>, i: int)
    requires
        b.len() >= 128,
        0 <= i < b.len(),
    ensures
        id_zeroed(b).len() == b.len(),
        (44 <= i < 48 || 64 <= i < 68 || 84 <= i < 100) ==> id_zeroed(b)[i] == 0,
        !(44 <= i < 48 || 64 <= i < 68 || 84 <= i < 100) ==> id_zeroed(b)[i] == b[i],
{
}

/// Computes the MD5 checksum (see [`md5checksum`]) and stores it in the profile ID
/// field (bytes 84..100).
pub fn set_profile_id(bytes: &mut [u8]) -> (checksum: [u8; 16])
    requires
        old(bytes)@.len() >= 128,
    ensures
        checksum@ == md5_id(id_zeroed(old(bytes)@)),
        final(bytes)@ == splice(old(bytes)@, 84, checksum@),
{
    let checksum = md5checksum(bytes);
    let mut i: usize = 0;
    while i < 16
        invariant
            i <= 16,
            bytes@.len() == old(bytes)@.len(),
            old(bytes)@.len() >= 128,
            forall|j: int| 0 <= j < bytes@.len() && !(84 <= j < 84 + i) ==> bytes@[j] == splice(old(bytes)@, 84, zero_id())[j],
            forall|j: int| 84 <= j < 84 + i ==> bytes@[j] == checksum@[j - 84],
        decreases 16 - i,
    {
        bytes[84 + i] = checksum[i];
        i += 1;
    }
    assert(bytes@ =~= splice(old(bytes)@, 84, checksum@));
    checksum
}

} // verus!
