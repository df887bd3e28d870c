//! What reading a header field gives after writing it: each law speaks of the
//! header bytes that a setter leaves (as its contract states them) and of the
//! value that the matching getter reads from them.

use vstd::prelude::*;

use crate::all_printable_ascii;
use crate::bytes::{be_bytes_u32, be_u32_at, lemma_be_u32_bytes_of_value};
use crate::header::{
    apple_hints_of, be_u64_at, is_supported_version, lemma_splice_u32, quality_of, splice,
    version_code, version_of_code, with_apple_hints,
};
use crate::signatures::{signature_code_of_text, Cmm, ColorSpace, DeviceClass, Pcs, Platform};
use crate::tag::{icc_intent_names, law_rendering_intent_values_are_icc, GamutCheck, Interpolate, Quality, RenderingIntent};

verus! {

/// Writing a supported version and reading it back gives that version; the
/// field holds the major version in byte 8 and the minor version in the high
/// nibble of byte 9, with bytes 10 and 11 zero, as the ICC header lays it out.
pub proof fn law_version_roundtrip(h: Seq<u8>, major: u8, minor: u8)
    requires
        h.len() == 128,
        is_supported_version(major, minor),
    ensures
        version_of_code(be_u32_at(splice(h, 8, be_bytes_u32(version_code(major, minor))), 8)) == (
            major,
            minor,
        ),
        be_bytes_u32(version_code(major, minor)) == seq![major, (minor * 16) as u8, 0u8, 0u8],
{
    let v = version_code(major, minor);
    assert(v / 0x100_0000 == major as u32 && (v / 0x1_0000) % 0x100 == minor as u32 * 16 && (v / 0x100) % 0x100 == 0
        && v % 0x100 == 0) by (nonlinear_arith)
        requires
            v as int == major as int * 0x100_0000 + minor as int * 0x10_0000,
            minor < 16,
    ;
    assert(be_bytes_u32(v) =~= seq![major, (minor * 16) as u8, 0u8, 0u8]);
    lemma_splice_u32(h, 8, v);
    assert(v as int == major as int * 0x100_0000 + minor as int * 0x10_0000);
    assert(v as int / 0x100_0000 == major as int) by (nonlinear_arith)
        requires
            v as int == major as int * 0x100_0000 + minor as int * 0x10_0000,
            minor < 16,
    ;
    assert((v as int / 0x10_0000) % 16 == minor as int) by (nonlinear_arith)
        requires
            v as int == major as int * 0x100_0000 + minor as int * 0x10_0000,
            minor < 16,
    ;
}

/// Writing a device class and reading it back gives that class.
pub proof fn law_device_class_roundtrip(h: Seq<u8>, c: DeviceClass)
    requires
        h.len() == 128,
    ensures
        DeviceClass::from_code(be_u32_at(splice(h, 12, be_bytes_u32(c.code())), 12)) == c,
{
    lemma_splice_u32(h, 12, c.code());
    DeviceClass::lemma_from_code_of_code(c);
}

/// Writing a data color space and reading it back gives that color space.
pub proof fn law_data_color_space_roundtrip(h: Seq<u8>, cs: ColorSpace)
    requires
        h.len() == 128,
    ensures
        ColorSpace::from_code(be_u32_at(splice(h, 16, be_bytes_u32(cs.code())), 16)) == Some(cs),
{
    lemma_splice_u32(h, 16, cs.code());
    ColorSpace::lemma_from_code_of_code(cs);
}

/// Writing a connection space and reading it back gives that connection space.
pub proof fn law_pcs_roundtrip(h: Seq<u8>, p: Pcs)
    requires
        h.len() == 128,
    ensures
        Pcs::from_code(be_u32_at(splice(h, 20, be_bytes_u32(p.code())), 20)) == Some(p),
{
    lemma_splice_u32(h, 20, p.code());
    Pcs::lemma_from_code_of_code(p);
}

/// Writing a primary platform and reading it back gives that platform.
pub proof fn law_primary_platform_roundtrip(h: Seq<u8>, p: Platform)
    requires
        h.len() == 128,
    ensures
        Platform::from_code(be_u32_at(splice(h, 40, be_bytes_u32(p.code())), 40)) == Some(p),
{
    lemma_splice_u32(h, 40, p.code());
    Platform::lemma_from_code_of_code(p);
}

/// Writing a CMM and reading it back gives that CMM.
pub proof fn law_cmm_roundtrip(h: Seq<u8>, c: Cmm)
    requires
        h.len() == 128,
    ensures
        Cmm::from_code(be_u32_at(splice(h, 4, be_bytes_u32(c.code())), 4)) == Some(c),
{
    lemma_splice_u32(h, 4, c.code());
    Cmm::lemma_from_code_of_code(c);
}

/// Writing a rendering intent and reading it back gives that intent, and the
/// value written is the intent's ICC value (the position of its name in
/// [`icc_intent_names`]).
pub proof fn law_rendering_intent_roundtrip(h: Seq<u8>, ri: RenderingIntent)
    requires
        h.len() == 128,
    ensures
        RenderingIntent::from_code(be_u32_at(splice(h, 64, be_bytes_u32(ri.code())), 64)) == ri,
        be_u32_at(splice(h, 64, be_bytes_u32(ri.code())), 64) < 4,
        icc_intent_names()[be_u32_at(splice(h, 64, be_bytes_u32(ri.code())), 64) as int] == ri.name(),
{
    lemma_splice_u32(h, 64, ri.code());
    RenderingIntent::lemma_from_code_of_code(ri);
    law_rendering_intent_values_are_icc(ri, 0);
}

/// Writing the embedded and use-embedded-only flags and reading them back gives
/// those flags.
pub proof fn law_flags_roundtrip(h: Seq<u8>, embedded: bool, use_embedded_only: bool)
    requires
        h.len() == 128,
    ensures
        ({
            let f = be_u32_at(
                splice(
                    h,
                    44,
                    be_bytes_u32(
                        ((if embedded {
                            1int
                        } else {
                            0
                        }) + (if use_embedded_only {
                            2int
                        } else {
                            0
                        })) as u32,
                    ),
                ),
                44,
            );
            (f % 2 == 1, (f / 2) % 2 == 1) == (embedded, use_embedded_only)
        }),
{
    let v = ((if embedded {
        1int
    } else {
        0
    }) + (if use_embedded_only {
        2int
    } else {
        0
    })) as u32;
    lemma_splice_u32(h, 44, v);
}

/// Setting Apple hints in a flags field and reading them back gives those
/// hints, whatever hints the field held before.
pub proof fn law_apple_flags_roundtrip(f: u32, q: Quality, i: Interpolate, g: GamutCheck)
    ensures
        ({
            let (qq, ii, gg) = apple_hints_of(with_apple_hints(f, q.code(), i.code(), g.code()));
            &&& quality_of(qq) == q
            &&& (if ii == 1 {
                Interpolate::False
            } else {
                Interpolate::True
            }) == i
            &&& (if gg == 1 {
                GamutCheck::False
            } else {
                GamutCheck::True
            }) == g
        }),
{
    let (qc, ic, gc) = (q.code(), i.code(), g.code());
    assert(qc < 3 && ic < 2 && gc < 2);
    assert((((f & 0xFFF0_FFFFu32) | (qc << 16u32) | (ic << 18u32) | (gc << 19u32)) >> 16u32) & 3u32 == qc) by (bit_vector)
        requires
            qc < 3,
            ic < 2,
            gc < 2,
    ;
    assert((((f & 0xFFF0_FFFFu32) | (qc << 16u32) | (ic << 18u32) | (gc << 19u32)) >> 18u32) & 1u32 == ic) by (bit_vector)
        requires
            qc < 3,
            ic < 2,
            gc < 2,
    ;
    assert((((f & 0xFFF0_FFFFu32) | (qc << 16u32) | (ic << 18u32) | (gc << 19u32)) >> 19u32) & 1u32 == gc) by (bit_vector)
        requires
            qc < 3,
            ic < 2,
            gc < 2,
    ;
}

/// Writing a model code and reading it back gives that code.
pub proof fn law_model_roundtrip(h: Seq<u8>, code: u32)
    requires
        h.len() == 128,
    ensures
        be_u32_at(splice(h, 52, be_bytes_u32(code)), 52) == code,
{
    lemma_splice_u32(h, 52, code);
}

/// Writing a non-zero creator code and reading it back gives that code.
pub proof fn law_creator_roundtrip(h: Seq<u8>, code: u32)
    requires
        h.len() == 128,
    ensures
        be_u32_at(splice(h, 80, be_bytes_u32(code)), 80) == code,
{
    lemma_splice_u32(h, 80, code);
}

/// Writing the device attributes and reading them back gives those attributes.
pub proof fn law_attributes_roundtrip(h: Seq<u8>, a: u64)
    requires
        h.len() == 128,
    ensures
        be_u64_at(
            splice(
                splice(h, 56, be_bytes_u32((a / 0x1_0000_0000) as u32)),
                60,
                be_bytes_u32((a % 0x1_0000_0000) as u32),
            ),
            56,
        ) == a,
{
    let hi = (a / 0x1_0000_0000) as u32;
    let lo = (a % 0x1_0000_0000) as u32;
    let h1 = splice(h, 56, be_bytes_u32(hi));
    lemma_splice_u32(h, 56, hi);
    lemma_splice_u32(h1, 60, lo);
    assert(be_u32_at(splice(h1, 60, be_bytes_u32(lo)), 56) == hi);
    assert(hi as int * 0x1_0000_0000 + lo as int == a as int) by (nonlinear_arith)
        requires
            hi as int == a as int / 0x1_0000_0000,
            lo as int == a as int % 0x1_0000_0000,
    ;
}

/// Writing a manufacturer given as four printable ASCII characters and reading
/// it back gives the code of those characters, as a printable signature.
pub proof fn law_manufacturer_roundtrip(h: Seq<u8>, t: Seq<char>)
    requires
        h.len() == 128,
        t.len() == 4,
        forall|i: int| 0 <= i < 4 ==> 0x20 <= (#[trigger] t[i]) as u32 <= 0x7E,
    ensures
        signature_code_of_text(t) is Some,
        ({
            let code = signature_code_of_text(t)->0;
            let h2 = splice(h, 48, be_bytes_u32(code));
            &&& be_u32_at(h2, 48) == code
            &&& all_printable_ascii(be_bytes_u32(be_u32_at(h2, 48)))
        }),
{
    assert(forall|i: int| 0 <= i < 4 ==> ((#[trigger] t[i]) as u32) < 0x80);
    let code = signature_code_of_text(t)->0;
    lemma_splice_u32(h, 48, code);
    let s = seq![(t[0] as u32) as u8, (t[1] as u32) as u8, (t[2] as u32) as u8, (t[3] as u32) as u8];
    assert forall|k: int| 0 <= k < 4 implies (s[k] as int) == (#[trigger] t[k]) as u32 as int by {
        assert((t[k] as u32) < 0x80);
    }
    assert(s[0] as int == t[0] as u32 as int);
    assert(s[1] as int == t[1] as u32 as int);
    assert(s[2] as int == t[2] as u32 as int);
    assert(s[3] as int == t[3] as u32 as int);
    assert(code == be_u32_at(s, 0));
    lemma_be_u32_bytes_of_value(s, 0);
    assert(s.subrange(0, 4) =~= s);
    assert(be_bytes_u32(code) == s);
}

} // verus!
