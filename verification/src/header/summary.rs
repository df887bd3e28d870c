//! The header of a profile as text fields, for a readable dump of a profile.

use vstd::prelude::*;

use crate::bytes::be_u32_at;
use crate::datetime::{utc_date_time_string, utc_text, valid_date_time, DateTimeNumber};
use crate::header::{be_u64_at, creation_of, is_supported_version, profile_id_of, version_of_code};
use crate::profile::RawProfile;
use crate::signatures::{code_text, code_text_printable, Cmm, ColorSpace, DeviceClass, Pcs, Platform, Signature};
use crate::tag::RenderingIntent;
use crate::text::{decimal_text, push_char, push_decimal};
use crate::{hex_encode, hex_lower_text, S15Fixed16};
use crate::bytes::be_bytes_u32;

verus! {

/// The header fields of a profile as text, as a readable dump shows them.
#[derive(Debug, Clone)]
pub struct Header {
    pub profile_size: u32,
    pub cmm: Option<String>,
    pub version: String,
    pub device_class: String,
    pub color_space: Option<String>,
    pub pcs: String,
    pub creation_datetime: String,
    pub primary_platform: Option<String>,
    pub embedded: bool,
    pub use_embedded_only: bool,
    pub manufacturer: Option<String>,
    pub model: String,
    pub attributes: String,
    pub rendering_intent: String,
    pub pcs_illuminant: [S15Fixed16; 3],
    pub creator: Option<String>,
    pub profile_id: String,
}

/// `major.minor`.
pub open spec fn version_text(major: u8, minor: u8) -> Seq<char> {
    decimal_text(major as nat) + seq!['.'] + decimal_text(minor as nat)
}

/// The names of the device attributes that are set: transparency (bit 0),
/// matte (bit 1), negative (bit 2) and black and white (bit 3).
pub open spec fn attribute_names(a: u64) -> Seq<Seq<char>> {
    (if a & 1 != 0 {
        seq!["Transparency"@]
    } else {
        Seq::empty()
    }) + (if a & 2 != 0 {
        seq!["Matte"@]
    } else {
        Seq::empty()
    }) + (if a & 4 != 0 {
        seq!["Negative"@]
    } else {
        Seq::empty()
    }) + (if a & 8 != 0 {
        seq!["BlackAndWhite"@]
    } else {
        Seq::empty()
    })
}

/// Each device attribute is named exactly when its bit is set: `Transparency`
/// for bit 0, `Matte` for bit 1, `Negative` for bit 2 and `BlackAndWhite` for
/// bit 3; no other name occurs, and the names come in that order.
pub proof fn law_attribute_names_follow_bits(a: u64)
    ensures
        attribute_names(a).contains("Transparency"@) <==> a & 1 != 0,
        attribute_names(a).contains("Matte"@) <==> a & 2 != 0,
        attribute_names(a).contains("Negative"@) <==> a & 4 != 0,
        attribute_names(a).contains("BlackAndWhite"@) <==> a & 8 != 0,
        forall|i: int|
            0 <= i < attribute_names(a).len() ==> #[trigger] attribute_names(a)[i] == "Transparency"@
                || attribute_names(a)[i] == "Matte"@ || attribute_names(a)[i] == "Negative"@
                || attribute_names(a)[i] == "BlackAndWhite"@,
        attribute_names(a).len() == (if a & 1 != 0 { 1int } else { 0 }) + (if a & 2 != 0 { 1int } else { 0 })
            + (if a & 4 != 0 { 1int } else { 0 }) + (if a & 8 != 0 { 1int } else { 0 }),
{
    reveal_strlit("Transparency");
    reveal_strlit("Matte");
    reveal_strlit("Negative");
    reveal_strlit("BlackAndWhite");
    let t = "Transparency"@;
    let m = "Matte"@;
    let n = "Negative"@;
    let k = "BlackAndWhite"@;
    assert(t.len() == 12 && m.len() == 5 && n.len() == 8 && k.len() == 13);
    let s0: Seq<Seq<char>> = if a & 1 != 0 { seq![t] } else { Seq::empty() };
    let s1: Seq<Seq<char>> = if a & 2 != 0 { seq![m] } else { Seq::empty() };
    let s2: Seq<Seq<char>> = if a & 4 != 0 { seq![n] } else { Seq::empty() };
    let s3: Seq<Seq<char>> = if a & 8 != 0 { seq![k] } else { Seq::empty() };
    let all = attribute_names(a);
    assert(all == s0 + s1 + s2 + s3);
    assert forall|x: Seq<char>| all.contains(x) <==> (s0.contains(x) || s1.contains(x) || s2.contains(x) || s3.contains(x)) by {
        if all.contains(x) {
            let i = choose|i: int| 0 <= i < all.len() && all[i] == x;
            if i < s0.len() {
                assert(s0[i] == x);
            } else if i < s0.len() + s1.len() {
                assert(s1[i - s0.len()] == x);
            } else if i < s0.len() + s1.len() + s2.len() {
                assert(s2[i - s0.len() - s1.len()] == x);
            } else {
                assert(s3[i - s0.len() - s1.len() - s2.len()] == x);
            }
        }
        if s0.contains(x) {
            let i = choose|i: int| 0 <= i < s0.len() && s0[i] == x;
            assert(all[i] == x);
        }
        if s1.contains(x) {
            let i = choose|i: int| 0 <= i < s1.len() && s1[i] == x;
            assert(all[s0.len() + i] == x);
        }
        if s2.contains(x) {
            let i = choose|i: int| 0 <= i < s2.len() && s2[i] == x;
            assert(all[s0.len() + s1.len() + i] == x);
        }
        if s3.contains(x) {
            let i = choose|i: int| 0 <= i < s3.len() && s3[i] == x;
            assert(all[s0.len() + s1.len() + s2.len() + i] == x);
        }
    }
    if a & 1 != 0 { assert(s0[0] == t); }
    if a & 2 != 0 { assert(s1[0] == m); }
    if a & 4 != 0 { assert(s2[0] == n); }
    if a & 8 != 0 { assert(s3[0] == k); }
    assert forall|i: int| 0 <= i < all.len() implies #[trigger] all[i] == t || all[i] == m || all[i] == n || all[i] == k by {
        assert(all.contains(all[i]));
        let x = all[i];
        if s0.contains(x) { let j = choose|j: int| 0 <= j < s0.len() && s0[j] == x; }
        if s1.contains(x) { let j = choose|j: int| 0 <= j < s1.len() && s1[j] == x; }
        if s2.contains(x) { let j = choose|j: int| 0 <= j < s2.len() && s2[j] == x; }
        if s3.contains(x) { let j = choose|j: int| 0 <= j < s3.len() && s3[j] == x; }
    }
}

/// The parts joined with `, `.
pub open spec fn joined(parts: Seq<Seq<char>>) -> Seq<char>
    decreases parts.len(),
{
    if parts.len() == 0 {
        Seq::empty()
    } else if parts.len() == 1 {
        parts[0]
    } else {
        joined(parts.drop_last()) + ", "@ + parts.last()
    }
}

/// The profile ID as lowercase hex, or empty when it is all zero.
pub open spec fn profile_id_text(id: Seq<u8>) -> Seq<char> {
    if forall|i: int| 0 <= i < id.len() ==> id[i] == 0 {
        Seq::empty()
    } else {
        hex_lower_text(id)
    }
}

/// Appends `part` to a `, `-joined list.
fn push_part(s: &mut String, parts: Ghost<Seq<Seq<char>>>, part: &str, first: bool)
    requires
        old(s)@ == joined(parts@),
        first == (parts@.len() == 0),
    ensures
        final(s)@ == joined(parts@.push(part@)),
{
    let ghost all = parts@.push(part@);
    assert(all.drop_last() =~= parts@);
    if !first {
        push_char(s, ',');
        push_char(s, ' ');
        proof {
            reveal_strlit(", ");
        }
    }
    let n = part.unicode_len();
    let ghost before = s@;
    let mut i: usize = 0;
    while i < n
        invariant
            i <= n,
            n == part@.len(),
            s@ == before + part@.subrange(0, i as int),
        decreases n - i,
    {
        push_char(s, part.get_char(i));
        i += 1;
        assert(s@ =~= before + part@.subrange(0, i as int));
    }
    assert(part@.subrange(0, n as int) =~= part@);
    assert(s@ =~= joined(all));
}

/// The names of the device attributes that are set, joined with `, `.
fn attributes_text(a: u64) -> (s: String)
    ensures
        s@ == joined(attribute_names(a)),
{
    let mut s = String::new();
    let ghost mut parts: Seq<Seq<char>> = Seq::empty();
    let mut first = true;
    assert(s@ =~= joined(parts));
    if a & 1 != 0 {
        push_part(&mut s, Ghost(parts), "Transparency", first);
        proof {
            parts = parts.push("Transparency"@);
        }
        first = false;
    }
    if a & 2 != 0 {
        push_part(&mut s, Ghost(parts), "Matte", first);
        proof {
            parts = parts.push("Matte"@);
        }
        first = false;
    }
    if a & 4 != 0 {
        push_part(&mut s, Ghost(parts), "Negative", first);
        proof {
            parts = parts.push("Negative"@);
        }
        first = false;
    }
    if a & 8 != 0 {
        push_part(&mut s, Ghost(parts), "BlackAndWhite", first);
        proof {
            parts = parts.push("BlackAndWhite"@);
        }
        first = false;
    }
    assert(parts =~= attribute_names(a));
    s
}

impl Header {
    /// The header fields of a profile as text.  The version and the connection
    /// space must be known ones and the creation date and time valid.
    pub fn from_raw(raw: &RawProfile) -> (h: Header)
        requires
            is_supported_version(version_of_code(be_u32_at(raw.header@, 8)).0, version_of_code(
                be_u32_at(raw.header@, 8),
            ).1),
            Pcs::from_code(be_u32_at(raw.header@, 20)) is Some,
            valid_date_time(creation_of(raw.header@)),
        ensures
            ({
                let hd = raw.header@;
                &&& h.profile_size == be_u32_at(hd, 0)
                &&& match Cmm::from_code(be_u32_at(hd, 4)) {
                    Some(c) => h.cmm matches Some(s) && s@ == c.name(),
                    None => h.cmm is None,
                }
                &&& h.version@ == version_text(
                    version_of_code(be_u32_at(hd, 8)).0,
                    version_of_code(be_u32_at(hd, 8)).1,
                )
                &&& h.device_class@ == DeviceClass::from_code(be_u32_at(hd, 12)).name()
                &&& match ColorSpace::from_code(be_u32_at(hd, 16)) {
                    Some(c) => h.color_space matches Some(s) && s@ == c.name(),
                    None => h.color_space is None,
                }
                &&& h.pcs@ == Pcs::from_code(be_u32_at(hd, 20))->0.name()
                &&& h.creation_datetime@ == utc_text(
                    creation_of(hd).year,
                    creation_of(hd).month,
                    creation_of(hd).day,
                    creation_of(hd).hours,
                    creation_of(hd).minutes,
                    creation_of(hd).seconds,
                )
                &&& match Platform::from_code(be_u32_at(hd, 40)) {
                    Some(c) => h.primary_platform matches Some(s) && s@ == c.name(),
                    None => h.primary_platform is None,
                }
                &&& h.embedded == (be_u32_at(hd, 44) % 2 == 1)
                &&& h.use_embedded_only == ((be_u32_at(hd, 44) / 2) % 2 == 1)
                &&& if code_text_printable(be_u32_at(hd, 48)) {
                    h.manufacturer matches Some(s) && s@ == code_text(be_u32_at(hd, 48))
                } else {
                    h.manufacturer is None
                }
                &&& h.model@ == (if be_u32_at(hd, 52) == 0 {
                    Seq::<char>::empty()
                } else {
                    code_text(be_u32_at(hd, 52))
                })
                &&& h.attributes@ == joined(attribute_names(be_u64_at(hd, 56)))
                &&& h.rendering_intent@ == RenderingIntent::from_code(be_u32_at(hd, 64)).name()
                &&& h.pcs_illuminant[0].raw == be_u32_at(hd, 68) as i32
                &&& h.pcs_illuminant[1].raw == be_u32_at(hd, 72) as i32
                &&& h.pcs_illuminant[2].raw == be_u32_at(hd, 76) as i32
                &&& if be_u32_at(hd, 80) == 0 {
                    h.creator is None
                } else {
                    h.creator matches Some(s) && s@ == code_text(be_u32_at(hd, 80))
                }
                &&& h.profile_id@ == profile_id_text(profile_id_of(hd))
            }),
    {
        let (major, minor) = match raw.version() {
            Ok(v) => v,
            Err(_) => {
                proof {
                    assert(false);
                }
                (0, 0)
            },
        };
        let mut version = String::new();
        push_decimal(&mut version, major as u32);
        push_char(&mut version, '.');
        push_decimal(&mut version, minor as u32);
        assert(version@ =~= version_text(major, minor));
        let (embedded, use_embedded_only) = raw.flags();
        let id = raw.profile_id();
        let mut all_zero = true;
        let mut i: usize = 0;
        while i < 16
            invariant
                i <= 16,
                id@.len() == 16,
                all_zero == (forall|j: int| 0 <= j < i ==> id@[j] == 0),
            decreases 16 - i,
        {
            if id[i] != 0 {
                all_zero = false;
            }
            i += 1;
        }
        let profile_id = if all_zero {
            String::new()
        } else {
            hex_encode(id.as_slice())
        };
        let model_code = raw.model();
        let model = if model_code.0 == 0 {
            String::new()
        } else {
            model_code.to_string()
        };
        let manufacturer = match raw.manufacturer() {
            Some(m) => Some(m.to_string()),
            None => None,
        };
        let cmm = match raw.cmm() {
            Some(c) => Some(c.to_string()),
            None => None,
        };
        let color_space = match raw.data_color_space() {
            Some(c) => Some(c.to_string()),
            None => None,
        };
        let pcs = match raw.pcs() {
            Some(p) => p.to_string(),
            None => {
                proof {
                    assert(false);
                }
                String::new()
            },
        };
        let creation_datetime = match raw.creation_date() {
            Ok(d) => utc_date_time_string(d.year, d.month, d.day, d.hours, d.minutes, d.seconds),
            Err(_) => {
                proof {
                    assert(false);
                }
                String::new()
            },
        };
        let primary_platform = match raw.primary_platform() {
            Some(p) => Some(p.to_string()),
            None => None,
        };
        let creator = match raw.creator() {
            Some(c) => Some(c.to_string()),
            None => None,
        };
        Header {
            profile_size: raw.profile_size() as u32,
            cmm,
            version,
            device_class: raw.device_class().to_string(),
            color_space,
            pcs,
            creation_datetime,
            primary_platform,
            embedded,
            use_embedded_only,
            manufacturer,
            model,
            attributes: attributes_text(raw.attributes()),
            rendering_intent: raw.rendering_intent().to_string(),
            pcs_illuminant: raw.pcs_illuminant_s15(),
            creator,
            profile_id,
        }
    }
}

} // verus!
