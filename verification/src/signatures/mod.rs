//! ICC four-byte signatures and the enums that name them.

pub mod cmm;
pub mod device_class;
pub mod pcs;
pub mod colorspace;
pub mod tag;
pub mod tag_signature;
pub mod tagtype;
pub mod type_signature;
pub mod platform;

pub use cmm::Cmm;
pub use device_class::DeviceClass;
pub use pcs::Pcs;
pub use colorspace::ColorSpace;
pub use platform::Platform;
pub use tagtype::TagTypeSignature;
pub use type_signature::TypeSignature;

use vstd::prelude::*;
use vstd::string::StrSliceExecFns;

use crate::bytes::{be_bytes_u32, u32_to_be};
use crate::text::{hex_char_upper, hex_digit_upper, push_char};

verus! {

/// A raw four-byte ICC signature, such as a manufacturer or model code.
#[derive(Debug, Clone, Copy, PartialEq, Eq, Hash, Structural)]
pub struct Signature(pub u32);

impl Default for Signature {
    fn default() -> (s: Signature)
        ensures
            s.0 == 0,
    {
        Signature(0)
    }
}

/// True when all four bytes of `code` are ASCII (below 0x80).
pub open spec fn code_is_ascii(code: u32) -> bool {
    forall|i: int| 0 <= i < 4 ==> #[trigger] be_bytes_u32(code)[i] < 0x80
}

/// How a four-byte code is shown: its four characters when all of them are
/// ASCII, and otherwise eight uppercase hexadecimal digits.
pub open spec fn code_text(code: u32) -> Seq<char> {
    if code_is_ascii(code) {
        Seq::new(4, |i: int| be_bytes_u32(code)[i] as char)
    } else {
        hex8_text(code)
    }
}

/// Whether the text that shows a code (see [`code_text`]) is printable ASCII:
/// so for a code with a byte of 0x80 or above, which shows as hex digits, and
/// for four printable ASCII bytes.
pub open spec fn code_text_printable(code: u32) -> bool {
    forall|i: int| 0 <= i < code_text(code).len() ==> 0x20 <= (#[trigger] code_text(code)[i]) as u32 <= 0x7E
}

/// The text of a code is printable exactly when a byte is not ASCII or all
/// four bytes are printable ASCII.
pub proof fn lemma_code_text_printable(code: u32)
    ensures
        code_text_printable(code) == (!code_is_ascii(code) || crate::all_printable_ascii(be_bytes_u32(code))),
{
    let b = be_bytes_u32(code);
    if code_is_ascii(code) {
        let t = code_text(code);
        assert(t.len() == 4);
        if code_text_printable(code) {
            assert forall|i: int| 0 <= i < b.len() implies 0x20 <= #[trigger] b[i] <= 0x7E by {
                assert(t[i] == b[i] as char);
                assert(b[i] < 0x80);
                assert((b[i] as char) as u32 == b[i]);
            }
        }
        if crate::all_printable_ascii(b) {
            assert forall|i: int| 0 <= i < t.len() implies 0x20 <= (#[trigger] t[i]) as u32 <= 0x7E by {
                assert(t[i] == b[i] as char);
                assert(0x20 <= b[i] <= 0x7E);
                assert((b[i] as char) as u32 == b[i]);
            }
        }
    } else {
        let t = code_text(code);
        assert(t == hex8_text(code));
        assert forall|i: int| 0 <= i < t.len() implies 0x20 <= (#[trigger] t[i]) as u32 <= 0x7E by {
            let d = ((code as nat) / pow16((7 - i) as nat)) % 16;
            assert(d < 16);
            assert(t[i] == hex_digit_upper(d));
        }
    }
}

/// The big-endian code of four ASCII characters.
pub open spec fn fourcc(n: (char, char, char, char)) -> u32 {
    ((n.0 as u32) * 0x100_0000 + (n.1 as u32) * 0x1_0000 + (n.2 as u32) * 0x100 + (n.3 as u32)) as u32
}

/// Eight uppercase hexadecimal digits of `code`, most significant first.
pub open spec fn hex8_text(code: u32) -> Seq<char> {
    Seq::new(8, |i: int| hex_digit_upper(((code as nat) / pow16((7 - i) as nat)) % 16))
}

/// `16^e`.
pub open spec fn pow16(e: nat) -> nat
    decreases e,
{
    if e == 0 {
        1
    } else {
        16 * pow16((e - 1) as nat)
    }
}

proof fn lemma_pow16_pos(e: nat)
    ensures
        pow16(e) >= 1,
    decreases e,
{
    if e > 0 {
        lemma_pow16_pos((e - 1) as nat);
    }
}

/// Renders a code as eight uppercase hexadecimal digits (see [`hex8_text`]).
pub fn code_hex_string(code: u32) -> (s: String)
    ensures
        s@ == hex8_text(code),
{
    let mut s = String::new();
    let mut i: usize = 0;
    let mut div: u32 = 0x1000_0000;
    assert(pow16(7) == 0x1000_0000) by {
        reveal_with_fuel(pow16, 8);
    }
    while i < 8
        invariant
            i <= 8,
            i < 8 ==> div as nat == pow16((7 - i) as nat),
            s@ =~= Seq::new(i as nat, |j: int| hex_digit_upper(((code as nat) / pow16((7 - j) as nat)) % 16)),
        decreases 8 - i,
    {
        proof {
            lemma_pow16_pos((7 - i) as nat);
        }
        let d = ((code / div) % 16) as u8;
        push_char(&mut s, hex_char_upper(d));
        if i < 7 {
            assert(pow16((7 - i) as nat) == 16 * pow16((7 - (i + 1)) as nat));
            div = div / 16;
        }
        i += 1;
    }
    s
}

/// Renders a four-byte code as text (see [`code_text`]).
pub fn code_to_string(code: u32) -> (s: String)
    ensures
        s@ == code_text(code),
{
    let b = u32_to_be(code);
    let mut s = String::new();
    if b[0] < 0x80 && b[1] < 0x80 && b[2] < 0x80 && b[3] < 0x80 {
        let mut i: usize = 0;
        while i < 4
            invariant
                i <= 4,
                b@ == be_bytes_u32(code),
                code_is_ascii(code),
                s@ =~= Seq::new(i as nat, |j: int| be_bytes_u32(code)[j] as char),
            decreases 4 - i,
        {
            push_char(&mut s, b[i] as char);
            i += 1;
        }
    } else {
        assert(!code_is_ascii(code));
        s = code_hex_string(code);
    }
    s
}

/// The code that a four-character text names: exactly four ASCII characters,
/// read as big-endian bytes.
pub open spec fn signature_code_of_text(t: Seq<char>) -> Option<u32> {
    if t.len() == 4 && (forall|i: int| 0 <= i < 4 ==> ((#[trigger] t[i]) as u32) < 0x80) {
        Some((t[0] as u32 * 0x100_0000 + t[1] as u32 * 0x1_0000 + t[2] as u32 * 0x100 + t[3] as u32) as u32)
    } else {
        None
    }
}

impl Signature {
    /// Parses a signature from its four ASCII characters, e.g. `"APPL"`;
    /// `None` for any other text.
    pub fn from_text(s: &str) -> (sig: Option<Signature>)
        ensures
            sig == (match signature_code_of_text(s@) {
                Some(c) => Some(Signature(c)),
                None => None::<Signature>,
            }),
    {
        if s.unicode_len() != 4 {
            return None;
        }
        let c0 = s.get_char(0) as u32;
        let c1 = s.get_char(1) as u32;
        let c2 = s.get_char(2) as u32;
        let c3 = s.get_char(3) as u32;
        if c0 < 0x80 && c1 < 0x80 && c2 < 0x80 && c3 < 0x80 {
            assert(forall|i: int| 0 <= i < 4 ==> ((#[trigger] s@[i]) as u32) < 0x80);
            Some(Signature(c0 * 0x100_0000 + c1 * 0x1_0000 + c2 * 0x100 + c3))
        } else {
            None
        }
    }

    /// Shows the signature: four characters when they are ASCII, else eight
    /// uppercase hexadecimal digits.
    pub fn to_string(&self) -> (s: String)
        ensures
            s@ == code_text(self.0),
    {
        code_to_string(self.0)
    }
}

/// Reading back the text of a signature whose four bytes are ASCII gives the
/// signature: `Signature::from_text` undoes `Signature::to_string` for them.
pub proof fn law_signature_text_roundtrip(code: u32)
    requires
        code_is_ascii(code),
    ensures
        signature_code_of_text(code_text(code)) == Some(code),
{
    let b = be_bytes_u32(code);
    let t = code_text(code);
    assert forall|i: int| 0 <= i < 4 implies (#[trigger] t[i]) as u32 == b[i] as u32 by {
        assert(b[i] < 0x80);
    }
    assert(t[0] as u32 == b[0] as u32);
    assert(t[1] as u32 == b[1] as u32);
    assert(t[2] as u32 == b[2] as u32);
    assert(t[3] as u32 == b[3] as u32);
    crate::bytes::lemma_be_u32_roundtrip(code);
}

} // verus!
