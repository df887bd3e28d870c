//! `cmx`: reading, writing and constructing ICC color profiles, with the
//! byte-level logic stated and proved in Verus.

pub mod bytes;
pub mod datetime;
pub mod error;
pub mod header;
pub mod icc;
pub mod language;
pub mod profile;
pub mod signatures;
pub mod tag;
pub mod text;

use vstd::prelude::*;
use vstd::string::StrSliceExecFns;

pub use error::Error;

use crate::text::{hex_digit_lower, push_char};

verus! {

/// Number of zero bytes needed to bring `len` up to a multiple of four.
pub open spec fn spec_pad_size(len: nat) -> nat {
    ((4 - (len % 4)) % 4) as nat
}

/// Number of zero bytes needed to bring `len` up to a multiple of four.
pub fn pad_size(len: usize) -> (pad: usize)
    ensures
        pad == spec_pad_size(len as nat),
        pad < 4,
        (len + pad) % 4 == 0,
{
    let r = len % 4;
    if r == 0 { 0 } else { 4 - r }
}

/// `len` rounded up to the next multiple of four.
pub fn padded_size(len: usize) -> (size: usize)
    requires
        len + 3 <= usize::MAX,
    ensures
        size == len + spec_pad_size(len as nat),
        size % 4 == 0,
        len <= size < len + 4,
{
    len + pad_size(len)
}

/// Whether the text is empty or is `none`; such optional text fields are left
/// out of a text dump.
pub fn is_empty_or_none(s: &String) -> (b: bool)
    ensures
        b == (s@.len() == 0 || s@ == "none"@),
{
    proof {
        reveal_strlit("none");
    }
    let n = s.as_str().unicode_len();
    if n == 0 {
        return true;
    }
    if n != 4 {
        return false;
    }
    let t = s.as_str();
    let r = t.get_char(0) == 'n' && t.get_char(1) == 'o' && t.get_char(2) == 'n' && t.get_char(3) == 'e';
    assert(r ==> s@ =~= "none"@);
    r
}

/// True when every byte is a printable ASCII character (0x20..=0x7E).
pub open spec fn all_printable_ascii(b: Seq<u8>) -> bool {
    forall|i: int| 0 <= i < b.len() ==> 0x20 <= #[trigger] b[i] <= 0x7E
}

/// Checks whether every byte is a printable ASCII character.
pub fn is_printable_ascii_bytes(b: &[u8]) -> (res: bool)
    ensures
        res == all_printable_ascii(b@),
{
    let mut i: usize = 0;
    while i < b.len()
        invariant
            i <= b.len(),
            forall|j: int| 0 <= j < i ==> 0x20 <= #[trigger] b@[j] <= 0x7E,
        decreases b.len() - i,
    {
        if b[i] < 0x20 || b[i] > 0x7E {
            return false;
        }
        i += 1;
    }
    true
}

/// An ICC `s15Fixed16Number`: a signed 32-bit fixed-point value with 16 fractional
/// bits; `raw` is the stored two's-complement value (the number times 65536).
#[derive(Debug, Clone, Copy, PartialEq, Eq, Structural)]
pub struct S15Fixed16 {
    pub raw: i32,
}

impl S15Fixed16 {
    /// The number whose stored value is `raw`.
    pub fn from_raw(raw: i32) -> (s: S15Fixed16)
        ensures
            s.raw == raw,
    {
        S15Fixed16 { raw }
    }
}

/// The lowercase hexadecimal text of `data`: two digits per byte, high nibble first.
pub open spec fn hex_lower_text(data: Seq<u8>) -> Seq<char> {
    Seq::new(
        2 * data.len(),
        |i: int|
            if i % 2 == 0 {
                hex_digit_lower((data[i / 2] / 16) as nat)
            } else {
                hex_digit_lower((data[i / 2] % 16) as nat)
            },
    )
}

/// Encodes bytes as lowercase hexadecimal text (`hex::encode`).
#[verifier::external_body]
pub(crate) fn hex_encode(data: &[u8]) -> (s: String)
    ensures
        s@ == hex_lower_text(data@),
{
    hex::encode(data)
}

/// The first `n` characters of `t`, with a space before every character whose
/// position is a positive multiple of eight.
pub open spec fn grouped_by_eight(t: Seq<char>, n: nat) -> Seq<char>
    decreases n,
{
    if n == 0 {
        Seq::empty()
    } else {
        let i = (n - 1) as int;
        let prev = grouped_by_eight(t, (n - 1) as nat);
        if i > 0 && i % 8 == 0 {
            prev + seq![' ', t[i]]
        } else {
            prev.push(t[i])
        }
    }
}

/// Renders bytes as lowercase hex grouped into 4-byte (8-digit) chunks separated
/// by spaces, e.g. `[0x12, 0x34, 0x56, 0x78, 0x9A, 0xBC]` gives `"12345678 9abc"`.
/// The last chunk is shorter when the length is not a multiple of four.
pub fn format_hex_with_spaces(data: &[u8]) -> (s: String)
    ensures
        s@ == grouped_by_eight(hex_lower_text(data@), hex_lower_text(data@).len()),
{
    let hex = hex_encode(data);
    let t = hex.as_str();
    let n = t.unicode_len();
    let mut out = String::new();
    let mut i: usize = 0;
    while i < n
        invariant
            i <= n,
            n == t@.len(),
            t@ == hex_lower_text(data@),
            out@ == grouped_by_eight(t@, i as nat),
        decreases n - i,
    {
        let c = t.get_char(i);
        if i > 0 && i % 8 == 0 {
            push_char(&mut out, ' ');
            push_char(&mut out, c);
            assert(out@ =~= grouped_by_eight(t@, (i + 1) as nat));
        } else {
            push_char(&mut out, c);
        }
        i += 1;
    }
    out
}

/// Whether `c` is an ASCII hexadecimal digit.
pub open spec fn is_hex_char(c: char) -> bool {
    ('0' <= c <= '9') || ('a' <= c <= 'f') || ('A' <= c <= 'F')
}

/// The hexadecimal digits of `t`, in order, with every other character dropped.
pub open spec fn hex_chars_only(t: Seq<char>) -> Seq<char>
    decreases t.len(),
{
    if t.len() == 0 {
        Seq::empty()
    } else {
        let prev = hex_chars_only(t.drop_last());
        if is_hex_char(t.last()) {
            prev.push(t.last())
        } else {
            prev
        }
    }
}

/// The value of a hexadecimal digit.
pub open spec fn hex_char_value(c: char) -> nat {
    if '0' <= c <= '9' {
        (c as u32 - '0' as u32) as nat
    } else if 'a' <= c <= 'f' {
        (c as u32 - 'a' as u32 + 10) as nat
    } else {
        (c as u32 - 'A' as u32 + 10) as nat
    }
}

/// The bytes that an even-length text of hexadecimal digits stands for.
pub open spec fn hex_decoded(t: Seq<char>) -> Seq<u8> {
    Seq::new(t.len() / 2, |i: int| (hex_char_value(t[2 * i]) * 16 + hex_char_value(t[2 * i + 1])) as u8)
}

#[verifier::external_type_specification]
#[verifier::external_body]
pub struct ExFromHexError(hex::FromHexError);

/// Decodes hexadecimal text (`hex::decode`).  For text made only of hexadecimal
/// digits it fails exactly when the length is odd (`FromHexError::OddLength`, not
/// named here), and otherwise gives one byte per digit pair, high digit first.
#[verifier::external_body]
fn hex_decode(s: &str) -> (res: Result<Vec<u8>, hex::FromHexError>)
    requires
        forall|i: int| 0 <= i < s@.len() ==> is_hex_char(#[trigger] s@[i]),
    ensures
        (s@.len() % 2 == 0) == (res is Ok),
        res matches Ok(v) ==> v@ == hex_decoded(s@),
{
    hex::decode(s)
}

fn is_ascii_hexdigit(c: char) -> (b: bool)
    ensures
        b == is_hex_char(c),
{
    ('0' <= c && c <= '9') || ('a' <= c && c <= 'f') || ('A' <= c && c <= 'F')
}

/// Parses hexadecimal text into bytes, e.g. `"12345678 9abc"` gives
/// `[0x12, 0x34, 0x56, 0x78, 0x9A, 0xBC]`.  Every character that is not a
/// hexadecimal digit (spaces included) is ignored; case does not matter.  Fails
/// when the number of digits is odd.
pub fn parse_hex_string(s: &str) -> (res: Result<Vec<u8>, hex::FromHexError>)
    ensures
        (hex_chars_only(s@).len() % 2 == 0) == (res is Ok),
        res matches Ok(v) ==> v@ == hex_decoded(hex_chars_only(s@)),
{
    let n = s.unicode_len();
    let mut cleaned = String::new();
    let mut i: usize = 0;
    while i < n
        invariant
            i <= n,
            n == s@.len(),
            cleaned@ == hex_chars_only(s@.take(i as int)),
        decreases n - i,
    {
        let c = s.get_char(i);
        assert(s@.take(i + 1).drop_last() =~= s@.take(i as int));
        if is_ascii_hexdigit(c) {
            push_char(&mut cleaned, c);
        }
        i += 1;
    }
    assert(s@.take(n as int) =~= s@);
    proof {
        lemma_hex_chars_only_are_hex(s@);
    }
    hex_decode(cleaned.as_str())
}

proof fn lemma_hex_chars_only_are_hex(t: Seq<char>)
    ensures
        forall|i: int| 0 <= i < hex_chars_only(t).len() ==> is_hex_char(#[trigger] hex_chars_only(t)[i]),
    decreases t.len(),
{
    if t.len() > 0 {
        lemma_hex_chars_only_are_hex(t.drop_last());
        let prev = hex_chars_only(t.drop_last());
        assert forall|i: int| 0 <= i < hex_chars_only(t).len() implies is_hex_char(
            #[trigger] hex_chars_only(t)[i],
        ) by {
            if i < prev.len() {
                assert(hex_chars_only(t)[i] == prev[i]);
            }
        }
    }
}

/// A lowercase hexadecimal digit is a hexadecimal character of that value.
proof fn lemma_hex_digit_lower(x: nat)
    requires
        x < 16,
    ensures
        is_hex_char(crate::text::hex_digit_lower(x)),
        hex_char_value(crate::text::hex_digit_lower(x)) == x,
{
}

/// Dropping the non-digits of digits grouped by eight gives the digits back.
proof fn lemma_grouped_digits(t: Seq<char>, n: nat)
    requires
        n <= t.len(),
        forall|i: int| 0 <= i < t.len() ==> is_hex_char(#[trigger] t[i]),
    ensures
        hex_chars_only(grouped_by_eight(t, n)) == t.take(n as int),
    decreases n,
{
    if n > 0 {
        lemma_grouped_digits(t, (n - 1) as nat);
        let i = (n - 1) as int;
        let prev = grouped_by_eight(t, (n - 1) as nat);
        if i > 0 && i % 8 == 0 {
            let with_space = prev.push(' ');
            assert(with_space.drop_last() =~= prev);
            assert(hex_chars_only(with_space) == hex_chars_only(prev));
            assert(prev + seq![' ', t[i]] =~= with_space.push(t[i]));
            assert(with_space.push(t[i]).drop_last() =~= with_space);
        } else {
            assert(prev.push(t[i]).drop_last() =~= prev);
        }
        assert(t.take(n as int) =~= t.take(i).push(t[i]));
    }
}

/// Parsing the grouped hexadecimal text of some bytes gives the bytes back:
/// `parse_hex_string` undoes `format_hex_with_spaces`.
pub proof fn law_hex_text_roundtrip(data: Seq<u8>)
    ensures
        hex_chars_only(grouped_by_eight(hex_lower_text(data), hex_lower_text(data).len())).len() % 2 == 0,
        hex_decoded(hex_chars_only(grouped_by_eight(hex_lower_text(data), hex_lower_text(data).len())))
            == data,
{
    let t = hex_lower_text(data);
    assert forall|i: int| 0 <= i < t.len() implies is_hex_char(#[trigger] t[i]) by {
        if i % 2 == 0 {
            lemma_hex_digit_lower((data[i / 2] / 16) as nat);
        } else {
            lemma_hex_digit_lower((data[i / 2] % 16) as nat);
        }
    }
    lemma_grouped_digits(t, t.len());
    assert(t.take(t.len() as int) =~= t);
    assert forall|k: int| 0 <= k < data.len() implies hex_decoded(t)[k] == data[k] by {
        lemma_hex_digit_lower((data[k] / 16) as nat);
        lemma_hex_digit_lower((data[k] % 16) as nat);
        assert(t[2 * k] == crate::text::hex_digit_lower((data[(2 * k) / 2] / 16) as nat));
        assert((2 * k) / 2 == k);
        assert((2 * k + 1) / 2 == k);
        assert((2 * k) % 2 == 0);
        assert((2 * k + 1) % 2 == 1);
    }
    assert(hex_decoded(t) =~= data);
}

} // verus!
