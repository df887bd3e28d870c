//! ISO 639-1 language and ISO 3166-1 country codes, as ICC multi-localized
//! text records hold them.

use vstd::prelude::*;

use crate::bytes::{be_bytes_u32, u32_to_be};
use crate::text::{decode_utf8, push_char, utf8_decode};

verus! {

/// An ISO 639-1 language and ISO 3166-1 country code pair.
#[derive(Debug, Clone, PartialEq, Eq)]
pub struct Language {
    /// 2-character language code (e.g., "en").
    pub language: [u8; 2],
    /// 2-character country code (e.g., "US").
    pub country: [u8; 2],
}

impl Default for Language {
    /// The undefined language: all four bytes zero.
    fn default() -> (l: Self)
        ensures
            l.language@ == seq![0u8, 0u8],
            l.country@ == seq![0u8, 0u8],
    {
        Language { language: [0, 0], country: [0, 0] }
    }
}

impl TryFrom<u32> for Language {
    type Error = &'static str;

    /// Splits a four-byte code, e.g. `0x656E5553`, into language `en` and country
    /// `US`; zero is the undefined language and is refused.
    fn try_from(value: u32) -> (r: Result<Self, &'static str>) {
        if value == 0 {
            return Err("Language code is undefined (0)");
        }
        let bytes = u32_to_be(value);
        Ok(Language { language: [bytes[0], bytes[1]], country: [bytes[2], bytes[3]] })
    }
}

impl vstd::std_specs::convert::TryFromSpecImpl<u32> for Language {
    open spec fn obeys_try_from_spec() -> bool {
        true
    }

    open spec fn try_from_spec(value: u32) -> Result<Self, &'static str> {
        if value == 0 {
            Err("Language code is undefined (0)")
        } else {
            let b = be_bytes_u32(value);
            Ok(Language { language: [b[0], b[1]], country: [b[2], b[3]] })
        }
    }
}

/// The text of a two-byte code: its characters when they are UTF-8, else `??`.
pub open spec fn code_pair_text(b: Seq<u8>) -> Seq<char> {
    match utf8_decode(b) {
        Some(t) => t,
        None => seq!['?', '?'],
    }
}

/// The text of a language: `undefined` when the language bytes are zero, else
/// `language-COUNTRY`.
pub open spec fn language_text(l: Language) -> Seq<char> {
    if l.language@ == seq![0u8, 0u8] {
        "undefined"@
    } else {
        code_pair_text(l.language@) + seq!['-'] + code_pair_text(l.country@)
    }
}

/// Appends all characters of `t` to `s`.
fn push_text(s: &mut String, t: &String)
    ensures
        final(s)@ == old(s)@ + t@,
{
    let n = t.unicode_len();
    let mut i: usize = 0;
    while i < n
        invariant
            i <= n,
            n == t@.len(),
            s@ == old(s)@ + t@.subrange(0, i as int),
        decreases n - i,
    {
        push_char(s, t.get_char(i));
        i += 1;
        assert(s@ =~= old(s)@ + t@.subrange(0, i as int));
    }
    assert(t@.subrange(0, n as int) =~= t@);
}

/// Appends the text of a two-byte code (see [`code_pair_text`]).
fn push_code_pair(s: &mut String, b: &[u8; 2])
    ensures
        final(s)@ == old(s)@ + code_pair_text(b@),
{
    match decode_utf8(b) {
        Some(t) => push_text(s, &t),
        None => {
            push_char(s, '?');
            push_char(s, '?');
            assert(old(s)@.push('?').push('?') =~= old(s)@ + seq!['?', '?']);
        },
    }
}

impl Language {
    /// The language as text, e.g. `en-US`; `undefined` for the undefined
    /// language, and `??` for a code that is not UTF-8.
    pub fn to_string(&self) -> (s: String)
        ensures
            s@ == language_text(*self),
    {
        if self.language[0] == 0 && self.language[1] == 0 {
            proof {
                reveal_strlit("undefined");
            }
            assert(self.language@ =~= seq![0u8, 0u8]);
            return <String as vstd::string::StringExecFns>::from_str("undefined");
        }
        assert(self.language@ != seq![0u8, 0u8]);
        let mut s = String::new();
        push_code_pair(&mut s, &self.language);
        push_char(&mut s, '-');
        push_code_pair(&mut s, &self.country);
        assert(s@ =~= language_text(*self));
        s
    }
}

} // verus!
