//! Building the short texts that the library reports: decimal numbers,
//! hexadecimal digits and four-character codes.

use vstd::prelude::*;

verus! {

/// Appends one character to a `String` (std's `String::push`).
#[verifier::external_body]
pub(crate) fn push_char(s: &mut String, c: char)
    ensures
        final(s)@ == old(s)@.push(c),
{
    s.push(c);
}

/// Every byte is below 0x80.
pub open spec fn all_ascii(b: Seq<u8>) -> bool {
    forall|i: int| 0 <= i < b.len() ==> b[i] < 0x80
}

/// The characters that ASCII bytes stand for.
pub open spec fn ascii_chars(b: Seq<u8>) -> Seq<char> {
    b.map_values(|x: u8| x as char)
}

/// What `std::str::from_utf8` gives for a byte sequence: its characters when
/// the bytes are well-formed UTF-8, and nothing otherwise.
pub uninterp spec fn utf8_decode(b: Seq<u8>) -> Option<Seq<char>>;

/// Decodes UTF-8 text (`std::str::from_utf8`) into a `String`; `None` when the
/// bytes are not well-formed UTF-8.  Bytes below 0x80 are ASCII characters that
/// stand for themselves, as the documentation of UTF-8 decoding states.
#[verifier::external_body]
pub(crate) fn decode_utf8(b: &[u8]) -> (r: Option<String>)
    ensures
        r matches Some(s) ==> utf8_decode(b@) == Some(s@),
        r is None ==> utf8_decode(b@) is None,
        r matches Some(s) ==> (all_ascii(b@) ==> s@ == ascii_chars(b@)),
        r is None ==> !all_ascii(b@),
{
    std::str::from_utf8(b).ok().map(|s| s.to_owned())
}

/// What `String::from_utf8_lossy` gives for a byte sequence: its text, with
/// each ill-formed part replaced by U+FFFD.
pub uninterp spec fn utf8_lossy(b: Seq<u8>) -> Seq<char>;

/// Decodes UTF-8 text, replacing ill-formed parts (`String::from_utf8_lossy`).
/// ASCII bytes stand for themselves.
#[verifier::external_body]
pub(crate) fn decode_utf8_lossy(b: &[u8]) -> (s: String)
    ensures
        s@ == utf8_lossy(b@),
        all_ascii(b@) ==> s@ == ascii_chars(b@),
{
    String::from_utf8_lossy(b).into_owned()
}

/// The decimal digit character for `d < 10`.
pub open spec fn decimal_digit(d: nat) -> char {
    ('0' as u32 + d) as char
}

/// The decimal representation of `n`, without leading zeros ("0" for zero).
pub open spec fn decimal_text(n: nat) -> Seq<char>
    decreases n,
{
    if n < 10 {
        seq![decimal_digit(n)]
    } else {
        decimal_text(n / 10).push(decimal_digit(n % 10))
    }
}

/// A lowercase hexadecimal digit for `d < 16`.
pub open spec fn hex_digit_lower(d: nat) -> char {
    if d < 10 {
        ('0' as u32 + d) as char
    } else {
        ('a' as u32 + (d - 10)) as char
    }
}

/// An uppercase hexadecimal digit for `d < 16`.
pub open spec fn hex_digit_upper(d: nat) -> char {
    if d < 10 {
        ('0' as u32 + d) as char
    } else {
        ('A' as u32 + (d - 10)) as char
    }
}

fn digit_char(d: u32) -> (c: char)
    requires
        d < 10,
    ensures
        c == decimal_digit(d as nat),
{
    match d {
        0 => '0',
        1 => '1',
        2 => '2',
        3 => '3',
        4 => '4',
        5 => '5',
        6 => '6',
        7 => '7',
        8 => '8',
        _ => '9',
    }
}

/// The lowercase hexadecimal digit for `d < 16`.
pub fn hex_char_lower(d: u8) -> (c: char)
    requires
        d < 16,
    ensures
        c == hex_digit_lower(d as nat),
{
    match d {
        0 => '0',
        1 => '1',
        2 => '2',
        3 => '3',
        4 => '4',
        5 => '5',
        6 => '6',
        7 => '7',
        8 => '8',
        9 => '9',
        10 => 'a',
        11 => 'b',
        12 => 'c',
        13 => 'd',
        14 => 'e',
        _ => 'f',
    }
}

/// The uppercase hexadecimal digit for `d < 16`.
pub fn hex_char_upper(d: u8) -> (c: char)
    requires
        d < 16,
    ensures
        c == hex_digit_upper(d as nat),
{
    match d {
        0 => '0',
        1 => '1',
        2 => '2',
        3 => '3',
        4 => '4',
        5 => '5',
        6 => '6',
        7 => '7',
        8 => '8',
        9 => '9',
        10 => 'A',
        11 => 'B',
        12 => 'C',
        13 => 'D',
        14 => 'E',
        _ => 'F',
    }
}

/// Appends the decimal representation of `n` to `s`.
pub fn push_decimal(s: &mut String, n: u32)
    ensures
        final(s)@ == old(s)@ + decimal_text(n as nat),
    decreases n,
{
    if n < 10 {
        push_char(s, digit_char(n));
        assert(old(s)@.push(decimal_digit(n as nat)) =~= old(s)@ + seq![decimal_digit(n as nat)]);
    } else {
        push_decimal(s, n / 10);
        push_char(s, digit_char(n % 10));
        assert(old(s)@ + decimal_text((n / 10) as nat).push(decimal_digit((n % 10) as nat))
            =~= (old(s)@ + decimal_text((n / 10) as nat)).push(decimal_digit((n % 10) as nat)));
    }
}

/// Why text is not a number, as `u32::from_str_radix` reports it.
#[derive(Debug, Clone, Copy, PartialEq, Eq, Structural)]
pub enum IntParseError {
    /// The text is empty.
    Empty,
    /// A character is not a digit of the radix (a sign alone counts as one).
    InvalidDigit,
    /// The number does not fit.
    PosOverflow,
}

impl IntParseError {
    /// The message of the error.
    pub open spec fn message(self) -> Seq<char> {
        match self {
            IntParseError::Empty => "cannot parse integer from empty string"@,
            IntParseError::InvalidDigit => "invalid digit found in string"@,
            IntParseError::PosOverflow => "number too large to fit in target type"@,
        }
    }

    /// The message of the error, as text.
    pub fn to_string(&self) -> (s: String)
        ensures
            s@ == self.message(),
    {
        match self {
            IntParseError::Empty => <String as vstd::string::StringExecFns>::from_str(
                "cannot parse integer from empty string",
            ),
            IntParseError::InvalidDigit => <String as vstd::string::StringExecFns>::from_str(
                "invalid digit found in string",
            ),
            IntParseError::PosOverflow => <String as vstd::string::StringExecFns>::from_str(
                "number too large to fit in target type",
            ),
        }
    }
}

/// The value of a hexadecimal digit, either case.
pub open spec fn hex_digit_value(c: char) -> Option<nat> {
    if '0' <= c <= '9' {
        Some((c as nat - '0' as nat) as nat)
    } else if 'a' <= c <= 'f' {
        Some((c as nat - 'a' as nat + 10) as nat)
    } else if 'A' <= c <= 'F' {
        Some((c as nat - 'A' as nat + 10) as nat)
    } else {
        None
    }
}

/// Reading the first `k` digits left to right: the value so far, or the first
/// problem met (a non-digit, or a value beyond `u32`).
pub open spec fn hex_scan(d: Seq<char>, k: nat) -> Result<nat, IntParseError>
    decreases k,
{
    if k == 0 {
        Ok(0)
    } else {
        match hex_scan(d, (k - 1) as nat) {
            Err(e) => Err(e),
            Ok(v) => match hex_digit_value(d[k - 1]) {
                None => Err(IntParseError::InvalidDigit),
                Some(x) => if 16 * v + x > u32::MAX {
                    Err(IntParseError::PosOverflow)
                } else {
                    Ok(16 * v + x)
                },
            },
        }
    }
}

/// Hexadecimal text as a `u32`: an optional leading `+`, then digits.
pub open spec fn hex_u32_of(s: Seq<char>) -> Result<u32, IntParseError> {
    if s.len() == 0 {
        Err(IntParseError::Empty)
    } else if s.len() == 1 && (s[0] == '+' || s[0] == '-') {
        Err(IntParseError::InvalidDigit)
    } else {
        let d = if s[0] == '+' {
            s.skip(1)
        } else {
            s
        };
        match hex_scan(d, d.len()) {
            Ok(v) => Ok(v as u32),
            Err(e) => Err(e),
        }
    }
}

/// The value of a hexadecimal digit character.
fn hex_digit_of(c: char) -> (r: Option<u32>)
    ensures
        match hex_digit_value(c) {
            Some(x) => r == Some(x as u32),
            None => r is None,
        },
{
    if '0' <= c && c <= '9' {
        Some(c as u32 - '0' as u32)
    } else if 'a' <= c && c <= 'f' {
        Some(c as u32 - 'a' as u32 + 10)
    } else if 'A' <= c && c <= 'F' {
        Some(c as u32 - 'A' as u32 + 10)
    } else {
        None
    }
}

/// Parses hexadecimal text as a `u32`, as `u32::from_str_radix(s, 16)` does.
pub fn parse_hex_u32(s: &str) -> (r: Result<u32, IntParseError>)
    ensures
        r == hex_u32_of(s@),
{
    let n = s.unicode_len();
    if n == 0 {
        return Err(IntParseError::Empty);
    }
    let c0 = s.get_char(0);
    if n == 1 && (c0 == '+' || c0 == '-') {
        return Err(IntParseError::InvalidDigit);
    }
    let start: usize = if c0 == '+' { 1 } else { 0 };
    let ghost d = if s@[0] == '+' { s@.skip(1) } else { s@ };
    assert(d.len() == n - start);
    assert(hex_u32_of(s@) == match hex_scan(d, d.len()) {
        Ok(v) => Ok::<u32, IntParseError>(v as u32),
        Err(e) => Err(e),
    });
    let mut v: u32 = 0;
    let mut i: usize = start;
    while i < n
        invariant
            start <= i <= n,
            hex_u32_of(s@) == match hex_scan(d, d.len()) {
                Ok(v) => Ok::<u32, IntParseError>(v as u32),
                Err(e) => Err(e),
            },
            n == s@.len(),
            d.len() == n - start,
            forall|j: int| 0 <= j < d.len() ==> #[trigger] d[j] == s@[j + start],
            hex_scan(d, (i - start) as nat) == Ok::<nat, IntParseError>(v as nat),
        decreases n - i,
    {
        let c = s.get_char(i);
        let ghost k: nat = (i - start) as nat;
        assert(d[k as int] == c);
        match hex_digit_of(c) {
            None => {
                assert(hex_scan(d, k + 1) == Err::<nat, IntParseError>(IntParseError::InvalidDigit));
                proof {
                    lemma_hex_scan_stays_failed(d, k + 1, d.len());
                }
                return Err(IntParseError::InvalidDigit);
            },
            Some(x) => {
                if v > 0x0FFF_FFFF || (v == 0x0FFF_FFFF && x > 0xF) {
                    assert(hex_scan(d, k + 1) == Err::<nat, IntParseError>(IntParseError::PosOverflow));
                    proof {
                        lemma_hex_scan_stays_failed(d, k + 1, d.len());
                    }
                    return Err(IntParseError::PosOverflow);
                }
                v = v * 16 + x;
            },
        }
        i += 1;
    }
    Ok(v)
}

/// Once reading the digits has failed, it stays failed with the same error.
proof fn lemma_hex_scan_stays_failed(d: Seq<char>, k: nat, m: nat)
    requires
        k <= m,
        hex_scan(d, k) is Err,
    ensures
        hex_scan(d, m) == hex_scan(d, k),
    decreases m - k,
{
    if k < m {
        lemma_hex_scan_stays_failed(d, k, (m - 1) as nat);
    }
}

} // verus!
