//! Big-endian integer fields inside byte buffers.

use vstd::prelude::*;

verus! {

/// The four big-endian bytes of `v`.
pub open spec fn be_bytes_u32(v: u32) -> Seq<u8> {
    seq![
        (v / 0x100_0000) as u8,
        ((v / 0x1_0000) % 0x100) as u8,
        ((v / 0x100) % 0x100) as u8,
        (v % 0x100) as u8,
    ]
}

/// The two big-endian bytes of `v`.
pub open spec fn be_bytes_u16(v: u16) -> Seq<u8> {
    seq![(v / 0x100) as u8, (v % 0x100) as u8]
}

/// The `u32` stored big-endian at `s[off..off + 4]`.
pub open spec fn be_u32_at(s: Seq<u8>, off: int) -> u32 {
    (s[off] as int * 0x100_0000 + s[off + 1] as int * 0x1_0000 + s[off + 2] as int * 0x100
        + s[off + 3] as int) as u32
}

/// The `u16` stored big-endian at `s[off..off + 2]`.
pub open spec fn be_u16_at(s: Seq<u8>, off: int) -> u16 {
    (s[off] as int * 0x100 + s[off + 1] as int) as u16
}

/// Reading back the bytes of a `u32` gives the `u32`.
pub proof fn lemma_be_u32_roundtrip(v: u32)
    ensures
        be_bytes_u32(v).len() == 4,
        be_u32_at(be_bytes_u32(v), 0) == v,
{
    let b = be_bytes_u32(v);
    assert(b[0] as int * 0x100_0000 + b[1] as int * 0x1_0000 + b[2] as int * 0x100 + b[3] as int
        == v as int);
}

/// Writing the `u32` read from four bytes gives those bytes.
pub proof fn lemma_be_u32_bytes_of_value(s: Seq<u8>, off: int)
    requires
        0 <= off,
        off + 4 <= s.len(),
    ensures
        be_bytes_u32(be_u32_at(s, off)) == s.subrange(off, off + 4),
{
    let v = be_u32_at(s, off);
    let (a, b, c, d) = (s[off] as int, s[off + 1] as int, s[off + 2] as int, s[off + 3] as int);
    let x = a * 0x100_0000 + b * 0x1_0000 + c * 0x100 + d;
    assert(0 <= x < 0x1_0000_0000);
    assert(v as int == x);
    lemma_digits(a, b, c, d);
    assert(be_bytes_u32(v) =~= s.subrange(off, off + 4));
}

proof fn lemma_digits(a: int, b: int, c: int, d: int)
    requires
        0 <= a < 256,
        0 <= b < 256,
        0 <= c < 256,
        0 <= d < 256,
    ensures
        ({
            let x = a * 0x100_0000 + b * 0x1_0000 + c * 0x100 + d;
            &&& x / 0x100_0000 == a
            &&& (x / 0x1_0000) % 0x100 == b
            &&& (x / 0x100) % 0x100 == c
            &&& x % 0x100 == d
        }),
{
    let x = a * 0x100_0000 + b * 0x1_0000 + c * 0x100 + d;
    assert(x / 0x100_0000 == a) by (nonlinear_arith)
        requires x == a * 0x100_0000 + b * 0x1_0000 + c * 0x100 + d, 0 <= b < 256, 0 <= c < 256, 0 <= d < 256;
    assert(x / 0x1_0000 == a * 0x100 + b) by (nonlinear_arith)
        requires x == a * 0x100_0000 + b * 0x1_0000 + c * 0x100 + d, 0 <= c < 256, 0 <= d < 256;
    assert((a * 0x100 + b) % 0x100 == b) by (nonlinear_arith)
        requires 0 <= a, 0 <= b < 256;
    assert(x / 0x100 == a * 0x1_0000 + b * 0x100 + c) by (nonlinear_arith)
        requires x == a * 0x100_0000 + b * 0x1_0000 + c * 0x100 + d, 0 <= d < 256;
    assert((a * 0x1_0000 + b * 0x100 + c) % 0x100 == c) by (nonlinear_arith)
        requires 0 <= a, 0 <= b, 0 <= c < 256;
    assert(x % 0x100 == d) by (nonlinear_arith)
        requires x == a * 0x100_0000 + b * 0x1_0000 + c * 0x100 + d, 0 <= a, 0 <= b, 0 <= c, 0 <= d < 256;
}

/// Reads the big-endian `u32` at `s[off..off + 4]`.
pub fn read_u32_be(s: &[u8], off: usize) -> (v: u32)
    requires
        off + 4 <= s@.len(),
    ensures
        v == be_u32_at(s@, off as int),
{
    let x: u64 = s[off] as u64 * 0x100_0000 + s[off + 1] as u64 * 0x1_0000 + s[off + 2] as u64
        * 0x100 + s[off + 3] as u64;
    x as u32
}

/// Reads the big-endian `u16` at `s[off..off + 2]`.
pub fn read_u16_be(s: &[u8], off: usize) -> (v: u16)
    requires
        off + 2 <= s@.len(),
    ensures
        v == be_u16_at(s@, off as int),
{
    let x: u32 = s[off] as u32 * 0x100 + s[off + 1] as u32;
    x as u16
}

/// The four big-endian bytes of `v`.
pub fn u32_to_be(v: u32) -> (b: [u8; 4])
    ensures
        b@ == be_bytes_u32(v),
{
    let b = [(v / 0x100_0000) as u8, ((v / 0x1_0000) % 0x100) as u8, ((v / 0x100) % 0x100) as u8, (v % 0x100) as u8];
    assert(b@ =~= be_bytes_u32(v));
    b
}

/// The two big-endian bytes of `v`.
pub fn u16_to_be(v: u16) -> (b: [u8; 2])
    ensures
        b@ == be_bytes_u16(v),
{
    let b = [(v / 0x100) as u8, (v % 0x100) as u8];
    assert(b@ =~= be_bytes_u16(v));
    b
}

/// Appends the bytes of `s` to `buf`.
pub fn append_bytes(buf: &mut Vec<u8>, s: &[u8])
    ensures
        final(buf)@ == old(buf)@ + s@,
{
    let mut i: usize = 0;
    while i < s.len()
        invariant
            i <= s.len(),
            buf@ == old(buf)@ + s@.subrange(0, i as int),
        decreases s.len() - i,
    {
        buf.push(s[i]);
        i += 1;
        assert(buf@ =~= old(buf)@ + s@.subrange(0, i as int));
    }
    assert(s@.subrange(0, s@.len() as int) =~= s@);
}

/// Appends `n` zero bytes to `buf`.
pub fn append_zeros(buf: &mut Vec<u8>, n: usize)
    ensures
        final(buf)@ == old(buf)@ + Seq::new(n as nat, |i: int| 0u8),
{
    let mut i: usize = 0;
    while i < n
        invariant
            i <= n,
            buf@ == old(buf)@ + Seq::new(i as nat, |k: int| 0u8),
        decreases n - i,
    {
        buf.push(0);
        i += 1;
        assert(buf@ =~= old(buf)@ + Seq::new(i as nat, |k: int| 0u8));
    }
}

/// Whether two byte slices hold the same bytes.
pub fn same_bytes(a: &[u8], b: &[u8]) -> (r: bool)
    ensures
        r == (a@ == b@),
{
    if a.len() != b.len() {
        return false;
    }
    let mut i: usize = 0;
    while i < a.len()
        invariant
            i <= a.len(),
            a@.len() == b@.len(),
            forall|j: int| 0 <= j < i ==> a@[j] == b@[j],
        decreases a.len() - i,
    {
        if a[i] != b[i] {
            return false;
        }
        i += 1;
    }
    assert(a@ =~= b@);
    true
}

} // verus!
