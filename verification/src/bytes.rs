//! Little-endian integer access to byte buffers.

use vstd::prelude::*;

verus! {

/// The unsigned 16-bit value stored little-endian at `at`.
pub open spec fn spec_read_u16_le(s: Seq<u8>, at: int) -> u16 {
    (s[at] + 256 * s[at + 1]) as u16
}

/// The unsigned 32-bit value stored little-endian at `at`.
pub open spec fn spec_read_u32_le(s: Seq<u8>, at: int) -> u32 {
    (s[at] + 0x100 * s[at + 1] + 0x1_0000 * s[at + 2] + 0x100_0000 * s[at + 3]) as u32
}

/// The four little-endian bytes of `v`.
pub open spec fn le_bytes_u32(v: u32) -> Seq<u8> {
    seq![
        (v % 0x100) as u8,
        ((v / 0x100) % 0x100) as u8,
        ((v / 0x1_0000) % 0x100) as u8,
        (v / 0x100_0000) as u8,
    ]
}

/// The two little-endian bytes of `v`.
pub open spec fn le_bytes_u16(v: u16) -> Seq<u8> {
    seq![(v % 0x100) as u8, (v / 0x100) as u8]
}

/// `s` with the bytes from `at` on replaced by `bytes`.
pub open spec fn splice(s: Seq<u8>, at: int, bytes: Seq<u8>) -> Seq<u8> {
    s.take(at) + bytes + s.skip(at + bytes.len())
}

/// `s` with `v` written little-endian at `at`.
pub open spec fn spec_write_u16_le(s: Seq<u8>, at: int, v: u16) -> Seq<u8> {
    splice(s, at, le_bytes_u16(v))
}

/// `s` with `v` written little-endian at `at`.
pub open spec fn spec_write_u32_le(s: Seq<u8>, at: int, v: u32) -> Seq<u8> {
    splice(s, at, le_bytes_u32(v))
}

/// Reading back four bytes written little-endian gives the value written.
pub proof fn lemma_u32_le_roundtrip(v: u32)
    ensures
        spec_read_u32_le(le_bytes_u32(v), 0) == v,
{
    let b = le_bytes_u32(v);
    assert(b[0] + 0x100 * b[1] + 0x1_0000 * b[2] + 0x100_0000 * b[3] == v) by (nonlinear_arith)
        requires
            b[0] == v % 0x100,
            b[1] == (v / 0x100) % 0x100,
            b[2] == (v / 0x1_0000) % 0x100,
            b[3] == v / 0x100_0000,
    ;
}

/// Writing back the value read from four bytes reproduces the bytes.
pub proof fn lemma_u32_le_bytes_roundtrip(s: Seq<u8>, at: int)
    requires
        0 <= at,
        at + 4 <= s.len(),
    ensures
        le_bytes_u32(spec_read_u32_le(s, at)) == s.subrange(at, at + 4),
{
    let v = spec_read_u32_le(s, at);
    let (b0, b1, b2, b3) = (s[at], s[at + 1], s[at + 2], s[at + 3]);
    assert(v % 0x100 == b0 && (v / 0x100) % 0x100 == b1 && (v / 0x1_0000) % 0x100 == b2 && v
        / 0x100_0000 == b3) by (nonlinear_arith)
        requires
            v == b0 + 0x100 * b1 + 0x1_0000 * b2 + 0x100_0000 * b3,
            b0 < 0x100,
            b1 < 0x100,
            b2 < 0x100,
            b3 < 0x100,
    ;
    assert(le_bytes_u32(v) =~= s.subrange(at, at + 4));
}

/// Reads the unsigned 16-bit little-endian value at `at`.
pub fn read_u16_le(buf: &[u8], at: usize) -> (v: u16)
    requires
        at + 2 <= buf@.len(),
    ensures
        v == spec_read_u16_le(buf@, at as int),
{
    buf[at] as u16 + 256 * (buf[at + 1] as u16)
}

/// Reads the unsigned 32-bit little-endian value at `at`.
pub fn read_u32_le(buf: &[u8], at: usize) -> (v: u32)
    requires
        at + 4 <= buf@.len(),
    ensures
        v == spec_read_u32_le(buf@, at as int),
{
    buf[at] as u32 + 0x100 * (buf[at + 1] as u32) + 0x1_0000 * (buf[at + 2] as u32) + 0x100_0000
        * (buf[at + 3] as u32)
}

/// Writes `v` little-endian at `at`.
pub fn write_u16_le(buf: &mut Vec<u8>, at: usize, v: u16)
    requires
        at + 2 <= old(buf)@.len(),
    ensures
        final(buf)@ == spec_write_u16_le(old(buf)@, at as int, v),
{
    let len = buf.len();
    assert(at + 2 <= len);
    buf[at] = (v % 0x100) as u8;
    buf[at + 1] = (v / 0x100) as u8;
    assert(buf@ =~= spec_write_u16_le(old(buf)@, at as int, v));
}

/// Writes `v` little-endian at `at`.
pub fn write_u32_le(buf: &mut Vec<u8>, at: usize, v: u32)
    requires
        at + 4 <= old(buf)@.len(),
    ensures
        final(buf)@ == spec_write_u32_le(old(buf)@, at as int, v),
{
    let len = buf.len();
    assert(at + 4 <= len);
    buf[at] = (v % 0x100) as u8;
    buf[at + 1] = ((v / 0x100) % 0x100) as u8;
    buf[at + 2] = ((v / 0x1_0000) % 0x100) as u8;
    buf[at + 3] = (v / 0x100_0000) as u8;
    assert(buf@ =~= spec_write_u32_le(old(buf)@, at as int, v));
}

/// Copies `src` into `dst` from index `at` on.
pub fn copy_into(dst: &mut Vec<u8>, at: usize, src: &[u8])
    requires
        at + src@.len() <= old(dst)@.len(),
    ensures
        final(dst)@ == splice(old(dst)@, at as int, src@),
{
    let n = src.len();
    let total = dst.len();
    let ghost orig = dst@;
    for j in 0..n
        invariant
            n == src@.len(),
            at + n <= orig.len(),
            total == orig.len(),
            dst@ == splice(orig, at as int, src@.take(j as int)),
    {
        dst[at + j] = src[j];
        assert(dst@ =~= splice(orig, at as int, src@.take(j + 1)));
    }
    assert(src@.take(n as int) =~= src@);
}

/// Whether `a` and `b` hold the same bytes.
pub fn bytes_equal(a: &[u8], b: &[u8]) -> (same: bool)
    ensures
        same == (a@ == b@),
{
    if a.len() != b.len() {
        return false;
    }
    for j in 0..a.len()
        invariant
            a@.len() == b@.len(),
            forall|i: int| 0 <= i < j ==> a@[i] == b@[i],
    {
        if a[j] != b[j] {
            return false;
        }
    }
    assert(a@ =~= b@);
    true
}

} // verus!
