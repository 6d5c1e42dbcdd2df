//! Reading bit fields out of a byte buffer, in either bit order.

use vstd::arithmetic::power2::*;
use vstd::bits::{lemma_u64_pow2_no_overflow, lemma_u64_shl_is_mul};
use vstd::prelude::*;

verus! {

/// The order in which the bits of a field are laid out in the buffer.
#[derive(Clone, Copy, Debug, PartialEq, Eq, Structural)]
pub enum BitOrder {
    /// Bit `k` of the stream is bit `k % 8` of byte `k / 8`, counted from the least
    /// significant end; a field's first bit is its least significant one (LandSandBoat).
    Lsb,
    /// Bit `k` of the stream is bit `7 - k % 8` of byte `k / 8`; a field's first bit is its
    /// most significant one (Horizon XI).
    Msb,
}

/// Byte `i` of `buf`, where bytes past the end read as zero.
pub open spec fn byte_at(buf: Seq<u8>, i: int) -> u8 {
    if 0 <= i < buf.len() {
        buf[i]
    } else {
        0
    }
}

/// Bit `k` of the stream in least-significant-first order.
pub open spec fn bit_lsb(buf: Seq<u8>, k: nat) -> nat {
    ((byte_at(buf, (k / 8) as int) >> ((k % 8) as u8)) & 1u8) as nat
}

/// Bit `k` of the stream in most-significant-first order.
pub open spec fn bit_msb(buf: Seq<u8>, k: nat) -> nat {
    ((byte_at(buf, (k / 8) as int) >> ((7 - k % 8) as u8)) & 1u8) as nat
}

/// The `width`-bit field at bit `offset`, whose first bit is its least significant.
pub open spec fn field_lsb(buf: Seq<u8>, offset: nat, width: nat) -> nat
    decreases width,
{
    if width == 0 {
        0
    } else {
        field_lsb(buf, offset, (width - 1) as nat) + bit_lsb(buf, (offset + width - 1) as nat)
            * pow2((width - 1) as nat)
    }
}

/// The `width`-bit field at bit `offset`, whose first bit is its most significant.
pub open spec fn field_msb(buf: Seq<u8>, offset: nat, width: nat) -> nat
    decreases width,
{
    if width == 0 {
        0
    } else {
        2 * field_msb(buf, offset, (width - 1) as nat) + bit_msb(
            buf,
            (offset + width - 1) as nat,
        )
    }
}

/// The `width`-bit field at bit `offset` in the given order.
pub open spec fn field(buf: Seq<u8>, order: BitOrder, offset: nat, width: nat) -> nat {
    match order {
        BitOrder::Lsb => field_lsb(buf, offset, width),
        BitOrder::Msb => field_msb(buf, offset, width),
    }
}

/// A field of `width` bits is below `2^width`.
pub proof fn lemma_field_bound(buf: Seq<u8>, order: BitOrder, offset: nat, width: nat)
    ensures
        field(buf, order, offset, width) < pow2(width),
    decreases width,
{
    if width > 0 {
        lemma_pow2_unfold(width);
        lemma_field_bound(buf, order, offset, (width - 1) as nat);
        let b = if order is Lsb {
            bit_lsb(buf, (offset + width - 1) as nat)
        } else {
            bit_msb(buf, (offset + width - 1) as nat)
        };
        let byte = byte_at(buf, ((offset + width - 1) as nat / 8) as int);
        assert(forall|s: u8| (byte >> s) & 1u8 <= 1u8) by (bit_vector);
        assert(b <= 1);
        let p = pow2((width - 1) as nat);
        assert(pow2(width) == 2 * p);
        if order is Lsb {
            assert(field_lsb(buf, offset, (width - 1) as nat) + b * p < 2 * p) by (nonlinear_arith)
                requires
                    field_lsb(buf, offset, (width - 1) as nat) < p,
                    b <= 1,
            ;
        }
    } else {
        lemma2_to64();
    }
}

/// Splitting a least-significant-first field in two: the `a + b`-bit field at `offset` is
/// its first `a` bits plus the following `b`-bit field shifted up by `a` places.
pub proof fn lemma_field_lsb_split(buf: Seq<u8>, offset: nat, a: nat, b: nat)
    ensures
        field_lsb(buf, offset, a + b) == field_lsb(buf, offset, a) + field_lsb(buf, offset + a, b)
            * pow2(a),
    decreases b,
{
    if b > 0 {
        let b1 = (b - 1) as nat;
        lemma_field_lsb_split(buf, offset, a, b1);
        lemma_pow2_adds(a, b1);
        let hi = field_lsb(buf, offset + a, b1);
        let bit = bit_lsb(buf, (offset + a + b - 1) as nat);
        assert(field_lsb(buf, offset + a, b) == hi + bit * pow2(b1));
        assert(field_lsb(buf, offset, a + b) == field_lsb(buf, offset, (a + b1) as nat) + bit
            * pow2(a + b1));
        assert((hi + bit * pow2(b1)) * pow2(a) == hi * pow2(a) + bit * (pow2(a) * pow2(b1)))
            by (nonlinear_arith);
        assert(field_lsb(buf, offset, (a + b1) as nat) == field_lsb(buf, offset, a) + hi * pow2(
            a,
        ));
        assert(pow2(a + b1) == pow2(a) * pow2(b1));
    } else {
        assert(field_lsb(buf, offset + a, b) == 0);
    }
}

/// Splitting a most-significant-first field in two: the `a + b`-bit field at `offset` is
/// its first `a` bits shifted up by `b` places, plus the following `b`-bit field.
pub proof fn lemma_field_msb_split(buf: Seq<u8>, offset: nat, a: nat, b: nat)
    ensures
        field_msb(buf, offset, a + b) == field_msb(buf, offset, a) * pow2(b) + field_msb(
            buf,
            offset + a,
            b,
        ),
    decreases b,
{
    if b == 0 {
        lemma2_to64();
    } else {
        let b1 = (b - 1) as nat;
        lemma_field_msb_split(buf, offset, a, b1);
        lemma_pow2_unfold(b);
        let lo = field_msb(buf, offset, a);
        assert(field_msb(buf, offset, a + b) == 2 * field_msb(buf, offset, (a + b1) as nat)
            + bit_msb(buf, (offset + a + b - 1) as nat));
        assert(2 * (lo * pow2(b1)) == lo * (2 * pow2(b1))) by (nonlinear_arith);
    }
}

/// Two fields read one after the other combine, as 64-bit values, into the field that
/// spans both: in least-significant-first order the second one goes above the first.
pub proof fn lemma_field_lsb_join_u64(buf: Seq<u8>, offset: nat, a: nat, b: nat)
    requires
        a < 64,
        a + b <= 64,
    ensures
        field_lsb(buf, offset, a + b) as u64 == (field_lsb(buf, offset, a) as u64) | ((field_lsb(
            buf,
            offset + a,
            b,
        ) as u64) << (a as u64)),
{
    lemma_field_lsb_split(buf, offset, a, b);
    lemma_field_bound(buf, BitOrder::Lsb, offset, a);
    lemma_field_bound(buf, BitOrder::Lsb, offset + a, b);
    lemma_field_bound(buf, BitOrder::Lsb, offset, a + b);
    lemma_pow2_adds(a, b);
    lemma_u64_pow2_no_overflow(a);
    if a + b < 64 {
        lemma_pow2_strictly_increases(a + b, 64);
    }
    lemma2_to64_rest();
    let x = field_lsb(buf, offset, a);
    let y = field_lsb(buf, offset + a, b);
    assert(pow2(a + b) <= 0x1_0000_0000_0000_0000);
    assert(y * pow2(a) <= pow2(a + b) - pow2(a) && y <= y * pow2(a)) by (nonlinear_arith)
        requires
            y + 1 <= pow2(b),
            pow2(a + b) == pow2(a) * pow2(b),
            pow2(a) >= 1,
    ;
    assert(y as u64 == y);
    assert(x as u64 == x);
    lemma_u64_shl_is_mul(y as u64, a as u64);
    lemma_u64_shl_is_mul(1u64, a as u64);
    let xu = x as u64;
    let yu = y as u64;
    let au = a as u64;
    assert(au < 64 && xu < (1u64 << au) ==> (xu | (yu << au)) == xu + (yu << au))
        by (bit_vector);
}

/// Two fields read one after the other combine, as 64-bit values, into the field that
/// spans both: in most-significant-first order the first one goes above the second.
pub proof fn lemma_field_msb_join_u64(buf: Seq<u8>, offset: nat, a: nat, b: nat)
    requires
        b < 64,
        a + b <= 64,
    ensures
        field_msb(buf, offset, a + b) as u64 == ((field_msb(buf, offset, a) as u64) << (
        b as u64)) | (field_msb(buf, offset + a, b) as u64),
{
    lemma_field_msb_split(buf, offset, a, b);
    lemma_field_bound(buf, BitOrder::Msb, offset, a);
    lemma_field_bound(buf, BitOrder::Msb, offset + a, b);
    lemma_field_bound(buf, BitOrder::Msb, offset, a + b);
    lemma_pow2_adds(a, b);
    lemma_u64_pow2_no_overflow(b);
    if a + b < 64 {
        lemma_pow2_strictly_increases(a + b, 64);
    }
    lemma2_to64_rest();
    let x = field_msb(buf, offset, a);
    let y = field_msb(buf, offset + a, b);
    assert(pow2(a + b) <= 0x1_0000_0000_0000_0000);
    assert(x * pow2(b) <= pow2(a + b) - pow2(b) && x <= x * pow2(b)) by (nonlinear_arith)
        requires
            x + 1 <= pow2(a),
            pow2(a + b) == pow2(a) * pow2(b),
            pow2(b) >= 1,
    ;
    assert(y as u64 == y);
    assert(x as u64 == x);
    lemma_u64_shl_is_mul(x as u64, b as u64);
    lemma_u64_shl_is_mul(1u64, b as u64);
    let xu = x as u64;
    let yu = y as u64;
    let bu = b as u64;
    assert(bu < 64 && yu < (1u64 << bu) ==> ((xu << bu) | yu) == (xu << bu) + yu)
        by (bit_vector);
}

/// A most-significant-first field of at most 64 bits already fits in 64 bits, so reading it
/// with either `unpack_bits_msb` or `unpack_bits` gives the whole field.
pub proof fn lemma_field_msb_fits_u64(buf: Seq<u8>, offset: nat, width: nat)
    requires
        width <= 64,
    ensures
        field_msb(buf, offset, width) % 0x1_0000_0000_0000_0000 == field_msb(buf, offset, width),
        field(buf, BitOrder::Msb, offset, width) == field_msb(buf, offset, width),
{
    lemma_field_bound(buf, BitOrder::Msb, offset, width);
    if width < 64 {
        lemma_pow2_strictly_increases(width, 64);
    }
    lemma2_to64_rest();
}

/// Reads a `width`-bit field at bit `bit_offset` in least-significant-first order; bytes
/// past the end of `buf` read as zero.
pub fn unpack_bits_le(buf: &[u8], bit_offset: usize, width: usize) -> (value: u64)
    requires
        width <= 64,
        bit_offset + width <= usize::MAX + 1,
    ensures
        value == field_lsb(buf@, bit_offset as nat, width as nat),
{
    let mut value = 0u64;
    for bit in 0..width
        invariant
            width <= 64,
            bit_offset + width <= usize::MAX + 1,
            value == field_lsb(buf@, bit_offset as nat, bit as nat),
    {
        let absolute = bit_offset + bit;
        let byte = if absolute / 8 < buf.len() {
            buf[absolute / 8]
        } else {
            0
        };
        let shift = (absolute % 8) as u8;
        let set = (byte >> shift) & 1;
        proof {
            assert(set <= 1) by (bit_vector)
                requires
                    set == (byte >> shift) & 1,
            ;
            lemma_field_bound(buf@, BitOrder::Lsb, bit_offset as nat, bit as nat);
            lemma_u64_pow2_no_overflow(bit as nat);
            lemma_u64_shl_is_mul(1u64, bit as u64);
            assert((set as u64) * pow2(bit as nat) <= pow2(bit as nat)) by (nonlinear_arith)
                requires
                    set <= 1,
            ;
            lemma_u64_shl_is_mul(set as u64, bit as u64);
            lemma_pow2_unfold((bit + 1) as nat);
            let b = bit as u64;
            let s = set as u64;
            assert(value < (1u64 << b) && s <= 1 && b < 64 ==> (value | (s << b)) == value + (s
                << b)) by (bit_vector);
        }
        value |= (set as u64) << bit;
    }
    value
}

/// Reads a `width`-bit field at bit `bit_offset` in most-significant-first order; bytes
/// past the end of `buf` read as zero, and a field wider than 64 bits keeps its low 64 bits.
pub fn unpack_bits_msb(buf: &[u8], bit_offset: usize, width: usize) -> (value: u64)
    requires
        bit_offset + width <= usize::MAX + 1,
    ensures
        value == field_msb(buf@, bit_offset as nat, width as nat) % 0x1_0000_0000_0000_0000,
{
    let mut value = 0u64;
    for bit in 0..width
        invariant
            bit_offset + width <= usize::MAX + 1,
            value == field_msb(buf@, bit_offset as nat, bit as nat) % 0x1_0000_0000_0000_0000,
    {
        let absolute = bit_offset + bit;
        let byte = if absolute / 8 < buf.len() {
            buf[absolute / 8]
        } else {
            0
        };
        let shift = (7 - absolute % 8) as u8;
        let set = (byte >> shift) & 1;
        proof {
            assert(set <= 1) by (bit_vector)
                requires
                    set == (byte >> shift) & 1,
            ;
            let s = set as u64;
            assert(s <= 1 ==> ((value << 1) | s) == (2 * value + s) % 0x1_0000_0000_0000_0000)
                by (bit_vector);
            let f: int = field_msb(buf@, bit_offset as nat, bit as nat) as int;
            let m: int = 0x1_0000_0000_0000_0000int;
            assert((2 * (f % m) + s) % m == (2 * f + s) % m) by {
                vstd::arithmetic::div_mod::lemma_mul_mod_noop_right(2, f, m);
                vstd::arithmetic::div_mod::lemma_add_mod_noop(2 * f, s as int, m);
                vstd::arithmetic::div_mod::lemma_add_mod_noop(2 * (f % m), s as int, m);
                vstd::arithmetic::div_mod::lemma_mod_twice(2 * f, m);
            }
        }
        value = (value << 1) | (set as u64);
    }
    value
}

/// Reads a `width`-bit field at bit `bit_offset` in the given bit order. In
/// least-significant-first order the field is at most 64 bits wide; in
/// most-significant-first order a wider field keeps its low 64 bits.
pub fn unpack_bits(buf: &[u8], bit_offset: usize, width: usize, bit_order: BitOrder) -> (value:
    u64)
    requires
        bit_order is Lsb ==> width <= 64,
        bit_offset + width <= usize::MAX + 1,
    ensures
        value == field(buf@, bit_order, bit_offset as nat, width as nat) % 0x1_0000_0000_0000_0000,
        width <= 64 ==> value == field(buf@, bit_order, bit_offset as nat, width as nat),
{
    match bit_order {
        BitOrder::Lsb => {
            let v = unpack_bits_le(buf, bit_offset, width);
            proof {
                lemma_field_bound(buf@, bit_order, bit_offset as nat, width as nat);
                if width < 64 {
                    lemma_pow2_strictly_increases(width as nat, 64);
                }
                lemma2_to64_rest();
                vstd::arithmetic::div_mod::lemma_small_mod(
                    field(buf@, bit_order, bit_offset as nat, width as nat),
                    0x1_0000_0000_0000_0000,
                );
            }
            v
        },
        BitOrder::Msb => {
            let v = unpack_bits_msb(buf, bit_offset, width);
            proof {
                if width <= 64 {
                    lemma_field_msb_fits_u64(buf@, bit_offset as nat, width as nat);
                }
            }
            v
        },
    }
}

} // verus!
