//! The Blowfish variant used by the search server: standard key schedule and Feistel
//! network, with the server's own round function and sign-extended key bytes.

use vstd::prelude::*;

use crate::blowfish_consts;

verus! {

/// A keyed cipher: its P-array and its four S-boxes, stored one after the other.
pub struct XiBlowfish {
    p: [u32; 18],
    s: [u32; 1024],
}

/// The subkeys of a cipher.
pub struct BlowfishKeys {
    pub p: Seq<u32>,
    pub s: Seq<u32>,
}

impl View for XiBlowfish {
    type V = BlowfishKeys;

    closed spec fn view(&self) -> BlowfishKeys {
        BlowfishKeys { p: self.p@, s: self.s@ }
    }
}

/// The round function: S-box entries picked by the four bytes of `w`.
pub open spec fn feistel(s: Seq<u32>, w: u32) -> u32 {
    let a = ((w >> 8u32) & 0xffu32) as int;
    let b = (w >> 24u32) as int;
    let c = ((w >> 16u32) & 0xffu32) as int;
    let d = (w & 0xffu32) as int;
    ((s[256 + a] & 1u32) ^ 32u32).wrapping_add((s[768 + b] & 1u32) ^ 32u32).wrapping_add(
        s[512 + c],
    ).wrapping_add(s[d])
}

/// A wrapping 32-bit addition is the sum modulo 2^32.
proof fn lemma_wrapping_add_mod(x: u32, y: u32)
    ensures
        x.wrapping_add(y) as int == (x + y) % 0x1_0000_0000,
{
    if x + y > u32::MAX {
        vstd::arithmetic::div_mod::lemma_mod_sub_multiples_vanish(x + y, 0x1_0000_0000);
        vstd::arithmetic::div_mod::lemma_small_mod((x + y - 0x1_0000_0000) as nat, 0x1_0000_0000);
    } else {
        vstd::arithmetic::div_mod::lemma_small_mod((x + y) as nat, 0x1_0000_0000);
    }
}

/// The server's round function, as plain arithmetic: with `a`, `b`, `c`, `d` the second,
/// fourth, third and first byte of `w` (counting from the least significant), it adds
/// 32 plus the low bit of S-box 1 entry `a`, 32 plus the low bit of S-box 3 entry `b`,
/// S-box 2 entry `c` and S-box 0 entry `d`, modulo 2^32. So S-boxes 1 and 3 enter only
/// through their low bits.
pub proof fn lemma_feistel_sum(s: Seq<u32>, w: u32)
    ensures
        feistel(s, w) as int == (64 + s[256 + (w / 0x100) % 0x100] % 2 + s[768 + w / 0x100_0000]
            % 2 + s[512 + (w / 0x1_0000) % 0x100] + s[(w % 0x100) as int]) % 0x1_0000_0000,
{
    assert((w >> 8u32) & 0xffu32 == (w / 0x100) % 0x100 && w >> 24u32 == w / 0x100_0000 && (w
        >> 16u32) & 0xffu32 == (w / 0x1_0000) % 0x100 && w & 0xffu32 == w % 0x100)
        by (bit_vector);
    let x1 = s[256 + (w / 0x100) % 0x100];
    let x3 = s[768 + w / 0x100_0000];
    let x2 = s[512 + (w / 0x1_0000) % 0x100];
    let x0 = s[(w % 0x100) as int];
    assert((x1 & 1u32) ^ 32u32 == 32 + x1 % 2) by (bit_vector);
    assert((x3 & 1u32) ^ 32u32 == 32 + x3 % 2) by (bit_vector);
    let t1 = ((x1 & 1u32) ^ 32u32).wrapping_add((x3 & 1u32) ^ 32u32);
    lemma_wrapping_add_mod((x1 & 1u32) ^ 32u32, (x3 & 1u32) ^ 32u32);
    vstd::arithmetic::div_mod::lemma_small_mod((64 + x1 % 2 + x3 % 2) as nat, 0x1_0000_0000);
    let t2 = t1.wrapping_add(x2);
    lemma_wrapping_add_mod(t1, x2);
    lemma_wrapping_add_mod(t2, x0);
    vstd::arithmetic::div_mod::lemma_add_mod_noop(t1 + x2, x0 as int, 0x1_0000_0000);
    vstd::arithmetic::div_mod::lemma_mod_twice(x0 as int, 0x1_0000_0000);
    vstd::arithmetic::div_mod::lemma_small_mod(x0 as nat, 0x1_0000_0000);
}

/// The halves after `n` rounds of encryption, each round using P-entry `n - 1`.
pub open spec fn encipher_rounds(k: BlowfishKeys, l: u32, r: u32, n: nat) -> (u32, u32)
    decreases n,
{
    if n == 0 {
        (l, r)
    } else {
        let (a, b) = encipher_rounds(k, l, r, (n - 1) as nat);
        let t = a ^ k.p[n - 1];
        (b ^ feistel(k.s, t), t)
    }
}

/// The halves after `n` rounds of decryption, each round using P-entry `18 - n`.
pub open spec fn decipher_rounds(k: BlowfishKeys, l: u32, r: u32, n: nat) -> (u32, u32)
    decreases n,
{
    if n == 0 {
        (l, r)
    } else {
        let (a, b) = decipher_rounds(k, l, r, (n - 1) as nat);
        let t = a ^ k.p[18 - n];
        (b ^ feistel(k.s, t), t)
    }
}

/// A 64-bit block, as two 32-bit halves, encrypted.
pub open spec fn encipher_block(k: BlowfishKeys, l: u32, r: u32) -> (u32, u32) {
    let (a, b) = encipher_rounds(k, l, r, 16);
    (b ^ k.p[17], a ^ k.p[16])
}

/// A 64-bit block, as two 32-bit halves, decrypted.
pub open spec fn decipher_block(k: BlowfishKeys, l: u32, r: u32) -> (u32, u32) {
    let (a, b) = decipher_rounds(k, l, r, 16);
    (b ^ k.p[0], a ^ k.p[1])
}

proof fn lemma_xor_cancel(x: u32, y: u32)
    ensures
        (x ^ y) ^ y == x,
{
    assert((x ^ y) ^ y == x) by (bit_vector);
}

proof fn lemma_xor_swap_cancel(x: u32, f: u32, p: u32)
    ensures
        ((x ^ f) ^ p) ^ f == x ^ p,
{
    assert(((x ^ f) ^ p) ^ f == x ^ p) by (bit_vector);
}

/// After `j` rounds, decryption of an encrypted block stands where encryption stood after
/// `16 - j` rounds, up to the P-entries that encryption will still apply.
proof fn lemma_decipher_undoes_rounds(k: BlowfishKeys, l: u32, r: u32, j: nat)
    requires
        j <= 16,
    ensures
        ({
            let (a16, b16) = encipher_rounds(k, l, r, 16);
            let (ej, fj) = encipher_rounds(k, l, r, (16 - j) as nat);
            decipher_rounds(k, b16 ^ k.p[17], a16 ^ k.p[16], j) == (fj ^ k.p[17 - j], ej ^ k.p[
                16 - j])
        }),
    decreases j,
{
    if j > 0 {
        lemma_decipher_undoes_rounds(k, l, r, (j - 1) as nat);
        let (a16, b16) = encipher_rounds(k, l, r, 16);
        let (e, f) = encipher_rounds(k, l, r, (16 - j) as nat);
        let (e1, f1) = encipher_rounds(k, l, r, (17 - j) as nat);
        // one more encryption round: e1 = f ^ F(e ^ p), f1 = e ^ p, with p = P[16 - j]
        assert(f1 == e ^ k.p[16 - j]);
        assert(e1 == f ^ feistel(k.s, f1));
        lemma_xor_cancel(f1, k.p[18 - j]);
        lemma_xor_swap_cancel(f, feistel(k.s, f1), k.p[17 - j]);
    }
}

/// Decryption undoes encryption.
pub proof fn lemma_decipher_encipher(k: BlowfishKeys, l: u32, r: u32)
    ensures
        ({
            let (el, er) = encipher_block(k, l, r);
            decipher_block(k, el, er) == (l, r)
        }),
{
    lemma_decipher_undoes_rounds(k, l, r, 16);
    let (e0, f0) = encipher_rounds(k, l, r, 0);
    lemma_xor_cancel(l, k.p[0]);
    lemma_xor_cancel(r, k.p[1]);
}

/// The keys with the P-array reversed.
pub open spec fn reversed(k: BlowfishKeys) -> BlowfishKeys {
    BlowfishKeys { p: Seq::new(18, |i: int| k.p[17 - i]), s: k.s }
}

proof fn lemma_decipher_is_reversed_encipher(k: BlowfishKeys, l: u32, r: u32, n: nat)
    requires
        n <= 16,
    ensures
        decipher_rounds(k, l, r, n) == encipher_rounds(reversed(k), l, r, n),
    decreases n,
{
    if n > 0 {
        lemma_decipher_is_reversed_encipher(k, l, r, (n - 1) as nat);
    }
}

/// Encryption undoes decryption.
pub proof fn lemma_encipher_decipher(k: BlowfishKeys, l: u32, r: u32)
    requires
        k.p.len() == 18,
    ensures
        ({
            let (dl, dr) = decipher_block(k, l, r);
            encipher_block(k, dl, dr) == (l, r)
        }),
{
    let rk = reversed(k);
    assert(reversed(rk).p =~= k.p);
    lemma_decipher_is_reversed_encipher(k, l, r, 16);
    let (dl, dr) = decipher_block(k, l, r);
    lemma_decipher_is_reversed_encipher(rk, dl, dr, 16);
    lemma_decipher_encipher(rk, l, r);
}

proof fn lemma_xor_both(x: u32, d: u32, p: u32)
    ensures
        (x ^ d) ^ (p ^ d) == x ^ p,
{
    assert((x ^ d) ^ (p ^ d) == x ^ p) by (bit_vector);
}

proof fn lemma_xor_regroup(x: u32, p: u32, d: u32)
    ensures
        x ^ (p ^ d) == (x ^ p) ^ d,
{
    assert(x ^ (p ^ d) == (x ^ p) ^ d) by (bit_vector);
}

/// `k` with P-entry `i` XOR-ed with `d`.
pub open spec fn p_xor(k: BlowfishKeys, i: int, d: u32) -> BlowfishKeys {
    BlowfishKeys { p: k.p.update(i, k.p[i] ^ d), s: k.s }
}

proof fn lemma_encipher_rounds_first_whitening(k: BlowfishKeys, l: u32, r: u32, d: u32, n: nat)
    requires
        k.p.len() == 18,
        1 <= n <= 16,
    ensures
        encipher_rounds(p_xor(k, 0, d), l ^ d, r, n) == encipher_rounds(k, l, r, n),
    decreases n,
{
    let k2 = p_xor(k, 0, d);
    if n == 1 {
        lemma_xor_both(l, d, k.p[0]);
        assert(k2.p[0] == k.p[0] ^ d);
        assert(encipher_rounds(k2, l ^ d, r, 0) == (l ^ d, r));
        assert(encipher_rounds(k, l, r, 0) == (l, r));
    } else {
        lemma_encipher_rounds_first_whitening(k, l, r, d, (n - 1) as nat);
        assert(k2.p[n - 1] == k.p[n - 1]);
    }
}

/// P-entry 0 whitens the left half on the way in: XOR-ing it and the left half with the same
/// word leaves the ciphertext unchanged.
pub proof fn lemma_encipher_input_whitening(k: BlowfishKeys, l: u32, r: u32, d: u32)
    requires
        k.p.len() == 18,
    ensures
        encipher_block(p_xor(k, 0, d), l ^ d, r) == encipher_block(k, l, r),
{
    lemma_encipher_rounds_first_whitening(k, l, r, d, 16);
}

proof fn lemma_encipher_rounds_ignore_tail(k: BlowfishKeys, l: u32, r: u32, i: int, d: u32, n: nat)
    requires
        k.p.len() == 18,
        16 <= i < 18,
        n <= 16,
    ensures
        encipher_rounds(p_xor(k, i, d), l, r, n) == encipher_rounds(k, l, r, n),
    decreases n,
{
    if n > 0 {
        lemma_encipher_rounds_ignore_tail(k, l, r, i, d, (n - 1) as nat);
    }
}

/// P-entries 17 and 16 whiten the two output halves: XOR-ing entry 17 with `d` XORs the
/// left output half with `d`, and entry 16 the right one.
pub proof fn lemma_encipher_output_whitening(k: BlowfishKeys, l: u32, r: u32, d: u32)
    requires
        k.p.len() == 18,
    ensures
        encipher_block(p_xor(k, 17, d), l, r) == (encipher_block(k, l, r).0 ^ d, encipher_block(
            k,
            l,
            r,
        ).1),
        encipher_block(p_xor(k, 16, d), l, r) == (encipher_block(k, l, r).0, encipher_block(
            k,
            l,
            r,
        ).1 ^ d),
{
    lemma_encipher_rounds_ignore_tail(k, l, r, 17, d, 16);
    lemma_encipher_rounds_ignore_tail(k, l, r, 16, d, 16);
    let (a, b) = encipher_rounds(k, l, r, 16);
    lemma_xor_regroup(b, k.p[17], d);
    lemma_xor_regroup(a, k.p[16], d);
}

proof fn lemma_decipher_rounds_ignore_head(k: BlowfishKeys, l: u32, r: u32, i: int, d: u32, n: nat)
    requires
        k.p.len() == 18,
        0 <= i < 2,
        n <= 16,
    ensures
        decipher_rounds(p_xor(k, i, d), l, r, n) == decipher_rounds(k, l, r, n),
    decreases n,
{
    if n > 0 {
        lemma_decipher_rounds_ignore_head(k, l, r, i, d, (n - 1) as nat);
    }
}

/// Decryption ends with P-entries 0 and 1: XOR-ing entry 0 with `d` XORs the left output
/// half with `d`, and entry 1 the right one.
pub proof fn lemma_decipher_output_whitening(k: BlowfishKeys, l: u32, r: u32, d: u32)
    requires
        k.p.len() == 18,
    ensures
        decipher_block(p_xor(k, 0, d), l, r) == (decipher_block(k, l, r).0 ^ d, decipher_block(
            k,
            l,
            r,
        ).1),
        decipher_block(p_xor(k, 1, d), l, r) == (decipher_block(k, l, r).0, decipher_block(
            k,
            l,
            r,
        ).1 ^ d),
{
    lemma_decipher_rounds_ignore_head(k, l, r, 0, d, 16);
    lemma_decipher_rounds_ignore_head(k, l, r, 1, d, 16);
    let (a, b) = decipher_rounds(k, l, r, 16);
    lemma_xor_regroup(b, k.p[0], d);
    lemma_xor_regroup(a, k.p[1], d);
}

/// A key byte widened as the server does: sign-extended to 32 bits.
pub open spec fn key_byte_word(b: u8) -> u32 {
    ((b as i8) as i32) as u32
}

/// The word built from the first `k` of the four key bytes for P-entry `i`; key bytes are
/// taken cyclically, and each is OR-ed in after shifting the word left by eight bits.
pub open spec fn key_word(key: Seq<u8>, i: nat, k: nat) -> u32
    decreases k,
{
    if k == 0 {
        0
    } else {
        (key_word(key, i, (k - 1) as nat) << 8u32) | key_byte_word(
            key[(4 * i + k - 1) as int % key.len() as int],
        )
    }
}

/// The initial subkeys with each P-entry XOR-ed with its key word.
pub open spec fn keyed_initial(key: Seq<u8>) -> BlowfishKeys {
    BlowfishKeys {
        p: Seq::new(18, |i: int| blowfish_consts::initial_p()[i] ^ key_word(key, i as nat, 4)),
        s: blowfish_consts::initial_s(),
    }
}

/// `keys` with the `k`-th pair of subkeys, counting the P-array then the S-boxes, set to
/// `l` and `r`.
pub open spec fn set_pair(keys: BlowfishKeys, k: nat, l: u32, r: u32) -> BlowfishKeys {
    if k < 9 {
        BlowfishKeys { p: keys.p.update(2 * (k as int), l).update(2 * (k as int) + 1, r), s: keys.s }
    } else {
        BlowfishKeys {
            p: keys.p,
            s: keys.s.update(2 * (k - 9), l).update(2 * (k - 9) + 1, r),
        }
    }
}

/// The subkeys and the running block after `n` steps of the key schedule: each step
/// encrypts the running block (initially zero) with the current subkeys and stores it as
/// the next pair of subkeys.
pub open spec fn schedule(initial: BlowfishKeys, n: nat) -> (BlowfishKeys, u32, u32)
    decreases n,
{
    if n == 0 {
        (initial, 0, 0)
    } else {
        let (keys, l, r) = schedule(initial, (n - 1) as nat);
        let (l2, r2) = encipher_block(keys, l, r);
        (set_pair(keys, (n - 1) as nat, l2, r2), l2, r2)
    }
}

/// The subkeys of the cipher keyed with `key`: all 9 + 512 pairs replaced in turn.
pub open spec fn key_schedule(key: Seq<u8>) -> BlowfishKeys {
    schedule(keyed_initial(key), 521).0
}

/// The four key bytes read for P-entry `i`, taken cyclically.
pub open spec fn word_byte(key: Seq<u8>, i: nat, j: int) -> u8 {
    key[(4 * i + j) % key.len() as int]
}

proof fn lemma_key_byte_word(b: u8)
    ensures
        b < 0x80 ==> key_byte_word(b) == b as u32,
        b >= 0x80 ==> key_byte_word(b) == 0xffff_ff00u32 | (b as u32),
{
    assert(b < 0x80 ==> ((b as i8) as i32) as u32 == b as u32) by (bit_vector);
    assert(b >= 0x80 ==> ((b as i8) as i32) as u32 == 0xffff_ff00u32 | (b as u32)) by (bit_vector);
}

proof fn lemma_key_word_unfold(key: Seq<u8>, i: nat)
    ensures
        key_word(key, i, 4) == (((((0u32 << 8u32) | key_byte_word(word_byte(key, i, 0))) << 8u32)
            | key_byte_word(word_byte(key, i, 1))) << 8u32 | key_byte_word(word_byte(key, i, 2)))
            << 8u32 | key_byte_word(word_byte(key, i, 3)),
{
    assert((4 * i + 1 - 1) as int == 4 * i + 0);
    assert((4 * i + 2 - 1) as int == 4 * i + 1);
    assert((4 * i + 3 - 1) as int == 4 * i + 2);
    assert((4 * i + 4 - 1) as int == 4 * i + 3);
    assert(key_word(key, i, 0) == 0);
    assert(key_word(key, i, 1) == (0u32 << 8u32) | key_byte_word(word_byte(key, i, 0)));
    assert(key_word(key, i, 2) == (key_word(key, i, 1) << 8u32) | key_byte_word(word_byte(key, i, 1)));
    assert(key_word(key, i, 3) == (key_word(key, i, 2) << 8u32) | key_byte_word(word_byte(key, i, 2)));
}

/// A key word built from four bytes below 0x80 is those bytes read big-endian: the first
/// byte read is the most significant.
pub proof fn lemma_key_word_big_endian(key: Seq<u8>, i: nat)
    requires
        key.len() > 0,
        word_byte(key, i, 0) < 0x80,
        word_byte(key, i, 1) < 0x80,
        word_byte(key, i, 2) < 0x80,
        word_byte(key, i, 3) < 0x80,
    ensures
        key_word(key, i, 4) == word_byte(key, i, 0) * 0x100_0000 + word_byte(key, i, 1)
            * 0x1_0000 + word_byte(key, i, 2) * 0x100 + word_byte(key, i, 3),
{
    lemma_key_word_unfold(key, i);
    let (b0, b1, b2, b3) = (word_byte(key, i, 0), word_byte(key, i, 1), word_byte(key, i, 2), word_byte(key, i, 3));
    lemma_key_byte_word(b0);
    lemma_key_byte_word(b1);
    lemma_key_byte_word(b2);
    lemma_key_byte_word(b3);
    let (x0, x1, x2, x3) = (b0 as u32, b1 as u32, b2 as u32, b3 as u32);
    assert(x0 < 0x80 && x1 < 0x80 && x2 < 0x80 && x3 < 0x80 ==> (((((0u32 << 8u32) | x0) << 8u32)
        | x1) << 8u32 | x2) << 8u32 | x3 == x0 * 0x100_0000 + x1 * 0x1_0000 + x2 * 0x100 + x3)
        by (bit_vector);
}

/// A key byte of 0x80 or more read last for a word is sign-extended over the three bytes
/// before it: the word is that byte with all 24 high bits set, whatever those bytes were.
pub proof fn lemma_key_word_sign_extends(key: Seq<u8>, i: nat)
    requires
        key.len() > 0,
        word_byte(key, i, 3) >= 0x80,
    ensures
        key_word(key, i, 4) == 0xffff_ff00 + word_byte(key, i, 3),
{
    lemma_key_word_unfold(key, i);
    let b3 = word_byte(key, i, 3);
    lemma_key_byte_word(b3);
    let w = ((((0u32 << 8u32) | key_byte_word(word_byte(key, i, 0))) << 8u32) | key_byte_word(
        word_byte(key, i, 1),
    )) << 8u32 | key_byte_word(word_byte(key, i, 2));
    let x3 = b3 as u32;
    assert(x3 < 0x100 ==> (w << 8u32) | (0xffff_ff00u32 | x3) == 0xffff_ff00u32 + x3)
        by (bit_vector);
}

/// Two keys whose bytes agree at the positions read for the first `k` bytes of word `i`
/// give that word alike.
proof fn lemma_key_word_bytes(k1: Seq<u8>, k2: Seq<u8>, i: nat, k: nat)
    requires
        forall|j: int|
            0 <= j < k ==> #[trigger] k1[(4 * i + j) % k1.len() as int] == k2[(4 * i + j)
                % k2.len() as int],
    ensures
        key_word(k1, i, k) == key_word(k2, i, k),
    decreases k,
{
    if k > 0 {
        lemma_key_word_bytes(k1, k2, i, (k - 1) as nat);
        let j = k - 1;
        assert(k1[(4 * i + j) % k1.len() as int] == k2[(4 * i + j) % k2.len() as int]);
        assert((4 * i + k - 1) as int == 4 * i + j);
    }
}

/// The key schedule sees the key only through its 18 key words (four key bytes each, taken
/// cyclically and sign-extended): keys with the same key words give the same cipher, even
/// where their bytes differ (0x00 0x00 0x00 0x80 and 0xff 0xff 0xff 0x80 both give words
/// of 0xffffff80).
pub proof fn lemma_key_schedule_by_key_words(k1: Seq<u8>, k2: Seq<u8>)
    requires
        forall|i: nat| i < 18 ==> #[trigger] key_word(k1, i, 4) == key_word(k2, i, 4),
    ensures
        key_schedule(k1) == key_schedule(k2),
{
    let a = keyed_initial(k1);
    let b = keyed_initial(k2);
    assert forall|i: int| 0 <= i < 18 implies a.p[i] == b.p[i] by {
        assert(key_word(k1, i as nat, 4) == key_word(k2, i as nat, 4));
    }
    assert(a.p =~= b.p);
    assert(a == b);
}

/// Repeating the key does not change the cipher: key bytes are used cyclically.
pub proof fn lemma_key_schedule_repeated(key: Seq<u8>)
    requires
        key.len() > 0,
    ensures
        key_schedule(key + key) == key_schedule(key),
{
    let kk = key + key;
    let len = key.len() as int;
    assert forall|i: nat| i < 18 implies #[trigger] key_word(kk, i, 4) == key_word(key, i, 4) by {
        assert forall|j: int| 0 <= j < 4 implies #[trigger] kk[(4 * i + j) % kk.len() as int]
            == key[(4 * i + j) % key.len() as int] by {
            let x = 4 * i + j;
            vstd::arithmetic::div_mod::lemma_mod_mod(x, len, 2);
            vstd::arithmetic::div_mod::lemma_mod_bound(x, 2 * len);
            vstd::arithmetic::div_mod::lemma_mod_bound(x, len);
            let m = x % (2 * len);
            assert(len * 2 == 2 * len);
            if m >= len {
                vstd::arithmetic::div_mod::lemma_mod_sub_multiples_vanish(m, len);
                vstd::arithmetic::div_mod::lemma_small_mod((m - len) as nat, len as nat);
            } else {
                vstd::arithmetic::div_mod::lemma_small_mod(m as nat, len as nat);
            }
        }
        lemma_key_word_bytes(kk, key, i, 4);
    }
    lemma_key_schedule_by_key_words(kk, key);
}

/// Only the first 72 key bytes (18 words of four) are read: cutting a longer key to 72 bytes
/// does not change the cipher.
pub proof fn lemma_key_schedule_first_72(key: Seq<u8>)
    requires
        key.len() >= 72,
    ensures
        key_schedule(key.take(72)) == key_schedule(key),
{
    let short = key.take(72);
    assert forall|i: nat| i < 18 implies #[trigger] key_word(short, i, 4) == key_word(key, i, 4)
        by {
        assert forall|j: int| 0 <= j < 4 implies #[trigger] short[(4 * i + j) % short.len() as int]
            == key[(4 * i + j) % key.len() as int] by {
            vstd::arithmetic::div_mod::lemma_small_mod((4 * i + j) as nat, 72);
            vstd::arithmetic::div_mod::lemma_small_mod((4 * i + j) as nat, key.len());
        }
        lemma_key_word_bytes(short, key, i, 4);
    }
    lemma_key_schedule_by_key_words(short, key);
}

/// Stepping a position that cycles through `0..len`.
proof fn lemma_cyclic_next(x: int, len: int)
    requires
        x >= 0,
        len > 0,
    ensures
        x % len + 1 < len ==> (x + 1) % len == x % len + 1,
        x % len + 1 >= len ==> (x + 1) % len == 0,
{
    vstd::arithmetic::div_mod::lemma_fundamental_div_mod(x, len);
    vstd::arithmetic::div_mod::lemma_mod_bound(x, len);
    let q = x / len;
    let m = x % len;
    if m + 1 < len {
        vstd::arithmetic::div_mod::lemma_mod_multiples_vanish(q, m + 1, len);
        vstd::arithmetic::div_mod::lemma_small_mod((m + 1) as nat, len as nat);
    } else {
        assert(x + 1 == (q + 1) * len) by (nonlinear_arith)
            requires
                x == len * q + m,
                m + 1 == len,
        ;
        vstd::arithmetic::div_mod::lemma_mod_multiples_basic(q + 1, len);
    }
}

/// The key schedule keeps the sizes of the subkeys.
proof fn lemma_schedule_len(initial: BlowfishKeys, n: nat)
    requires
        n <= 521,
        initial.p.len() == 18,
        initial.s.len() == 1024,
    ensures
        schedule(initial, n).0.p.len() == 18,
        schedule(initial, n).0.s.len() == 1024,
    decreases n,
{
    if n > 0 {
        lemma_schedule_len(initial, (n - 1) as nat);
    }
}

/// The cipher keyed with any key has an 18-entry P-array and 1024 S-box entries.
pub proof fn lemma_key_schedule_len(key: Seq<u8>)
    ensures
        key_schedule(key).p.len() == 18,
        key_schedule(key).s.len() == 1024,
{
    blowfish_consts::lemma_initial_lens();
    lemma_schedule_len(keyed_initial(key), 521);
}

impl XiBlowfish {
    /// Every cipher has an 18-entry P-array and 1024 S-box entries.
    pub proof fn lemma_keys_len(&self)
        ensures
            self@.p.len() == 18,
            self@.s.len() == 1024,
    {
    }

    /// The cipher keyed with `key`.
    pub fn new(key: &[u8]) -> (cipher: Self)
        requires
            key@.len() > 0,
        ensures
            cipher@ == key_schedule(key@),
    {
        let mut cipher = XiBlowfish {
            p: blowfish_consts::initial_p_array(),
            s: blowfish_consts::initial_s_array(),
        };
        let ghost len = key@.len();
        let mut key_index: usize = 0;
        assert(0int % (len as int) == 0) by {
            vstd::arithmetic::div_mod::lemma_small_mod(0, len);
        }
        for i in 0..18
            invariant
                len == key@.len(),
                len > 0,
                key_index == (4 * (i as int)) % (len as int),
                cipher.s@ == blowfish_consts::initial_s(),
                forall|j: int| 0 <= j < i ==> cipher.p@[j] == #[trigger] keyed_initial(key@).p[j],
                forall|j: int| i <= j < 18 ==> cipher.p@[j] == #[trigger] blowfish_consts::initial_p()[j],
        {
            let mut data = 0u32;
            for k in 0..4
                invariant
                    len == key@.len(),
                    len > 0,
                    key_index == (4 * (i as int) + (k as int)) % (len as int),
                    data == key_word(key@, i as nat, k as nat),
            {
                data = (data << 8) | ((key[key_index] as i8) as i32 as u32);
                proof {
                    lemma_cyclic_next(4 * (i as int) + (k as int), len as int);
                }
                key_index += 1;
                if key_index >= key.len() {
                    key_index = 0;
                }
            }
            cipher.p[i] = cipher.p[i] ^ data;
        }
        assert(cipher@.p =~= keyed_initial(key@).p);
        let ghost initial = keyed_initial(key@);
        let mut left = 0u32;
        let mut right = 0u32;
        for k in 0..9
            invariant
                (cipher@, left, right) == schedule(initial, k as nat),
                k < 9 ==> cipher@.p.len() == 18,
        {
            cipher.encipher(&mut left, &mut right);
            cipher.p[2 * k] = left;
            cipher.p[2 * k + 1] = right;
            assert(cipher@ =~= set_pair(schedule(initial, k as nat).0, k as nat, left, right));
        }
        for k in 9..521
            invariant
                (cipher@, left, right) == schedule(initial, k as nat),
        {
            cipher.encipher(&mut left, &mut right);
            cipher.s[2 * (k - 9)] = left;
            cipher.s[2 * (k - 9) + 1] = right;
            assert(cipher@ =~= set_pair(schedule(initial, k as nat).0, k as nat, left, right));
        }
        cipher
    }

    /// Encrypts the block held in `left` and `right` in place.
    pub fn encipher(&self, left: &mut u32, right: &mut u32)
        ensures
            (*final(left), *final(right)) == encipher_block(self@, *old(left), *old(right)),
    {
        let mut xl = *left;
        let mut xr = *right;
        for i in 0..16
            invariant
                (xl, xr) == encipher_rounds(self@, *old(left), *old(right), i as nat),
        {
            xl ^= self.p[i];
            xr ^= self.round(xl);
            let t = xl;
            xl = xr;
            xr = t;
        }
        let t = xl;
        xl = xr;
        xr = t;
        xr ^= self.p[16];
        xl ^= self.p[17];
        *left = xl;
        *right = xr;
    }

    /// Decrypts the block held in `left` and `right` in place.
    pub fn decipher(&self, left: &mut u32, right: &mut u32)
        ensures
            (*final(left), *final(right)) == decipher_block(self@, *old(left), *old(right)),
    {
        let mut xl = *left;
        let mut xr = *right;
        let mut i: usize = 17;
        while i >= 2
            invariant
                1 <= i <= 17,
                (xl, xr) == decipher_rounds(self@, *old(left), *old(right), (17 - i) as nat),
            decreases i,
        {
            xl ^= self.p[i];
            xr ^= self.round(xl);
            let t = xl;
            xl = xr;
            xr = t;
            i -= 1;
        }
        let t = xl;
        xl = xr;
        xr = t;
        xr ^= self.p[1];
        xl ^= self.p[0];
        *left = xl;
        *right = xr;
    }

    /// The round function applied to `working`.
    pub fn round(&self, working: u32) -> (f: u32)
        ensures
            f == feistel(self@.s, working),
    {
        let a = ((working >> 8) & 0xff) as usize;
        let b = (working >> 24) as usize;
        let c = ((working >> 16) & 0xff) as usize;
        let d = (working & 0xff) as usize;
        assert(((working >> 8u32) & 0xffu32) < 256 && (working >> 24u32) < 256 && ((working
            >> 16u32) & 0xffu32) < 256 && (working & 0xffu32) < 256) by (bit_vector);
        ((self.s[256 + a] & 1) ^ 32).wrapping_add((self.s[768 + b] & 1) ^ 32).wrapping_add(
            self.s[512 + c],
        ).wrapping_add(self.s[d])
    }
}

} // verus!
