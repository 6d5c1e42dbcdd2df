//! The search server's packet cipher: MD5-derived Blowfish keys, an MD5 body hash, and
//! block encryption of the packet body.

use md5::{Digest, Md5};
use vstd::prelude::*;

use crate::blowfish::{
    decipher_block, encipher_block, key_schedule, lemma_decipher_encipher, lemma_encipher_decipher,
    BlowfishKeys,
    XiBlowfish,
};
use crate::bytes::{
    bytes_equal, copy_into, le_bytes_u32, lemma_u32_le_bytes_roundtrip, lemma_u32_le_roundtrip,
    read_u32_le, splice, spec_read_u16_le, spec_read_u32_le, spec_write_u16_le, spec_write_u32_le, write_u16_le,
    write_u32_le,
};
use crate::search::{is_invalid_packet, SearchError, HASH_LEN, KEY_TRAILER_LEN};
use vstd::string::StringExecFns;

verus! {

/// The MD5 digest of `data`, as the md-5 crate computes it.
pub uninterp spec fn md5_digest(data: Seq<u8>) -> [u8; 16];

/// The MD5 digest of `data`, from `Md5::digest` of the md-5 crate. Its contract claims only
/// that the digest is a function of the bytes hashed.
#[verifier::external_body]
fn md5_bytes(data: &[u8]) -> (digest: [u8; 16])
    ensures
        digest == md5_digest(data@),
{
    Md5::digest(data).into()
}

/// Which way the cipher runs.
#[derive(Clone, Copy, Debug, PartialEq, Eq, Structural)]
pub enum Direction {
    Encrypt,
    Decrypt,
}

/// A block of two halves, encrypted or decrypted.
pub open spec fn apply_block(k: BlowfishKeys, dir: Direction, l: u32, r: u32) -> (u32, u32) {
    match dir {
        Direction::Encrypt => encipher_block(k, l, r),
        Direction::Decrypt => decipher_block(k, l, r),
    }
}

/// Eight bytes, read as two little-endian halves, run through the cipher and written back.
pub open spec fn block_bytes(k: BlowfishKeys, dir: Direction, b: Seq<u8>) -> Seq<u8> {
    let (l, r) = apply_block(k, dir, spec_read_u32_le(b, 0), spec_read_u32_le(b, 4));
    le_bytes_u32(l) + le_bytes_u32(r)
}

/// The number of eight-byte blocks the cipher covers in a packet of `len` bytes: whole
/// blocks from byte 8 that end at least 4 bytes before the end.
pub open spec fn block_count(len: nat) -> nat {
    if len >= 12 {
        ((len - 12) / 8) as nat
    } else {
        0
    }
}

/// `s` with its first `n` cipher blocks, starting at byte 8, run through the cipher.
#[verifier::opaque]
pub open spec fn crypt_prefix(s: Seq<u8>, k: BlowfishKeys, dir: Direction, n: nat) -> Seq<u8> {
    Seq::new(
        s.len(),
        |i: int|
            if 8 <= i < 8 + 8 * n {
                let b = (i - 8) / 8;
                block_bytes(k, dir, s.subrange(8 + 8 * b, 16 + 8 * b))[(i - 8) % 8]
            } else {
                s[i]
            },
    )
}

/// A packet with every cipher block run through the cipher.
pub open spec fn crypt_bytes(s: Seq<u8>, k: BlowfishKeys, dir: Direction) -> Seq<u8> {
    crypt_prefix(s, k, dir, block_count(s.len()))
}

proof fn lemma_div_mod_8(n: int, j: int)
    requires
        n >= 0,
        0 <= j < 8,
    ensures
        (8 * n + j) / 8 == n,
        (8 * n + j) % 8 == j,
{
    assert((8 * n + j) / 8 == n && (8 * n + j) % 8 == j) by (nonlinear_arith)
        requires
            n >= 0,
            0 <= j < 8,
    ;
}

/// Running one more block through the cipher replaces its eight bytes.
proof fn lemma_crypt_prefix_step(s: Seq<u8>, k: BlowfishKeys, dir: Direction, n: int)
    requires
        0 <= n,
        16 + 8 * n <= s.len(),
    ensures
        crypt_prefix(s, k, dir, (n + 1) as nat) == splice(
            crypt_prefix(s, k, dir, n as nat),
            8 + 8 * n,
            block_bytes(k, dir, s.subrange(8 + 8 * n, 16 + 8 * n)),
        ),
{
    reveal(crypt_prefix);
    let lhs = crypt_prefix(s, k, dir, (n + 1) as nat);
    let rhs = splice(
        crypt_prefix(s, k, dir, n as nat),
        8 + 8 * n,
        block_bytes(k, dir, s.subrange(8 + 8 * n, 16 + 8 * n)),
    );
    assert forall|i: int| 0 <= i < s.len() implies lhs[i] == rhs[i] by {
        if 8 + 8 * n <= i < 16 + 8 * n {
            lemma_div_mod_8(n, i - 8 - 8 * n);
        }
    }
    assert(lhs =~= rhs);
}

/// The bytes of block `b` after the whole packet is run through the cipher.
proof fn lemma_crypt_block(s: Seq<u8>, k: BlowfishKeys, dir: Direction, b: int)
    requires
        0 <= b,
        b < block_count(s.len()),
    ensures
        crypt_bytes(s, k, dir).subrange(8 + 8 * b, 16 + 8 * b) == block_bytes(
            k,
            dir,
            s.subrange(8 + 8 * b, 16 + 8 * b),
        ),
{
    reveal(crypt_prefix);
    let t = crypt_bytes(s, k, dir).subrange(8 + 8 * b, 16 + 8 * b);
    let u = block_bytes(k, dir, s.subrange(8 + 8 * b, 16 + 8 * b));
    assert forall|j: int| 0 <= j < 8 implies t[j] == u[j] by {
        lemma_div_mod_8(b, j);
    }
    assert(t =~= u);
}

/// Decrypting an encrypted block gives back its bytes.
proof fn lemma_block_roundtrip(k: BlowfishKeys, x: Seq<u8>)
    requires
        x.len() == 8,
    ensures
        block_bytes(k, Direction::Decrypt, block_bytes(k, Direction::Encrypt, x)) == x,
{
    let l0 = spec_read_u32_le(x, 0);
    let r0 = spec_read_u32_le(x, 4);
    let (l1, r1) = encipher_block(k, l0, r0);
    let y = le_bytes_u32(l1) + le_bytes_u32(r1);
    lemma_u32_le_roundtrip(l1);
    lemma_u32_le_roundtrip(r1);
    assert(spec_read_u32_le(y, 0) == spec_read_u32_le(le_bytes_u32(l1), 0));
    assert(spec_read_u32_le(y, 4) == spec_read_u32_le(le_bytes_u32(r1), 0));
    lemma_decipher_encipher(k, l0, r0);
    lemma_u32_le_bytes_roundtrip(x, 0);
    lemma_u32_le_bytes_roundtrip(x, 4);
    assert(le_bytes_u32(l0) + le_bytes_u32(r0) =~= x);
}

/// Encrypting a decrypted block gives back its bytes.
proof fn lemma_block_roundtrip_reverse(k: BlowfishKeys, x: Seq<u8>)
    requires
        x.len() == 8,
        k.p.len() == 18,
    ensures
        block_bytes(k, Direction::Encrypt, block_bytes(k, Direction::Decrypt, x)) == x,
{
    let l0 = spec_read_u32_le(x, 0);
    let r0 = spec_read_u32_le(x, 4);
    let (l1, r1) = decipher_block(k, l0, r0);
    let y = le_bytes_u32(l1) + le_bytes_u32(r1);
    lemma_u32_le_roundtrip(l1);
    lemma_u32_le_roundtrip(r1);
    assert(spec_read_u32_le(y, 0) == spec_read_u32_le(le_bytes_u32(l1), 0));
    assert(spec_read_u32_le(y, 4) == spec_read_u32_le(le_bytes_u32(r1), 0));
    lemma_encipher_decipher(k, l0, r0);
    lemma_u32_le_bytes_roundtrip(x, 0);
    lemma_u32_le_bytes_roundtrip(x, 4);
    assert(le_bytes_u32(l0) + le_bytes_u32(r0) =~= x);
}

/// Encrypting a decrypted packet gives back the packet.
pub proof fn lemma_crypt_roundtrip_reverse(s: Seq<u8>, k: BlowfishKeys)
    requires
        k.p.len() == 18,
    ensures
        crypt_bytes(crypt_bytes(s, k, Direction::Decrypt), k, Direction::Encrypt) == s,
{
    reveal(crypt_prefix);
    let e = crypt_bytes(s, k, Direction::Decrypt);
    let d = crypt_bytes(e, k, Direction::Encrypt);
    assert forall|i: int| 0 <= i < s.len() implies d[i] == s[i] by {
        if 8 <= i < 8 + 8 * block_count(s.len()) {
            let b = (i - 8) / 8;
            let j = (i - 8) % 8;
            assert(i == 8 + 8 * b + j);
            lemma_crypt_block(s, k, Direction::Decrypt, b);
            lemma_block_roundtrip_reverse(k, s.subrange(8 + 8 * b, 16 + 8 * b));
        }
    }
    assert(d =~= s);
}

/// Decrypting an encrypted packet gives back the packet.
pub proof fn lemma_crypt_roundtrip(s: Seq<u8>, k: BlowfishKeys)
    ensures
        crypt_bytes(crypt_bytes(s, k, Direction::Encrypt), k, Direction::Decrypt) == s,
{
    reveal(crypt_prefix);
    let e = crypt_bytes(s, k, Direction::Encrypt);
    let d = crypt_bytes(e, k, Direction::Decrypt);
    assert forall|i: int| 0 <= i < s.len() implies d[i] == s[i] by {
        if 8 <= i < 8 + 8 * block_count(s.len()) {
            let b = (i - 8) / 8;
            let j = (i - 8) % 8;
            assert(i == 8 + 8 * b + j);
            lemma_crypt_block(s, k, Direction::Encrypt, b);
            lemma_block_roundtrip(k, s.subrange(8 + 8 * b, 16 + 8 * b));
        }
    }
    assert(d =~= s);
}

/// Bytes from the end of the `n`-th block on are not yet touched.
proof fn lemma_crypt_prefix_rest(s: Seq<u8>, k: BlowfishKeys, dir: Direction, n: int)
    requires
        0 <= n,
        16 + 8 * n <= s.len(),
    ensures
        crypt_prefix(s, k, dir, n as nat).len() == s.len(),
        crypt_prefix(s, k, dir, n as nat).subrange(8 + 8 * n, 16 + 8 * n) == s.subrange(
            8 + 8 * n,
            16 + 8 * n,
        ),
{
    reveal(crypt_prefix);
    assert(crypt_prefix(s, k, dir, n as nat).subrange(8 + 8 * n, 16 + 8 * n) =~= s.subrange(
        8 + 8 * n,
        16 + 8 * n,
    ));
}

/// No block run through the cipher leaves the packet unchanged.
proof fn lemma_crypt_prefix_zero(s: Seq<u8>, k: BlowfishKeys, dir: Direction)
    ensures
        crypt_prefix(s, k, dir, 0) == s,
{
    reveal(crypt_prefix);
    assert(crypt_prefix(s, k, dir, 0) =~= s);
}

/// Two little-endian words written one after the other.
proof fn lemma_write_two_words(s: Seq<u8>, at: int, l: u32, r: u32)
    requires
        0 <= at,
        at + 8 <= s.len(),
    ensures
        spec_write_u32_le(spec_write_u32_le(s, at, l), at + 4, r) == splice(
            s,
            at,
            le_bytes_u32(l) + le_bytes_u32(r),
        ),
{
    assert(spec_write_u32_le(spec_write_u32_le(s, at, l), at + 4, r) =~= splice(
        s,
        at,
        le_bytes_u32(l) + le_bytes_u32(r),
    ));
}

/// Runs the cipher blocks of `packet` through the cipher keyed with `key`.
pub fn blowfish_crypt(packet: &mut Vec<u8>, key: &[u8; 16], direction: Direction)
    requires
        old(packet)@.len() >= 12,
    ensures
        final(packet)@ == crypt_bytes(old(packet)@, key_schedule(key@), direction),
        final(packet)@.len() == old(packet)@.len(),
{
    let cipher = XiBlowfish::new(key.as_slice());
    let len = packet.len();
    let mut words = (len - 12) / 4;
    words -= words % 2;
    let ghost orig = packet@;
    let ghost k = key_schedule(key@);
    assert(words / 2 == block_count(len as nat));
    proof {
        lemma_crypt_prefix_zero(orig, k, direction);
    }
    let mut i: usize = 0;
    while i < words
        invariant
            cipher@ == k,
            len == orig.len(),
            words % 2 == 0,
            words / 2 == block_count(len as nat),
            i % 2 == 0,
            i <= words,
            packet@ == crypt_prefix(orig, k, direction, (i / 2) as nat),
            packet@.len() == len,
        decreases words - i,
    {
        let start = (i + 2) * 4;
        let end = start + 8;
        // every block ends at least four bytes before the end of the packet
        assert(end + 4 <= len);
        let ghost before = packet@;
        let ghost n = (i / 2) as int;
        proof {
            lemma_crypt_prefix_rest(orig, k, direction, n);
        }
        let mut left = read_u32_le(packet.as_slice(), start);
        let mut right = read_u32_le(packet.as_slice(), start + 4);
        match direction {
            Direction::Encrypt => cipher.encipher(&mut left, &mut right),
            Direction::Decrypt => cipher.decipher(&mut left, &mut right),
        }
        write_u32_le(packet, start, left);
        write_u32_le(packet, start + 4, right);
        proof {
            lemma_crypt_prefix_step(orig, k, direction, n);
            lemma_write_two_words(before, start as int, left, right);
            assert(block_bytes(k, direction, orig.subrange(start as int, end as int)) == le_bytes_u32(left) + le_bytes_u32(right));
        }
        i += 2;
    }
}


/// The magic word "IXFF" at bytes 4..8 of every packet.
pub const IXFF: u32 = 0x4646_5849;

/// Bytes of the packet header: length, padding and magic word.
pub const HEADER_LEN: usize = 8;

/// The key both sides start from; bytes 16..20 and 20..24 are filled in as packets pass.
pub const INITIAL_KEY: [u8; 24] = [
    0x30, 0x73, 0x3D, 0x6D, 0x3C, 0x31, 0x49, 0x5A, 0x32, 0x7A, 0x42, 0x43, 0x63, 0x38, 0x7B, 0x7E,
    0x00, 0x00, 0x00, 0x00, 0x00, 0x00, 0x00, 0x00,
];

/// The hashed body of a packet: from the end of the header to the hash.
pub open spec fn body(p: Seq<u8>) -> Seq<u8> {
    p.subrange(HEADER_LEN as int, p.len() - 20)
}

/// The hash field of a packet: the 16 bytes before the key trailer.
pub open spec fn hash_field(p: Seq<u8>) -> Seq<u8> {
    p.subrange(p.len() - 20, p.len() - 4)
}

/// Whether the hash field of a packet is the MD5 digest of its body.
pub open spec fn hash_valid(p: Seq<u8>) -> bool {
    hash_field(p) == md5_digest(body(p))@
}

/// The packet with its header (length as 16 bits, then the magic word at byte 4) and its
/// hash field filled in.
pub open spec fn framed(p: Seq<u8>) -> Seq<u8> {
    let len = p.len();
    let header = spec_write_u32_le(spec_write_u16_le(p, 0, len as u16), 4, IXFF);
    splice(header, len - 20, md5_digest(body(p))@)
}

/// The cipher keys derived from `key`: Blowfish keyed with its MD5 digest.
pub open spec fn derived_keys(key: Seq<u8>) -> BlowfishKeys {
    key_schedule(md5_digest(key)@)
}

/// The packet framed, encrypted with the keys derived from `cipher_key`, and ended with
/// `trailer`.
pub open spec fn sealed(p: Seq<u8>, cipher_key: Seq<u8>, trailer: Seq<u8>) -> Seq<u8> {
    splice(
        crypt_bytes(framed(p), derived_keys(cipher_key), Direction::Encrypt),
        p.len() - 4,
        trailer,
    )
}

/// The key with bytes 16..20 taken from the trailer of packet `p`.
pub open spec fn trailer_key(key: Seq<u8>, p: Seq<u8>) -> Seq<u8> {
    splice(key, 16, p.subrange(p.len() - 4, p.len() as int))
}

/// The packet decrypted with the keys derived from `cipher_key`.
pub open spec fn opened(p: Seq<u8>, cipher_key: Seq<u8>) -> Seq<u8> {
    crypt_bytes(p, derived_keys(cipher_key), Direction::Decrypt)
}

/// How opening a packet ends.
pub enum Unsealed {
    /// The packet is shorter than 28 bytes.
    TooShort,
    /// The decrypted hash field does not match the body.
    BadHash,
    /// The decrypted packet.
    Opened(Seq<u8>),
}

/// A client request sealed under `key`: framed and encrypted with the keys derived from
/// the first 20 bytes of the key, and ended with key bytes 16..20.
pub open spec fn sealed_request(key: Seq<u8>, p: Seq<u8>) -> Seq<u8> {
    sealed(p, key.take(20), key.subrange(16, 20))
}

/// A server response sealed under `key`: as a request, but encrypted with the keys derived
/// from all 24 key bytes.
pub open spec fn sealed_response(key: Seq<u8>, p: Seq<u8>) -> Seq<u8> {
    sealed(p, key, key.subrange(16, 20))
}

/// Opening a server response under `key`: the key after, and the outcome. The trailer
/// replaces key bytes 16..20; the packet is decrypted with the keys derived from the whole
/// key; on success the four bytes before the hash become key bytes 20..24.
pub open spec fn open_response(key: Seq<u8>, p: Seq<u8>) -> (Seq<u8>, Unsealed) {
    let len = p.len();
    if len < 28 {
        (key, Unsealed::TooShort)
    } else {
        let k1 = trailer_key(key, p);
        let q = opened(p, k1);
        if !hash_valid(q) {
            (k1, Unsealed::BadHash)
        } else {
            (splice(k1, 20, q.subrange(len - 24, len - 20)), Unsealed::Opened(q))
        }
    }
}

/// Opening a client request under `key`, as the server does: the key after, and the
/// outcome. The trailer replaces key bytes 16..20 and the packet is decrypted with the
/// keys derived from the first 20 key bytes.
pub open spec fn open_request(key: Seq<u8>, p: Seq<u8>) -> (Seq<u8>, Unsealed) {
    let k1 = trailer_key(key, p);
    let q = opened(p, k1.take(20));
    (
        k1,
        if hash_valid(q) {
            Unsealed::Opened(q)
        } else {
            Unsealed::BadHash
        },
    )
}

/// The cipher keeps the length of a packet.
pub proof fn lemma_crypt_len(s: Seq<u8>, k: BlowfishKeys, dir: Direction)
    ensures
        crypt_bytes(s, k, dir).len() == s.len(),
{
    reveal(crypt_prefix);
}

/// The cipher changes only the blocks from byte 8 on, which end at least four bytes
/// before the end: the header and the key trailer pass through unchanged.
pub proof fn lemma_crypt_keeps_header_and_trailer(s: Seq<u8>, k: BlowfishKeys, dir: Direction)
    requires
        s.len() >= 12,
    ensures
        8 + 8 * block_count(s.len()) <= s.len() - 4,
        forall|i: int|
            0 <= i < s.len() && !(8 <= i < 8 + 8 * block_count(s.len())) ==> #[trigger] crypt_bytes(
                s,
                k,
                dir,
            )[i] == s[i],
{
    reveal(crypt_prefix);
}

/// The cipher leaves the last four bytes of a packet, its key trailer, untouched: changing
/// them before or after the cipher runs gives the same packet.
pub proof fn lemma_crypt_tail(s: Seq<u8>, t: Seq<u8>, k: BlowfishKeys, dir: Direction)
    requires
        s.len() >= 12,
        t.len() == 4,
    ensures
        crypt_bytes(splice(s, s.len() - 4, t), k, dir) == splice(crypt_bytes(s, k, dir), s.len() - 4, t),
{
    reveal(crypt_prefix);
    let len = s.len();
    let a = splice(s, len - 4, t);
    let n = block_count(len);
    let lhs = crypt_bytes(a, k, dir);
    let rhs = splice(crypt_bytes(s, k, dir), len - 4, t);
    assert forall|i: int| 0 <= i < len implies lhs[i] == rhs[i] by {
        if 8 <= i < 8 + 8 * n {
            let b = (i - 8) / 8;
            assert(16 + 8 * b <= len - 4);
            assert(a.subrange(8 + 8 * b, 16 + 8 * b) =~= s.subrange(8 + 8 * b, 16 + 8 * b));
        }
    }
    assert(lhs =~= rhs);
}

/// The framed packet has the length of the packet, holds its body unchanged, and carries
/// the MD5 digest of that body in its hash field.
proof fn lemma_framed(p: Seq<u8>)
    requires
        p.len() >= 28,
    ensures
        framed(p).len() == p.len(),
        body(framed(p)) == body(p),
        hash_field(framed(p)) == md5_digest(body(p))@,
{
    let f = framed(p);
    assert(body(f) =~= body(p));
    assert(hash_field(f) =~= md5_digest(body(p))@);
}

/// The layout of a framed packet, byte by byte: its length as 16 bits at byte 0, bytes 2..4
/// kept, the magic word at byte 4, the body (bytes 8 up to 20 before the end) kept, then
/// the MD5 digest of that body, then the last four bytes kept.
pub proof fn lemma_framed_layout(p: Seq<u8>)
    requires
        28 <= p.len() <= 0xffff,
    ensures
        ({
            let f = framed(p);
            let len = p.len() as int;
            &&& f.len() == p.len()
            &&& spec_read_u16_le(f, 0) == p.len()
            &&& f[2] == p[2] && f[3] == p[3]
            &&& spec_read_u32_le(f, 4) == IXFF
            &&& f.subrange(8, len - 20) == p.subrange(8, len - 20)
            &&& f.subrange(len - 20, len - 4) == md5_digest(p.subrange(8, len - 20))@
            &&& f.subrange(len - 4, len) == p.subrange(len - 4, len)
        }),
{
    let len = p.len() as int;
    let f = framed(p);
    let h0 = spec_write_u16_le(p, 0, len as u16);
    let h = spec_write_u32_le(h0, 4, IXFF);
    lemma_u32_le_roundtrip(IXFF);
    let lb = le_bytes_u32(IXFF);
    assert(f[4] == lb[0] && f[5] == lb[1] && f[6] == lb[2] && f[7] == lb[3]);
    let v = len as u16;
    assert(v == len);
    assert(f[0] == (v % 0x100) as u8 && f[1] == (v / 0x100) as u8);
    assert(f.subrange(8, len - 20) =~= p.subrange(8, len - 20));
    assert(f.subrange(len - 20, len - 4) =~= md5_digest(p.subrange(8, len - 20))@);
    assert(f.subrange(len - 4, len) =~= p.subrange(len - 4, len));
}

/// A packet that was framed and then given another trailer still carries a valid hash.
proof fn lemma_retrailed_hash_valid(p: Seq<u8>, t: Seq<u8>)
    requires
        p.len() >= 28,
        t.len() == 4,
    ensures
        hash_valid(splice(framed(p), p.len() - 4, t)),
        splice(framed(p), p.len() - 4, t).len() == p.len(),
{
    lemma_framed(p);
    let q = splice(framed(p), p.len() - 4, t);
    assert(body(q) =~= body(framed(p)));
    assert(hash_field(q) =~= hash_field(framed(p)));
}

/// A client request sealed under a key opens, under the same key, to the framed request
/// carrying the key trailer, and leaves the key as it was.
pub proof fn lemma_request_roundtrip(key: Seq<u8>, p: Seq<u8>)
    requires
        key.len() == 24,
        p.len() >= 28,
    ensures
        open_request(key, sealed_request(key, p)) == (
            key,
            Unsealed::Opened(splice(framed(p), p.len() - 4, key.subrange(16, 20))),
        ),
{
    let len = p.len();
    let t = key.subrange(16, 20);
    let kd = derived_keys(key.take(20));
    let f = framed(p);
    lemma_framed(p);
    let e = crypt_bytes(f, kd, Direction::Encrypt);
    lemma_crypt_len(f, kd, Direction::Encrypt);
    let c = splice(e, len - 4, t);
    assert(c.subrange(len - 4, len as int) =~= t);
    assert(trailer_key(key, c) =~= key);
    lemma_crypt_tail(e, t, kd, Direction::Decrypt);
    lemma_crypt_roundtrip(f, kd);
    lemma_retrailed_hash_valid(p, t);
}

/// A server response sealed under a key opens, under the same key, to the framed response
/// carrying the key trailer; the key then takes the four bytes before the hash as bytes
/// 20..24.
pub proof fn lemma_response_roundtrip(key: Seq<u8>, p: Seq<u8>)
    requires
        key.len() == 24,
        p.len() >= 28,
    ensures
        ({
            let q = splice(framed(p), p.len() - 4, key.subrange(16, 20));
            open_response(key, sealed_response(key, p)) == (
                splice(key, 20, q.subrange(p.len() - 24, p.len() - 20)),
                Unsealed::Opened(q),
            )
        }),
{
    let len = p.len();
    let t = key.subrange(16, 20);
    let kd = derived_keys(key);
    let f = framed(p);
    lemma_framed(p);
    let e = crypt_bytes(f, kd, Direction::Encrypt);
    lemma_crypt_len(f, kd, Direction::Encrypt);
    let c = splice(e, len - 4, t);
    assert(c.subrange(len - 4, len as int) =~= t);
    assert(trailer_key(key, c) =~= key);
    lemma_crypt_tail(e, t, kd, Direction::Decrypt);
    lemma_crypt_roundtrip(f, kd);
    lemma_retrailed_hash_valid(p, t);
}

/// The two words of cipher block `b` of a packet, after the cipher ran over the packet, are
/// the block's two words before, run through the block cipher.
proof fn lemma_crypt_block_words(s: Seq<u8>, k: BlowfishKeys, dir: Direction, b: int)
    requires
        0 <= b < block_count(s.len()),
    ensures
        8 + 8 * block_count(s.len()) <= s.len() - 4,
        crypt_bytes(s, k, dir).len() == s.len(),
        (spec_read_u32_le(crypt_bytes(s, k, dir), 8 + 8 * b), spec_read_u32_le(
            crypt_bytes(s, k, dir),
            12 + 8 * b,
        )) == apply_block(k, dir, spec_read_u32_le(s, 8 + 8 * b), spec_read_u32_le(s, 12 + 8 * b)),
{
    lemma_crypt_len(s, k, dir);
    lemma_crypt_keeps_header_and_trailer(s, k, dir);
    lemma_crypt_block(s, k, dir, b);
    assert(16 + 8 * b <= 8 + 8 * block_count(s.len())) by (nonlinear_arith)
        requires
            0 <= b < block_count(s.len()),
    ;
    let c = crypt_bytes(s, k, dir);
    let x = s.subrange(8 + 8 * b, 16 + 8 * b);
    let (l, r) = apply_block(k, dir, spec_read_u32_le(x, 0), spec_read_u32_le(x, 4));
    let y = le_bytes_u32(l) + le_bytes_u32(r);
    assert(c.subrange(8 + 8 * b, 16 + 8 * b) == y);
    assert forall|j: int| 0 <= j < 8 implies c[8 + 8 * b + j] == y[j] by {
        assert(c.subrange(8 + 8 * b, 16 + 8 * b)[j] == c[8 + 8 * b + j]);
    }
    assert(spec_read_u32_le(x, 0) == spec_read_u32_le(s, 8 + 8 * b));
    assert(spec_read_u32_le(x, 4) == spec_read_u32_le(s, 12 + 8 * b));
    lemma_u32_le_roundtrip(l);
    lemma_u32_le_roundtrip(r);
    let ll = le_bytes_u32(l);
    let rr = le_bytes_u32(r);
    assert forall|j: int| 0 <= j < 4 implies c[8 + 8 * b + j] == ll[j] && c[12 + 8 * b + j]
        == rr[j] by {
        assert(c[8 + 8 * b + j] == y[j]);
        assert(c[8 + 8 * b + (4 + j)] == y[4 + j]);
    }
    assert(c[8 + 8 * b] == ll[0] && c[8 + 8 * b + 1] == ll[1] && c[8 + 8 * b + 2] == ll[2] && c[8
        + 8 * b + 3] == ll[3]);
    assert(c[12 + 8 * b] == rr[0] && c[12 + 8 * b + 1] == rr[1] && c[12 + 8 * b + 2] == rr[2]
        && c[12 + 8 * b + 3] == rr[3]);
}

/// Block `b` of a sealed packet, as two words, is block `b` of the framed packet run through
/// the cipher keyed with the MD5 digest of `cipher_key`, encrypting.
proof fn lemma_sealed_block(p: Seq<u8>, cipher_key: Seq<u8>, t: Seq<u8>, b: int)
    requires
        p.len() >= 28,
        t.len() == 4,
        0 <= b < block_count(p.len()),
    ensures
        ({
            let c = sealed(p, cipher_key, t);
            let f = framed(p);
            (spec_read_u32_le(c, 8 + 8 * b), spec_read_u32_le(c, 12 + 8 * b)) == encipher_block(
                key_schedule(md5_digest(cipher_key)@),
                spec_read_u32_le(f, 8 + 8 * b),
                spec_read_u32_le(f, 12 + 8 * b),
            )
        }),
{
    let f = framed(p);
    lemma_framed(p);
    let kd = derived_keys(cipher_key);
    lemma_crypt_block_words(f, kd, Direction::Encrypt, b);
    let e = crypt_bytes(f, kd, Direction::Encrypt);
    let c = sealed(p, cipher_key, t);
    assert(16 + 8 * b <= 8 + 8 * block_count(p.len())) by (nonlinear_arith)
        requires
            0 <= b < block_count(p.len()),
    ;
    assert forall|i: int| 0 <= i < p.len() - 4 implies c[i] == e[i] by {}
    assert(spec_read_u32_le(c, 8 + 8 * b) == spec_read_u32_le(e, 8 + 8 * b));
    assert(spec_read_u32_le(c, 12 + 8 * b) == spec_read_u32_le(e, 12 + 8 * b));
}

/// Outside its cipher blocks a sealed packet is the framed packet, ended with the trailer.
proof fn lemma_sealed_frame(p: Seq<u8>, cipher_key: Seq<u8>, t: Seq<u8>)
    requires
        p.len() >= 28,
        t.len() == 4,
    ensures
        ({
            let c = sealed(p, cipher_key, t);
            let f = framed(p);
            &&& c.len() == p.len()
            &&& c.subrange(0, 8) == f.subrange(0, 8)
            &&& c.subrange(p.len() - 4, p.len() as int) == t
            &&& forall|i: int|
                8 + 8 * block_count(p.len()) <= i < p.len() - 4 ==> #[trigger] c[i] == f[i]
        }),
{
    let f = framed(p);
    lemma_framed(p);
    let kd = derived_keys(cipher_key);
    lemma_crypt_len(f, kd, Direction::Encrypt);
    lemma_crypt_keeps_header_and_trailer(f, kd, Direction::Encrypt);
    let c = sealed(p, cipher_key, t);
    assert(c.subrange(0, 8) =~= f.subrange(0, 8));
    assert(c.subrange(p.len() - 4, p.len() as int) =~= t);
}

/// A sealed client request is the framed request (length, magic word and MD5 hash filled
/// in), with every cipher block encrypted by Blowfish keyed with the MD5 digest of key bytes
/// 0..20, and key bytes 16..20 as its last four bytes; the header and the bytes after the
/// last block pass through.
pub proof fn lemma_sealed_request_cipher(key: Seq<u8>, p: Seq<u8>, b: int)
    requires
        key.len() == 24,
        p.len() >= 28,
        0 <= b < block_count(p.len()),
    ensures
        ({
            let c = sealed_request(key, p);
            let f = framed(p);
            &&& (spec_read_u32_le(c, 8 + 8 * b), spec_read_u32_le(c, 12 + 8 * b)) == encipher_block(
                key_schedule(md5_digest(key.subrange(0, 20))@),
                spec_read_u32_le(f, 8 + 8 * b),
                spec_read_u32_le(f, 12 + 8 * b),
            )
            &&& c.len() == p.len()
            &&& c.subrange(0, 8) == f.subrange(0, 8)
            &&& c.subrange(p.len() - 4, p.len() as int) == key.subrange(16, 20)
            &&& forall|i: int|
                8 + 8 * block_count(p.len()) <= i < p.len() - 4 ==> #[trigger] c[i] == f[i]
        }),
{
    assert(key.take(20) =~= key.subrange(0, 20));
    lemma_sealed_block(p, key.take(20), key.subrange(16, 20), b);
    lemma_sealed_frame(p, key.take(20), key.subrange(16, 20));
}

/// A sealed server response is built as a request, but its blocks are encrypted by Blowfish
/// keyed with the MD5 digest of all 24 key bytes.
pub proof fn lemma_sealed_response_cipher(key: Seq<u8>, p: Seq<u8>, b: int)
    requires
        key.len() == 24,
        p.len() >= 28,
        0 <= b < block_count(p.len()),
    ensures
        ({
            let c = sealed_response(key, p);
            let f = framed(p);
            &&& (spec_read_u32_le(c, 8 + 8 * b), spec_read_u32_le(c, 12 + 8 * b)) == encipher_block(
                key_schedule(md5_digest(key)@),
                spec_read_u32_le(f, 8 + 8 * b),
                spec_read_u32_le(f, 12 + 8 * b),
            )
            &&& c.len() == p.len()
            &&& c.subrange(0, 8) == f.subrange(0, 8)
            &&& c.subrange(p.len() - 4, p.len() as int) == key.subrange(16, 20)
            &&& forall|i: int|
                8 + 8 * block_count(p.len()) <= i < p.len() - 4 ==> #[trigger] c[i] == f[i]
        }),
{
    lemma_sealed_block(p, key, key.subrange(16, 20), b);
    lemma_sealed_frame(p, key, key.subrange(16, 20));
}

/// An opened server response: block `b` of the result, as two words, is block `b` of the
/// packet decrypted by Blowfish keyed with the MD5 digest of the key whose bytes 16..20 are
/// the packet's last four bytes; every other byte is the packet's; its hash is valid; and the
/// key after is that key with the four bytes before the hash as bytes 20..24.
pub proof fn lemma_open_response_cipher(key: Seq<u8>, p: Seq<u8>, b: int)
    requires
        key.len() == 24,
        p.len() >= 28,
        0 <= b < block_count(p.len()),
    ensures
        ({
            let k1 = key.subrange(0, 16) + p.subrange(p.len() - 4, p.len() as int) + key.subrange(
                20,
                24,
            );
            open_response(key, p).1 matches Unsealed::Opened(q) ==> {
                &&& (spec_read_u32_le(q, 8 + 8 * b), spec_read_u32_le(q, 12 + 8 * b))
                    == decipher_block(
                    key_schedule(md5_digest(k1)@),
                    spec_read_u32_le(p, 8 + 8 * b),
                    spec_read_u32_le(p, 12 + 8 * b),
                )
                &&& q.len() == p.len()
                &&& forall|i: int|
                    0 <= i < p.len() && !(8 <= i < 8 + 8 * block_count(p.len())) ==> #[trigger] q[i]
                        == p[i]
                &&& hash_valid(q)
                &&& open_response(key, p).0 == k1.subrange(0, 20) + q.subrange(
                    p.len() - 24,
                    p.len() - 20,
                )
            }
        }),
{
    let len = p.len();
    let k1 = key.subrange(0, 16) + p.subrange(len - 4, len as int) + key.subrange(20, 24);
    assert(trailer_key(key, p) =~= k1);
    let kd = derived_keys(k1);
    lemma_crypt_block_words(p, kd, Direction::Decrypt, b);
    lemma_crypt_keeps_header_and_trailer(p, kd, Direction::Decrypt);
    let q = opened(p, k1);
    assert(splice(k1, 20, q.subrange(len - 24, len - 20)) =~= k1.subrange(0, 20) + q.subrange(
        len - 24,
        len - 20,
    ));
}

/// An opened client request, as the server opens it: block `b` of the result, as two words,
/// is block `b` of the packet decrypted by Blowfish keyed with the MD5 digest of key bytes
/// 0..16 followed by the packet's last four bytes; every other byte is the packet's, and its
/// hash is valid.
pub proof fn lemma_open_request_cipher(key: Seq<u8>, p: Seq<u8>, b: int)
    requires
        key.len() == 24,
        p.len() >= 28,
        0 <= b < block_count(p.len()),
    ensures
        ({
            let k1 = key.subrange(0, 16) + p.subrange(p.len() - 4, p.len() as int);
            open_request(key, p).1 matches Unsealed::Opened(q) ==> {
                &&& (spec_read_u32_le(q, 8 + 8 * b), spec_read_u32_le(q, 12 + 8 * b))
                    == decipher_block(
                    key_schedule(md5_digest(k1)@),
                    spec_read_u32_le(p, 8 + 8 * b),
                    spec_read_u32_le(p, 12 + 8 * b),
                )
                &&& q.len() == p.len()
                &&& forall|i: int|
                    0 <= i < p.len() && !(8 <= i < 8 + 8 * block_count(p.len())) ==> #[trigger] q[i]
                        == p[i]
                &&& hash_valid(q)
            }
        }),
{
    let len = p.len();
    let k1 = key.subrange(0, 16) + p.subrange(len - 4, len as int);
    assert(trailer_key(key, p).take(20) =~= k1);
    let kd = derived_keys(k1);
    lemma_crypt_block_words(p, kd, Direction::Decrypt, b);
    lemma_crypt_keeps_header_and_trailer(p, kd, Direction::Decrypt);
}

/// The cipher state of one side of a search-server connection: its 24-byte key.
pub struct SearchCrypto {
    key: [u8; 24],
}

impl View for SearchCrypto {
    type V = Seq<u8>;

    closed spec fn view(&self) -> Seq<u8> {
        self.key@
    }
}

/// Whether the hash field of a decrypted packet is the MD5 digest of its body.
pub fn validate_hash(packet: &[u8]) -> (res: Result<(), SearchError>)
    requires
        packet@.len() >= 28,
    ensures
        res is Ok <==> hash_valid(packet@),
        res matches Err(e) ==> is_invalid_packet(e, "MD5 validation failed"@),
{
    let len = packet.len();
    let hash_start = len - HASH_LEN - KEY_TRAILER_LEN;
    let expected = md5_bytes(&packet[HEADER_LEN..hash_start]);
    if !bytes_equal(&packet[hash_start..hash_start + HASH_LEN], expected.as_slice()) {
        return Err(SearchError::InvalidPacket(String::from_str("MD5 validation failed")));
    }
    Ok(())
}

/// Frames `packet`, encrypts it with the keys derived from `cipher_key`, and ends it with
/// `trailer`.
fn seal(packet: Vec<u8>, cipher_key: &[u8], trailer: &[u8]) -> (sealed_packet: Vec<u8>)
    requires
        packet@.len() >= 28,
        trailer@.len() == 4,
    ensures
        sealed_packet@ == sealed(packet@, cipher_key@, trailer@),
{
    let mut packet = packet;
    let ghost orig = packet@;
    let len = packet.len();
    write_u16_le(&mut packet, 0, len as u16);
    write_u32_le(&mut packet, 4, IXFF);
    let digest = md5_bytes(cipher_key);
    let hash_start = len - HASH_LEN - KEY_TRAILER_LEN;
    assert(packet@.subrange(HEADER_LEN as int, hash_start as int) =~= body(orig));
    let hash = md5_bytes(&packet.as_slice()[HEADER_LEN..hash_start]);
    copy_into(&mut packet, hash_start, hash.as_slice());
    assert(packet@ =~= framed(orig));
    blowfish_crypt(&mut packet, &digest, Direction::Encrypt);
    copy_into(&mut packet, len - KEY_TRAILER_LEN, trailer);
    packet
}

impl SearchCrypto {
    /// Every cipher state holds a 24-byte key.
    pub proof fn lemma_key_len(&self)
        ensures
            self@.len() == 24,
    {
    }

    /// A fresh cipher state holding the initial key.
    pub fn new() -> (crypto: Self)
        ensures
            crypto@ == INITIAL_KEY@,
    {
        SearchCrypto { key: INITIAL_KEY }
    }

    /// Seals a client request: frames it, encrypts it with the keys derived from key bytes
    /// 0..20, and ends it with key bytes 16..20. Packets under 28 bytes are refused.
    pub fn encrypt(&mut self, packet: Vec<u8>) -> (res: Result<Vec<u8>, SearchError>)
        ensures
            final(self)@ == old(self)@,
            packet@.len() < 28 <==> res is Err,
            res matches Ok(sealed_packet) ==> sealed_packet@ == sealed_request(old(self)@, packet@),
            res matches Err(e) ==> is_invalid_packet(e, "packet too short to encrypt"@),
    {
        if packet.len() < 28 {
            return Err(SearchError::InvalidPacket(String::from_str("packet too short to encrypt")));
        }
        let sealed_packet = seal(packet, &self.key.as_slice()[0..20], &self.key.as_slice()[16..20]);
        assert(self.key@.subrange(0, 20) =~= self.key@.take(20));
        Ok(sealed_packet)
    }

    /// Seals a server response: as [`SearchCrypto::encrypt`], but encrypted with the keys
    /// derived from the whole key.
    pub fn encrypt_server_response_for_test(&mut self, packet: Vec<u8>) -> (res: Result<Vec<u8>, SearchError>)
        requires
            packet@.len() >= 28,
        ensures
            final(self)@ == old(self)@,
            res matches Ok(sealed_packet) && sealed_packet@ == sealed_response(old(self)@, packet@),
    {
        let sealed_packet = seal(packet, self.key.as_slice(), &self.key.as_slice()[16..20]);
        Ok(sealed_packet)
    }

    /// Takes key bytes 16..20 from the trailer of `packet`.
    fn take_trailer(&mut self, packet: &Vec<u8>)
        requires
            old(self)@.len() == 24,
            packet@.len() >= 4,
        ensures
            final(self)@ == trailer_key(old(self)@, packet@),
    {
        let len = packet.len();
        for j in 0..4
            invariant
                len == packet@.len(),
                len >= 4,
                self.key@ == splice(old(self)@, 16, packet@.subrange(len - 4, len - 4 + j)),
        {
            self.key[16 + j] = packet[len - 4 + j];
            assert(self.key@ =~= splice(old(self)@, 16, packet@.subrange(len - 4, len - 4 + j + 1)));
        }
    }

    /// Opens a server response: takes key bytes 16..20 from its trailer, decrypts it with
    /// the keys derived from the whole key and tests its hash; on success the four bytes
    /// before the hash become key bytes 20..24.
    pub fn decrypt(&mut self, packet: Vec<u8>) -> (res: Result<Vec<u8>, SearchError>)
        ensures
            final(self)@ == open_response(old(self)@, packet@).0,
            res matches Ok(q) ==> open_response(old(self)@, packet@).1 == Unsealed::Opened(q@),
            res matches Err(e) ==> (open_response(old(self)@, packet@).1 == Unsealed::TooShort
                && is_invalid_packet(e, "packet too short to decrypt"@)) || (open_response(
                old(self)@,
                packet@,
            ).1 == Unsealed::BadHash && is_invalid_packet(e, "MD5 validation failed"@)),
    {
        let mut packet = packet;
        let len = packet.len();
        if len < 28 {
            return Err(SearchError::InvalidPacket(String::from_str("packet too short to decrypt")));
        }
        self.take_trailer(&packet);
        let digest = md5_bytes(self.key.as_slice());
        blowfish_crypt(&mut packet, &digest, Direction::Decrypt);
        match validate_hash(packet.as_slice()) {
            Ok(()) => {},
            Err(e) => {
                return Err(e);
            },
        }
        let ghost k1 = self.key@;
        for j in 0..4
            invariant
                len == packet@.len(),
                len >= 28,
                self.key@ == splice(k1, 20, packet@.subrange(len - 24, len - 24 + j)),
                k1.len() == 24,
        {
            self.key[20 + j] = packet[len - 0x18 + j];
            assert(self.key@ =~= splice(k1, 20, packet@.subrange(len - 24, len - 24 + j + 1)));
        }
        Ok(packet)
    }

    /// Opens a client request as the server does: takes key bytes 16..20 from its trailer,
    /// decrypts it with the keys derived from key bytes 0..20 and tests its hash.
    pub fn decrypt_client_request_for_test(&mut self, packet: Vec<u8>) -> (res: Result<Vec<u8>, SearchError>)
        requires
            packet@.len() >= 28,
        ensures
            final(self)@ == open_request(old(self)@, packet@).0,
            res matches Ok(q) ==> open_request(old(self)@, packet@).1 == Unsealed::Opened(q@),
            res matches Err(e) ==> open_request(old(self)@, packet@).1 == Unsealed::BadHash
                && is_invalid_packet(e, "MD5 validation failed"@),
    {
        let mut packet = packet;
        self.take_trailer(&packet);
        let digest = md5_bytes(&self.key.as_slice()[0..20]);
        assert(self.key@.subrange(0, 20) =~= self.key@.take(20));
        blowfish_crypt(&mut packet, &digest, Direction::Decrypt);
        match validate_hash(packet.as_slice()) {
            Ok(()) => Ok(packet),
            Err(e) => Err(e),
        }
    }
}

} // verus!
