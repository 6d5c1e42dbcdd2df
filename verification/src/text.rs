//! Rendering numbers as text.

use vstd::prelude::*;
use vstd::string::StringExecFns;

verus! {

/// `String::push` appends one character.
pub assume_specification[ String::push ](string: &mut String, ch: char)
    ensures
        final(string)@ == old(string)@.push(ch),
;

/// The character for digit `d` (`0`-`9`, then lower-case `a`-`z`).
pub open spec fn digit_char(d: nat) -> char {
    if d < 10 {
        (48 + d) as char
    } else {
        (87 + d) as char
    }
}

/// The digits of `n` in base `radix`, most significant first, without leading zeros
/// (zero is the single digit `0`).
pub open spec fn digits(n: nat, radix: nat) -> Seq<char>
    recommends
        2 <= radix <= 36,
    decreases n,
    when radix >= 2
{
    if n < radix {
        seq![digit_char(n)]
    } else {
        proof {
            vstd::arithmetic::div_mod::lemma_div_decreases(n as int, radix as int);
        }
        digits(n / radix, radix).push(digit_char(n % radix))
    }
}

/// The decimal digits of `n`.
pub open spec fn decimal(n: nat) -> Seq<char> {
    digits(n, 10)
}

/// The lower-case hexadecimal digits of `n`.
pub open spec fn hex(n: nat) -> Seq<char> {
    digits(n, 16)
}

/// The lower-case hexadecimal digits of `n`, padded with zeros to at least two digits.
pub open spec fn hex2(n: nat) -> Seq<char> {
    if n < 16 {
        seq!['0'] + hex(n)
    } else {
        hex(n)
    }
}

/// Appends the digits of `n` in base `radix` to `out`.
pub fn push_digits(out: &mut String, n: u64, radix: u64)
    requires
        2 <= radix <= 36,
    ensures
        final(out)@ == old(out)@ + digits(n as nat, radix as nat),
    decreases n,
{
    if n >= radix {
        proof {
            vstd::arithmetic::div_mod::lemma_div_decreases(n as int, radix as int);
        }
        push_digits(out, n / radix, radix);
    } else {
        proof {
            vstd::arithmetic::div_mod::lemma_small_mod(n as nat, radix as nat);
        }
    }
    let d = n % radix;
    let c = if d < 10 {
        (48 + d as u8) as char
    } else {
        (87 + d as u8) as char
    };
    out.push(c);
    assert(out@ =~= old(out)@ + digits(n as nat, radix as nat));
}

/// Bytes as lower-case two-digit hexadecimal numbers, each followed by a space.
pub open spec fn hex_bytes(b: Seq<u8>) -> Seq<char>
    decreases b.len(),
{
    if b.len() == 0 {
        Seq::empty()
    } else {
        hex_bytes(b.drop_last()) + hex2(b.last() as nat) + seq![' ']
    }
}

/// The number of 16-byte lines needed for `n` bytes.
pub open spec fn dump_line_count(n: nat) -> nat {
    (n + 15) / 16
}

/// The hex dump of a decrypted packet: a heading with its length, then its bytes sixteen
/// to a line.
pub open spec fn packet_dump(p: Seq<u8>) -> Seq<Seq<char>> {
    seq!["decrypted packet ("@ + decimal(p.len()) + " bytes):"@] + Seq::new(
        dump_line_count(p.len()),
        |i: int|
            hex_bytes(
                p.subrange(16 * i, if 16 * i + 16 <= p.len() { 16 * i + 16 } else { p.len() as int }),
            ),
    )
}

/// Appends `b` as a two-digit hexadecimal number followed by a space.
fn push_hex_byte(out: &mut String, b: u8)
    ensures
        final(out)@ == old(out)@ + hex2(b as nat) + seq![' '],
{
    if b < 16 {
        out.push('0');
    }
    push_digits(out, b as u64, 16);
    out.push(' ');
    assert(out@ =~= old(out)@ + hex2(b as nat) + seq![' ']);
}

/// The lines of the hex dump of a decrypted packet.
pub fn packet_dump_lines(packet: &[u8]) -> (lines: Vec<String>)
    ensures
        lines@.map_values(|l: String| l@) == packet_dump(packet@),
{
    let len = packet.len();
    let mut lines: Vec<String> = Vec::new();
    let mut heading = String::from_str("decrypted packet (");
    push_digits(&mut heading, len as u64, 10);
    heading.append(" bytes):");
    lines.push(heading);
    let ghost dump = packet_dump(packet@);
    let count = len / 16 + if len % 16 != 0 {
        1
    } else {
        0
    };
    assert(count == dump_line_count(len as nat));
    for i in 0..count
        invariant
            len == packet@.len(),
            count == dump_line_count(len as nat),
            dump == packet_dump(packet@),
            lines@.len() == i + 1,
            forall|j: int| 0 <= j < lines@.len() ==> #[trigger] lines@[j]@ == dump[j],
    {
        let start = 16 * i;
        let end = if len - start >= 16 {
            start + 16
        } else {
            len
        };
        let mut line = String::new();
        let mut k = start;
        while k < end
            invariant
                start <= k <= end,
                end <= len,
                len == packet@.len(),
                line@ == hex_bytes(packet@.subrange(start as int, k as int)),
            decreases end - k,
        {
            push_hex_byte(&mut line, packet[k]);
            assert(packet@.subrange(start as int, k + 1).drop_last() =~= packet@.subrange(
                start as int,
                k as int,
            ));
            k += 1;
        }
        lines.push(line);
        assert(lines@[lines@.len() - 1]@ == dump[i + 1]);
    }
    assert(lines@.map_values(|l: String| l@) =~= dump);
    lines
}

} // verus!
