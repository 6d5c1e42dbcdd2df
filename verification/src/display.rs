//! Rendering search results as text.

use vstd::prelude::*;
use vstd::string::{StrSliceExecFns, StringExecFns};

use crate::names::{job_name, spec_job_name};
use crate::text::{decimal, push_digits};

verus! {

/// Two optional parts joined by a slash, with `-` for a missing part, or `-` alone when
/// both are missing.
pub open spec fn pair_text(main: Option<Seq<char>>, sub: Option<Seq<char>>) -> Seq<char> {
    match (main, sub) {
        (Some(m), Some(s)) => m + "/"@ + s,
        (Some(m), None) => m + "/-"@,
        (None, Some(s)) => "-/"@ + s,
        (None, None) => "-"@,
    }
}

/// The text for job `job`: its abbreviation, or `#` and its number.
pub open spec fn job_text(job: u8) -> Seq<char> {
    match spec_job_name(job) {
        Some(name) => name,
        None => "#"@ + decimal(job as nat),
    }
}

/// The decimal text of an optional number.
pub open spec fn number_text(n: Option<u8>) -> Option<Seq<char>> {
    match n {
        Some(v) => Some(decimal(v as nat)),
        None => None,
    }
}

/// The text of an optional job.
pub open spec fn job_option_text(job: Option<u8>) -> Option<Seq<char>> {
    match job {
        Some(j) => Some(job_text(j)),
        None => None,
    }
}

/// The text for zone `zone`: its name followed by its number in brackets, or `#` and its
/// number when it has no name.
pub open spec fn zone_text(zone: u16, name: Option<Seq<char>>) -> Seq<char> {
    match name {
        Some(n) => n + " ("@ + decimal(zone as nat) + ")"@,
        None => "#"@ + decimal(zone as nat),
    }
}

/// Joins two optional parts as [`pair_text`] says.
fn join_pair(main: Option<String>, sub: Option<String>) -> (text: String)
    ensures
        text@ == pair_text(
            match main {
                Some(m) => Some(m@),
                None => None,
            },
            match sub {
                Some(s) => Some(s@),
                None => None,
            },
        ),
{
    match (main, sub) {
        (Some(m), Some(s)) => {
            let mut text = m;
            text.append("/");
            text.append(s.as_str());
            text
        },
        (Some(m), None) => {
            let mut text = m;
            text.append("/-");
            text
        },
        (None, Some(s)) => {
            let mut text = String::from_str("-/");
            text.append(s.as_str());
            text
        },
        (None, None) => String::from_str("-"),
    }
}

/// The text for a job: its abbreviation, or `#` and its number.
pub fn format_job(job: u8) -> (text: String)
    ensures
        text@ == job_text(job),
{
    match job_name(job) {
        Some(name) => String::from_str(name),
        None => {
            let mut text = String::from_str("#");
            push_digits(&mut text, job as u64, 10);
            text
        },
    }
}

/// A main and a support job, as `WAR/NIN`, `WAR/-`, `-/NIN` or `-`.
pub fn format_job_pair(main: Option<u8>, sub: Option<u8>) -> (text: String)
    ensures
        text@ == pair_text(job_option_text(main), job_option_text(sub)),
{
    let m = match main {
        Some(j) => Some(format_job(j)),
        None => None,
    };
    let s = match sub {
        Some(j) => Some(format_job(j)),
        None => None,
    };
    join_pair(m, s)
}

/// A main and a support value, as `75/37`, `75/-`, `-/37` or `-`.
pub fn format_optional_pair(main: Option<u8>, sub: Option<u8>) -> (text: String)
    ensures
        text@ == pair_text(number_text(main), number_text(sub)),
{
    let m = match main {
        Some(v) => {
            let mut t = String::new();
            push_digits(&mut t, v as u64, 10);
            Some(t)
        },
        None => None,
    };
    let s = match sub {
        Some(v) => {
            let mut t = String::new();
            push_digits(&mut t, v as u64, 10);
            Some(t)
        },
        None => None,
    };
    join_pair(m, s)
}

/// The text for a zone, given its name if it has one.
pub fn format_zone(zone: u16, name: Option<&str>) -> (text: String)
    ensures
        text@ == zone_text(
            zone,
            match name {
                Some(n) => Some(n@),
                None => None,
            },
        ),
{
    match name {
        Some(n) => {
            let mut text = String::from_str(n);
            text.append(" (");
            push_digits(&mut text, zone as u64, 10);
            text.append(")");
            text
        },
        None => {
            let mut text = String::from_str("#");
            push_digits(&mut text, zone as u64, 10);
            text
        },
    }
}

/// Whether `c` is a decimal digit.
pub open spec fn is_decimal_digit(c: char) -> bool {
    '0' <= c && c <= '9'
}

/// The number written by the decimal digits `d`.
pub open spec fn digits_value(d: Seq<char>) -> nat
    decreases d.len(),
{
    if d.len() == 0 {
        0
    } else {
        digits_value(d.drop_last()) * 10 + (d.last() as nat - 48) as nat
    }
}

/// `s` without a leading `+`.
pub open spec fn unsigned_digits(s: Seq<char>) -> Seq<char> {
    if s.len() > 0 && s[0] == '+' {
        s.drop_first()
    } else {
        s
    }
}

/// Whether every character of `d` is a decimal digit.
pub open spec fn all_decimal_digits(d: Seq<char>) -> bool {
    forall|i: int| 0 <= i < d.len() ==> is_decimal_digit(#[trigger] d[i])
}

/// The value of `s` read as an unsigned 16-bit decimal number: an optional `+`, then one
/// or more decimal digits, with a value below 65536.
pub open spec fn parsed_u16(s: Seq<char>) -> Option<u16> {
    let d = unsigned_digits(s);
    if d.len() > 0 && all_decimal_digits(d) && digits_value(d) <= 0xffff {
        Some(digits_value(d) as u16)
    } else {
        None
    }
}

/// Reads `value` as an unsigned 16-bit decimal number.
fn parse_u16(value: &str) -> (n: Option<u16>)
    ensures
        n == parsed_u16(value@),
{
    let len = value.unicode_len();
    let start: usize = if len > 0 && value.get_char(0) == '+' {
        1
    } else {
        0
    };
    let ghost d = unsigned_digits(value@);
    assert(d =~= value@.subrange(start as int, len as int));
    if start >= len {
        return None;
    }
    // the value read so far, held at 65536 once it passes 65535
    let mut acc: u32 = 0;
    let mut i = start;
    while i < len
        invariant
            len == value@.len(),
            start <= i <= len,
            d == value@.subrange(start as int, len as int),
            d == unsigned_digits(value@),
            forall|j: int| start <= j < i ==> is_decimal_digit(#[trigger] value@[j]),
            acc == if digits_value(value@.subrange(start as int, i as int)) < 0x1_0000 {
                digits_value(value@.subrange(start as int, i as int))
            } else {
                0x1_0000
            },
        decreases len - i,
    {
        let c = value.get_char(i);
        if !('0' <= c && c <= '9') {
            assert(d[i - start] == c);
            assert(!is_decimal_digit(d[i - start]));
            return None;
        }
        let digit = (c as u32) - 48;
        let ghost prev = digits_value(value@.subrange(start as int, i as int));
        assert(value@.subrange(start as int, i + 1).drop_last() =~= value@.subrange(start as int, i as int));
        acc = acc * 10 + digit;
        if acc > 0x1_0000 {
            acc = 0x1_0000;
        }
        i += 1;
    }
    assert(value@.subrange(start as int, len as int) == d);
    assert forall|j: int| 0 <= j < d.len() implies is_decimal_digit(#[trigger] d[j]) by {
        assert(d[j] == value@[start + j]);
    }
    if acc > 0xffff {
        None
    } else {
        Some(acc as u16)
    }
}

/// The error text for a zone ID that is not a number.
pub open spec fn invalid_zone_text(value: Seq<char>) -> Seq<char> {
    "invalid zone ID `"@ + value + "`"@
}

/// The error text for a zone ID that is too large.
pub open spec fn large_zone_text(zone: u16) -> Seq<char> {
    "zone ID `"@ + decimal(zone as nat) + "` is too large; expected 0..=1023"@
}

/// Reads a zone ID given on the command line: an unsigned 16-bit decimal number no larger
/// than 1023.
pub fn parse_zone_id(value: &str) -> (res: Result<u16, String>)
    ensures
        match parsed_u16(value@) {
            None => res matches Err(e) && e@ == invalid_zone_text(value@),
            Some(z) => if z > 1023 {
                res matches Err(e) && e@ == large_zone_text(z)
            } else {
                res == Ok::<u16, String>(z)
            },
        },
{
    let zone = match parse_u16(value) {
        Some(z) => z,
        None => {
            let mut text = String::from_str("invalid zone ID `");
            text.append(value);
            text.append("`");
            return Err(text);
        },
    };
    if zone > 1023 {
        let mut text = String::from_str("zone ID `");
        push_digits(&mut text, zone as u64, 10);
        text.append("` is too large; expected 0..=1023");
        return Err(text);
    }
    Ok(zone)
}

} // verus!
