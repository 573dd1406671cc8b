//! What a flag's text is allowed to be, and what it becomes.

use vstd::prelude::*;
use crate::text::{
    all_digits, append, chars_of, decimal_string, digits_value, has_char, is_digit, owned,
    parse_range, parse_unsigned, text_eq, trim, trim_bounds,
};

verus! {

/// The audio sources the server knows.
pub const AUDIO_SOURCES: [&'static str; 11] = [
    "output",
    "mic",
    "playback",
    "mic-unprocessed",
    "mic-camcorder",
    "mic-voice-recognition",
    "mic-voice-communication",
    "voice-call",
    "voice-call-uplink",
    "voice-call-downlink",
    "voice-performance",
];

/// The log levels the server knows, loudest first.
pub const LOG_LEVELS: [&'static str; 5] = ["verbose", "debug", "info", "warn", "error"];

/// Whether `--pause-on-exit` wants a keypress after a run that did or did not
/// fail: always for `true`, after a failure for `if-error`, never otherwise.
pub fn pauses_on_exit(mode: &str, failed: bool) -> (b: bool)
    ensures
        b == (mode@ == "true"@ || (mode@ == "if-error"@ && failed)),
{
    if text_eq(mode, "true") {
        true
    } else if text_eq(mode, "if-error") {
        failed
    } else {
        false
    }
}

/// An ASCII hexadecimal digit.
pub open spec fn is_hex(c: char) -> bool {
    ('0' <= c <= '9') || ('a' <= c <= 'f') || ('A' <= c <= 'F')
}

/// The value of an ASCII hexadecimal digit.
pub open spec fn hex_value(c: char) -> nat {
    if '0' <= c <= '9' {
        ((c as u32) - ('0' as u32)) as nat
    } else if 'a' <= c <= 'f' {
        ((c as u32) - ('a' as u32) + 10) as nat
    } else {
        ((c as u32) - ('A' as u32) + 10) as nat
    }
}

/// The digits of a colour: what follows one optional `#`.
pub open spec fn colour_digits(s: Seq<char>) -> Seq<char> {
    if s.len() > 0 && s[0] == '#' { s.drop_first() } else { s }
}

/// `#RGB` or `#RRGGBB`, the hash optional, as red, green and blue. The short
/// form is the long one with every digit doubled.
pub open spec fn rgb_spec(s: Seq<char>) -> Option<(u8, u8, u8)> {
    let d = colour_digits(s);
    if !(forall|i: int| 0 <= i < d.len() ==> is_hex(#[trigger] d[i])) {
        None
    } else if d.len() == 3 {
        Some(((hex_value(d[0]) * 17) as u8, (hex_value(d[1]) * 17) as u8, (hex_value(d[2]) * 17) as u8))
    } else if d.len() == 6 {
        Some((
            (hex_value(d[0]) * 16 + hex_value(d[1])) as u8,
            (hex_value(d[2]) * 16 + hex_value(d[3])) as u8,
            (hex_value(d[4]) * 16 + hex_value(d[5])) as u8,
        ))
    } else {
        None
    }
}

fn hex_digit(c: char) -> (r: Option<u8>)
    ensures
        r == (if is_hex(c) { Some(hex_value(c) as u8) } else { None::<u8> }),
{
    if '0' <= c && c <= '9' {
        Some((c as u32 - '0' as u32) as u8)
    } else if 'a' <= c && c <= 'f' {
        Some((c as u32 - 'a' as u32 + 10) as u8)
    } else if 'A' <= c && c <= 'F' {
        Some((c as u32 - 'A' as u32 + 10) as u8)
    } else {
        None
    }
}

/// `--background-color`, as red, green and blue.
pub fn rgb_from_hex(value: &str) -> (r: Option<(u8, u8, u8)>)
    ensures
        r == rgb_spec(value@),
{
    let v = chars_of(value);
    let start: usize = if v.len() > 0 && v[0] == '#' { 1 } else { 0 };
    let ghost d = colour_digits(v@);
    assert(d =~= v@.subrange(start as int, v@.len() as int));
    let mut digits: Vec<u8> = Vec::new();
    let mut i = start;
    while i < v.len()
        invariant
            start <= i <= v.len(),
            d == v@.subrange(start as int, v@.len() as int),
            d == colour_digits(value@),
            v@ == value@,
            digits@.len() == i - start,
            forall|j: int| 0 <= j < i - start ==> is_hex(#[trigger] d[j]) && digits@[j] == hex_value(d[j]),
        decreases v.len() - i,
    {
        match hex_digit(v[i]) {
            Some(h) => digits.push(h),
            None => {
                assert(d[i - start] == v@[i as int]);
                assert(!is_hex(d[i - start]));
                assert(!(forall|k: int| 0 <= k < d.len() ==> is_hex(#[trigger] d[k])));
                return None;
            },
        }
        i = i + 1;
    }
    if digits.len() == 3 {
        Some((digits[0] * 17, digits[1] * 17, digits[2] * 17))
    } else if digits.len() == 6 {
        Some((digits[0] * 16 + digits[1], digits[2] * 16 + digits[3], digits[4] * 16 + digits[5]))
    } else {
        None
    }
}

/// `--background-color`, refused at the command line when it is not a
/// colour.
pub fn hex_colour(value: &str) -> (r: Result<String, String>)
    ensures
        match r {
            Ok(s) => rgb_spec(value@) is Some && s@ == value@,
            Err(_) => rgb_spec(value@) is None,
        },
{
    match rgb_from_hex(value) {
        Some(_) => Ok(owned(value)),
        None => {
            let mut m = owned("`");
            append(&mut m, value);
            append(&mut m, "` is not a colour like #RGB or #RRGGBB");
            Err(m)
        },
    }
}

/// A bit rate: digits, optionally followed by `K` or `M` in either case,
/// white space around it ignored, and no larger than a `u32`.
pub open spec fn bit_rate_spec(s: Seq<char>) -> Option<u32> {
    let t = trim(s);
    let (digits, multiplier) = if t.len() > 0 && (t.last() == 'K' || t.last() == 'k') {
        (t.drop_last(), 1000nat)
    } else if t.len() > 0 && (t.last() == 'M' || t.last() == 'm') {
        (t.drop_last(), 1000000nat)
    } else {
        (t, 1nat)
    };
    match parse_unsigned(digits, u64::MAX as nat) {
        Some(n) => if n * multiplier <= u32::MAX { Some((n * multiplier) as u32) } else { None },
        None => None,
    }
}

/// `--video-bit-rate` and `--audio-bit-rate`.
pub fn bit_rate(value: &str) -> (r: Result<u32, String>)
    ensures
        match r {
            Ok(n) => bit_rate_spec(value@) == Some(n),
            Err(_) => bit_rate_spec(value@) is None,
        },
{
    let v = chars_of(value);
    assert(v@.subrange(0, v@.len() as int) == v@);
    let (a, b) = trim_bounds(&v, 0, v.len());
    let ghost t = v@.subrange(a as int, b as int);
    let (end, multiplier): (usize, u64) = if b > a && (v[b - 1] == 'K' || v[b - 1] == 'k') {
        (b - 1, 1000)
    } else if b > a && (v[b - 1] == 'M' || v[b - 1] == 'm') {
        (b - 1, 1000000)
    } else {
        (b, 1)
    };
    assert(end < b ==> v@.subrange(a as int, end as int) =~= t.drop_last());
    let parsed = parse_range(&v, a, end, u64::MAX);
    match parsed {
        Some(n) => {
            if n <= (u32::MAX as u64) / multiplier {
                assert(n * multiplier <= u32::MAX) by (nonlinear_arith)
                    requires n <= (u32::MAX as u64) / multiplier, multiplier > 0;
                Ok((n * multiplier) as u32)
            } else {
                assert(n * multiplier > u32::MAX) by (nonlinear_arith)
                    requires n > (u32::MAX as u64) / multiplier, multiplier > 0;
                let mut m = owned("`");
                append(&mut m, value);
                append(&mut m, "` is larger than a bit rate can be");
                Err(m)
            }
        },
        None => {
            let mut m = owned("`");
            append(&mut m, value);
            append(&mut m, "` is not a bit rate: digits, optionally followed by K or M");
            Err(m)
        },
    }
}

/// `--min-size-alignment`: one of 1, 2, 4, 8 or 16.
pub open spec fn alignment_spec(s: Seq<char>) -> Option<u32> {
    match parse_unsigned(s, u32::MAX as nat) {
        Some(n) => if n == 1 || n == 2 || n == 4 || n == 8 || n == 16 { Some(n as u32) } else { None },
        None => None,
    }
}

/// `--min-size-alignment`, refused unless it is a power of two no larger
/// than sixteen.
pub fn alignment(value: &str) -> (r: Result<u32, String>)
    ensures
        match r {
            Ok(n) => alignment_spec(value@) == Some(n),
            Err(_) => alignment_spec(value@) is None,
        },
{
    let v = chars_of(value);
    assert(v@.subrange(0, v@.len() as int) == v@);
    match parse_range(&v, 0, v.len(), u32::MAX as u64) {
        Some(n) => {
            if n == 1 || n == 2 || n == 4 || n == 8 || n == 16 {
                Ok(n as u32)
            } else {
                let mut m = owned("`");
                append(&mut m, value);
                append(&mut m, "` is not one of 1, 2, 4, 8 or 16");
                Err(m)
            }
        },
        None => {
            let mut m = owned("`");
            append(&mut m, value);
            append(&mut m, "` is not a number");
            Err(m)
        },
    }
}

} // verus!
