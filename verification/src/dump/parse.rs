//! Parsing of the dump tool's option values: unsigned integers in decimal
//! or `0x` hex, booleans, hex byte strings, `PARAM=VALUE` pairs and filter
//! specifications.

use vstd::prelude::*;
use vstd::string::*;
use crate::text::{
    push_char, push_str, trimmed, trim_text, ascii_lowercase, ascii_lower, to_ascii_lowercase, str_equals, hex_char,
    hex_pair, hex_compact, hex_spaced, is_white, trim_start, trim_end, dec_digits, digit_char,
};
use crate::j2534::{PASS_FILTER, BLOCK_FILTER, FLOW_CONTROL_FILTER};
use crate::worker::filter_type_code;

verus! {

/// Why a text is not an integer (std's `IntErrorKind` for unsigned types).
#[derive(Debug, Clone, Copy, PartialEq, Eq, Structural)]
pub enum IntErrorKind {
    Empty,
    InvalidDigit,
    PosOverflow,
}

/// The description std gives of each kind.
pub open spec fn int_error_text(k: IntErrorKind) -> Seq<char> {
    match k {
        IntErrorKind::Empty => "cannot parse integer from empty string"@,
        IntErrorKind::InvalidDigit => "invalid digit found in string"@,
        IntErrorKind::PosOverflow => "number too large to fit in target type"@,
    }
}

/// Describes an integer error.
pub fn int_error_description(k: IntErrorKind) -> (s: &'static str)
    ensures
        s@ == int_error_text(k),
{
    match k {
        IntErrorKind::Empty => "cannot parse integer from empty string",
        IntErrorKind::InvalidDigit => "invalid digit found in string",
        IntErrorKind::PosOverflow => "number too large to fit in target type",
    }
}

/// The value of a digit in a radix (`char::to_digit`): `0-9`, then
/// letters of either case from 10 on.
pub open spec fn digit_value(c: char, radix: nat) -> Option<nat> {
    let n = c as u32;
    let d: int = if 0x30 <= n <= 0x39 {
        n - 0x30
    } else if 0x61 <= n <= 0x7A {
        n - 0x61 + 10
    } else if 0x41 <= n <= 0x5A {
        n - 0x41 + 10
    } else {
        36
    };
    if d < radix { Some(d as nat) } else { None }
}

pub(crate) fn digit_of(c: char, radix: u32) -> (d: Option<u32>)
    requires
        radix <= 36,
    ensures
        match d {
            Some(v) => digit_value(c, radix as nat) == Some(v as nat),
            None => digit_value(c, radix as nat) is None,
        },
{
    let n = c as u32;
    let v: u32 = if 0x30 <= n && n <= 0x39 {
        n - 0x30
    } else if 0x61 <= n && n <= 0x7A {
        n - 0x61 + 10
    } else if 0x41 <= n && n <= 0x5A {
        n - 0x41 + 10
    } else {
        36
    };
    if v < radix { Some(v) } else { None }
}

/// Digits read left to right onto `acc`: the first non-digit is an
/// `InvalidDigit`, the first digit that takes the value past `u32::MAX` a
/// `PosOverflow`.
pub open spec fn scan_digits(s: Seq<char>, radix: nat, acc: nat) -> Result<nat, IntErrorKind>
    decreases s.len(),
{
    if s.len() == 0 {
        Ok(acc)
    } else {
        match digit_value(s[0], radix) {
            None => Err(IntErrorKind::InvalidDigit),
            Some(d) => if acc * radix + d > u32::MAX {
                Err(IntErrorKind::PosOverflow)
            } else {
                scan_digits(s.drop_first(), radix, acc * radix + d)
            },
        }
    }
}

/// `u32::from_str_radix`: empty text is `Empty`; a lone sign is an invalid
/// digit; one leading `+` is skipped.
pub open spec fn u32_from_radix(s: Seq<char>, radix: nat) -> Result<nat, IntErrorKind> {
    if s.len() == 0 {
        Err(IntErrorKind::Empty)
    } else if (s[0] == '+' || s[0] == '-') && s.len() == 1 {
        Err(IntErrorKind::InvalidDigit)
    } else if s[0] == '+' {
        scan_digits(s.drop_first(), radix, 0)
    } else {
        scan_digits(s, radix, 0)
    }
}

fn scan_digits_from(s: &str, start: usize, radix: u32) -> (r: Result<u32, IntErrorKind>)
    requires
        start <= s@.len(),
        2 <= radix <= 36,
    ensures
        match r {
            Ok(v) => scan_digits(s@.skip(start as int), radix as nat, 0) == Ok::<nat, IntErrorKind>(v as nat),
            Err(k) => scan_digits(s@.skip(start as int), radix as nat, 0) == Err::<nat, IntErrorKind>(k),
        },
{
    let n = s.unicode_len();
    let mut acc: u64 = 0;
    let mut i: usize = start;
    while i < n
        invariant
            n == s@.len(),
            start <= i <= n,
            2 <= radix <= 36,
            acc <= u32::MAX,
            scan_digits(s@.skip(start as int), radix as nat, 0) == scan_digits(s@.skip(i as int), radix as nat, acc as nat),
        decreases n - i,
    {
        let ghost rest = s@.skip(i as int);
        assert(rest.drop_first() =~= s@.skip(i + 1));
        let c = s.get_char(i);
        match digit_of(c, radix) {
            None => {
                return Err(IntErrorKind::InvalidDigit);
            },
            Some(d) => {
                assert(acc * (radix as u64) <= 0xFFFF_FFFFu64 * 36) by (nonlinear_arith)
                    requires
                        acc <= 0xFFFF_FFFFu64,
                        radix <= 36,
                ;
                let next: u64 = acc * (radix as u64) + d as u64;
                if next > 0xFFFF_FFFF {
                    return Err(IntErrorKind::PosOverflow);
                }
                acc = next;
            },
        }
        i = i + 1;
    }
    assert(s@.skip(n as int) =~= Seq::<char>::empty());
    Ok(acc as u32)
}

/// Parses an unsigned 32-bit integer in a radix, as `u32::from_str_radix`.
pub fn u32_from_str_radix(s: &str, radix: u32) -> (r: Result<u32, IntErrorKind>)
    requires
        2 <= radix <= 36,
    ensures
        match r {
            Ok(v) => u32_from_radix(s@, radix as nat) == Ok::<nat, IntErrorKind>(v as nat),
            Err(k) => u32_from_radix(s@, radix as nat) == Err::<nat, IntErrorKind>(k),
        },
{
    let n = s.unicode_len();
    if n == 0 {
        return Err(IntErrorKind::Empty);
    }
    let c0 = s.get_char(0);
    if (c0 == '+' || c0 == '-') && n == 1 {
        return Err(IntErrorKind::InvalidDigit);
    }
    if c0 == '+' {
        assert(s@.skip(1) =~= s@.drop_first());
        scan_digits_from(s, 1, radix)
    } else {
        assert(s@.skip(0) =~= s@);
        scan_digits_from(s, 0, radix)
    }
}

/// An integer option: decimal, or hex after `0x`/`0X`, with surrounding
/// whitespace ignored.
pub open spec fn u32_option(input: Seq<char>) -> Result<u32, Seq<char>> {
    let t = trimmed(input);
    if t.len() >= 2 && t[0] == '0' && (t[1] == 'x' || t[1] == 'X') {
        match u32_from_radix(t.skip(2), 16) {
            Ok(v) => Ok(v as u32),
            Err(k) => Err("Invalid hex integer '"@ + input + "': "@ + int_error_text(k)),
        }
    } else {
        match u32_from_radix(t, 10) {
            Ok(v) => Ok(v as u32),
            Err(k) => Err("Invalid integer '"@ + input + "': "@ + int_error_text(k)),
        }
    }
}

/// Parses an integer option.
pub fn parse_u32(input: &str) -> (r: Result<u32, String>)
    ensures
        match r {
            Ok(v) => u32_option(input@) == Ok::<u32, Seq<char>>(v),
            Err(e) => u32_option(input@) == Err::<u32, Seq<char>>(e@),
        },
{
    let t = trim_text(input);
    let ts = t.as_str();
    let n = ts.unicode_len();
    if n >= 2 && ts.get_char(0) == '0' && (ts.get_char(1) == 'x' || ts.get_char(1) == 'X') {
        let hex = ts.substring_char(2, n);
        assert(hex@ =~= t@.skip(2));
        match u32_from_str_radix(hex, 16) {
            Ok(v) => Ok(v),
            Err(k) => {
                let mut e = String::from_str("Invalid hex integer '");
                push_str(&mut e, input);
                push_str(&mut e, "': ");
                push_str(&mut e, int_error_description(k));
                Err(e)
            },
        }
    } else {
        match u32_from_str_radix(ts, 10) {
            Ok(v) => Ok(v),
            Err(k) => {
                let mut e = String::from_str("Invalid integer '");
                push_str(&mut e, input);
                push_str(&mut e, "': ");
                push_str(&mut e, int_error_description(k));
                Err(e)
            },
        }
    }
}

/// A boolean option: `1 true yes y on` and `0 false no n off`, in any
/// ASCII case, with surrounding whitespace ignored.
pub open spec fn bool_option(input: Seq<char>) -> Result<bool, Seq<char>> {
    let t = ascii_lowercase(trimmed(input));
    if t == "1"@ || t == "true"@ || t == "yes"@ || t == "y"@ || t == "on"@ {
        Ok(true)
    } else if t == "0"@ || t == "false"@ || t == "no"@ || t == "n"@ || t == "off"@ {
        Ok(false)
    } else {
        Err("Invalid boolean '"@ + input + "'"@)
    }
}

/// Parses a boolean option.
pub fn parse_bool(input: &str) -> (r: Result<bool, String>)
    ensures
        match r {
            Ok(b) => bool_option(input@) == Ok::<bool, Seq<char>>(b),
            Err(e) => bool_option(input@) == Err::<bool, Seq<char>>(e@),
        },
{
    let t0 = trim_text(input);
    let t = to_ascii_lowercase(t0.as_str());
    let ts = t.as_str();
    if str_equals(ts, "1") || str_equals(ts, "true") || str_equals(ts, "yes") || str_equals(ts, "y")
        || str_equals(ts, "on") {
        Ok(true)
    } else if str_equals(ts, "0") || str_equals(ts, "false") || str_equals(ts, "no") || str_equals(ts, "n")
        || str_equals(ts, "off") {
        Ok(false)
    } else {
        let mut e = String::from_str("Invalid boolean '");
        push_str(&mut e, input);
        push_str(&mut e, "'");
        Err(e)
    }
}

/// Separators allowed between hex digits.
pub open spec fn is_hex_separator(c: char) -> bool {
    c == ' ' || c == '_' || c == ':' || c == ',' || c == '-'
}

/// The text without hex separators.
pub open spec fn hex_cleaned(s: Seq<char>) -> Seq<char>
    decreases s.len(),
{
    if s.len() == 0 {
        Seq::empty()
    } else if is_hex_separator(s.last()) {
        hex_cleaned(s.drop_last())
    } else {
        hex_cleaned(s.drop_last()).push(s.last())
    }
}

/// Bytes of a character in UTF-8.
pub open spec fn utf8_width(c: char) -> nat {
    let n = c as u32;
    if n < 0x80 { 1 } else if n < 0x800 { 2 } else if n < 0x10000 { 3 } else { 4 }
}

/// Whether the UTF-8 encoding of the text has an odd number of bytes.
pub open spec fn odd_utf8_len(s: Seq<char>) -> bool
    decreases s.len(),
{
    if s.len() == 0 {
        false
    } else {
        odd_utf8_len(s.drop_last()) != (utf8_width(s.last()) % 2 == 1)
    }
}

/// The value of a two-character hex byte (`u8::from_str_radix(_, 16)` on
/// two ASCII characters): a leading `+` is skipped.
pub open spec fn hex_pair_value(c1: char, c2: char) -> Option<u8> {
    if c1 == '+' {
        match digit_value(c2, 16) {
            Some(d) => Some(d as u8),
            None => None,
        }
    } else {
        match (digit_value(c1, 16), digit_value(c2, 16)) {
            (Some(a), Some(b)) => Some((a * 16 + b) as u8),
            _ => None,
        }
    }
}

/// Outcome of reading a cleaned hex text two bytes at a time.
pub enum HexScan {
    Bytes(Seq<u8>),
    /// A pair is not a hex byte.
    Invalid,
    /// A two-byte slice would split a character (the slicing panics).
    Splits,
}

/// Reads the cleaned text two UTF-8 bytes at a time: two ASCII characters
/// form a byte; one two-byte character is never a hex byte; any other
/// character would be split by the slice.
pub open spec fn hex_pairs(cs: Seq<char>) -> HexScan
    decreases cs.len(),
{
    if cs.len() == 0 {
        HexScan::Bytes(Seq::empty())
    } else if utf8_width(cs[0]) == 1 {
        if cs.len() >= 2 && utf8_width(cs[1]) == 1 {
            match hex_pair_value(cs[0], cs[1]) {
                Some(b) => match hex_pairs(cs.skip(2)) {
                    HexScan::Bytes(rest) => HexScan::Bytes(seq![b] + rest),
                    other => other,
                },
                None => HexScan::Invalid,
            }
        } else {
            HexScan::Splits
        }
    } else if utf8_width(cs[0]) == 2 {
        HexScan::Invalid
    } else {
        HexScan::Splits
    }
}

/// Outcome of parsing a hex byte string.
pub enum HexOutcome {
    Parsed(Seq<u8>),
    OddLength,
    BadDigit,
    /// The original slicing would panic on this input.
    Splits,
}

/// A hex byte string: separators dropped, an even number of UTF-8 bytes
/// left, read two at a time.
pub open spec fn hex_outcome(input: Seq<char>) -> HexOutcome {
    let cs = hex_cleaned(input);
    if odd_utf8_len(cs) {
        HexOutcome::OddLength
    } else {
        match hex_pairs(cs) {
            HexScan::Bytes(b) => HexOutcome::Parsed(b),
            HexScan::Invalid => HexOutcome::BadDigit,
            HexScan::Splits => HexOutcome::Splits,
        }
    }
}

/// The result of a hex byte string that parses or fails.
pub open spec fn hex_result(input: Seq<char>) -> Result<Seq<u8>, Seq<char>> {
    match hex_outcome(input) {
        HexOutcome::Parsed(b) => Ok(b),
        HexOutcome::OddLength => Err("Hex byte string must have even length: '"@ + input + "'"@),
        _ => Err("Invalid hex byte in '"@ + input + "': invalid digit found in string"@),
    }
}

fn width_of(c: char) -> (w: u32)
    ensures
        w == utf8_width(c),
{
    let n = c as u32;
    if n < 0x80 { 1 } else if n < 0x800 { 2 } else if n < 0x10000 { 3 } else { 4 }
}

fn clean_hex_text(s: &str) -> (t: String)
    ensures
        t@ == hex_cleaned(s@),
{
    let n = s.unicode_len();
    let mut t = String::new();
    let mut i: usize = 0;
    assert(s@.take(0) =~= Seq::<char>::empty());
    while i < n
        invariant
            n == s@.len(),
            i <= n,
            t@ == hex_cleaned(s@.take(i as int)),
        decreases n - i,
    {
        let c = s.get_char(i);
        assert(s@.take(i + 1).drop_last() =~= s@.take(i as int));
        if !(c == ' ' || c == '_' || c == ':' || c == ',' || c == '-') {
            push_char(&mut t, c);
        }
        i = i + 1;
    }
    assert(s@.take(n as int) =~= s@);
    t
}

fn has_odd_len(s: &str) -> (b: bool)
    ensures
        b == odd_utf8_len(s@),
{
    let n = s.unicode_len();
    let mut odd = false;
    let mut i: usize = 0;
    assert(s@.take(0) =~= Seq::<char>::empty());
    while i < n
        invariant
            n == s@.len(),
            i <= n,
            odd == odd_utf8_len(s@.take(i as int)),
        decreases n - i,
    {
        let w = width_of(s.get_char(i));
        assert(s@.take(i + 1).drop_last() =~= s@.take(i as int));
        odd = odd != (w % 2 == 1);
        i = i + 1;
    }
    assert(s@.take(n as int) =~= s@);
    odd
}

fn pair_value(c1: char, c2: char) -> (r: Option<u8>)
    ensures
        r == hex_pair_value(c1, c2),
{
    if c1 == '+' {
        match digit_of(c2, 16) {
            Some(d) => Some(d as u8),
            None => None,
        }
    } else {
        match (digit_of(c1, 16), digit_of(c2, 16)) {
            (Some(a), Some(b)) => Some((a * 16 + b) as u8),
            _ => None,
        }
    }
}

/// Outcome of reading pairs, in executable form.
enum PairScan {
    Bytes(Vec<u8>),
    Invalid,
    Splits,
}

fn scan_pairs(cs: &str) -> (r: PairScan)
    ensures
        match hex_pairs(cs@) {
            HexScan::Bytes(b) => r matches PairScan::Bytes(v) && v@ == b,
            HexScan::Invalid => r is Invalid,
            HexScan::Splits => r is Splits,
        },
{
    let n = cs.unicode_len();
    let mut out: Vec<u8> = Vec::new();
    let mut i: usize = 0;
    assert(cs@.skip(0) =~= cs@);
    while i < n
        invariant
            n == cs@.len(),
            i <= n,
            hex_pairs(cs@.skip(i as int)) matches HexScan::Bytes(rest) ==> hex_pairs(cs@) == HexScan::Bytes(out@ + rest),
            (hex_pairs(cs@.skip(i as int)) is Invalid) ==> hex_pairs(cs@) is Invalid,
            (hex_pairs(cs@.skip(i as int)) is Splits) ==> hex_pairs(cs@) is Splits,
        decreases n - i,
    {
        let ghost rest = cs@.skip(i as int);
        let c1 = cs.get_char(i);
        let w1 = width_of(c1);
        if w1 == 1 {
            if i + 1 < n && width_of(cs.get_char(i + 1)) == 1 {
                let c2 = cs.get_char(i + 1);
                match pair_value(c1, c2) {
                    Some(b) => {
                        assert(rest.skip(2) =~= cs@.skip(i + 2));
                        let ghost before = out@;
                        out.push(b);
                        proof {
                            match hex_pairs(cs@.skip(i + 2)) {
                                HexScan::Bytes(r2) => {
                                    assert(before + (seq![b] + r2) =~= out@ + r2);
                                },
                                _ => {},
                            }
                        }
                        i = i + 2;
                    },
                    None => {
                        return PairScan::Invalid;
                    },
                }
            } else {
                return PairScan::Splits;
            }
        } else if w1 == 2 {
            return PairScan::Invalid;
        } else {
            return PairScan::Splits;
        }
    }
    assert(cs@.skip(n as int) =~= Seq::<char>::empty());
    assert(out@ + Seq::<u8>::empty() =~= out@);
    PairScan::Bytes(out)
}

/// Whether parsing the hex byte string runs without the slicing panic of
/// the original (some two-byte slice would split a character).
pub fn hex_slicing_ok(input: &str) -> (b: bool)
    ensures
        b == !(hex_outcome(input@) is Splits),
{
    let cleaned = clean_hex_text(input);
    if has_odd_len(cleaned.as_str()) {
        return true;
    }
    match scan_pairs(cleaned.as_str()) {
        PairScan::Splits => false,
        _ => true,
    }
}

/// Parses a hex byte string such as `C1 33 F1` or `7E0:01`.
pub fn parse_hex_bytes(input: &str) -> (r: Result<Vec<u8>, String>)
    requires
        !(hex_outcome(input@) is Splits),
    ensures
        match r {
            Ok(v) => hex_result(input@) == Ok::<Seq<u8>, Seq<char>>(v@),
            Err(e) => hex_result(input@) == Err::<Seq<u8>, Seq<char>>(e@),
        },
{
    let cleaned = clean_hex_text(input);
    if has_odd_len(cleaned.as_str()) {
        let mut e = String::from_str("Hex byte string must have even length: '");
        push_str(&mut e, input);
        push_str(&mut e, "'");
        return Err(e);
    }
    match scan_pairs(cleaned.as_str()) {
        PairScan::Bytes(v) => Ok(v),
        _ => {
            let mut e = String::from_str("Invalid hex byte in '");
            push_str(&mut e, input);
            push_str(&mut e, "': invalid digit found in string");
            Err(e)
        },
    }
}

/// `k` is the position of the first `c` in `s`.
pub open spec fn is_first(s: Seq<char>, c: char, k: int) -> bool {
    0 <= k < s.len() && s[k] == c && forall|j: int| 0 <= j < k ==> s[j] != c
}

/// The text before and after the first `c` (`str::split_once`).
pub open spec fn split_once_at(s: Seq<char>, c: char) -> Option<(Seq<char>, Seq<char>)> {
    if exists|k: int| is_first(s, c, k) {
        let k = choose|k: int| is_first(s, c, k);
        Some((s.take(k), s.skip(k + 1)))
    } else {
        None
    }
}

fn split_once(s: &str, c: char) -> (r: Option<(String, String)>)
    ensures
        match r {
            Some((a, b)) => split_once_at(s@, c) == Some((a@, b@)),
            None => split_once_at(s@, c) is None,
        },
{
    let n = s.unicode_len();
    let mut i: usize = 0;
    while i < n
        invariant
            n == s@.len(),
            i <= n,
            forall|j: int| 0 <= j < i ==> s@[j] != c,
        decreases n - i,
    {
        if s.get_char(i) == c {
            proof {
                assert(is_first(s@, c, i as int));
                let k = choose|k: int| is_first(s@, c, k);
                if k < i {
                    assert(s@[k] != c);
                }
                if i < k {
                    assert(s@[i as int] != c);
                }
                assert(k == i);
            }
            let a = String::from_str(s.substring_char(0, i));
            let b = String::from_str(s.substring_char(i + 1, n));
            assert(a@ =~= s@.take(i as int));
            assert(b@ =~= s@.skip(i + 1));
            return Some((a, b));
        }
        i = i + 1;
    }
    assert forall|k: int| !is_first(s@, c, k) by {
        if 0 <= k < s@.len() {
            assert(s@[k] != c);
        }
    }
    None
}

/// A `PARAM=VALUE` option: two integers around the first `=`.
pub open spec fn key_value_option(spec: Seq<char>) -> Result<(u32, u32), Seq<char>> {
    match split_once_at(spec, '=') {
        None => Err("Invalid PARAM=VALUE spec '"@ + spec + "'"@),
        Some((l, r)) => match u32_option(l) {
            Err(e) => Err(e),
            Ok(p) => match u32_option(r) {
                Err(e) => Err(e),
                Ok(v) => Ok((p, v)),
            },
        },
    }
}

/// Parses a `PARAM=VALUE` option.
pub fn parse_key_value_pair(spec: &str) -> (r: Result<(u32, u32), String>)
    ensures
        match r {
            Ok(pair) => key_value_option(spec@) == Ok::<(u32, u32), Seq<char>>(pair),
            Err(e) => key_value_option(spec@) == Err::<(u32, u32), Seq<char>>(e@),
        },
{
    match split_once(spec, '=') {
        None => {
            let mut e = String::from_str("Invalid PARAM=VALUE spec '");
            push_str(&mut e, spec);
            push_str(&mut e, "'");
            Err(e)
        },
        Some((l, r)) => {
            let p = parse_u32(l.as_str())?;
            let v = parse_u32(r.as_str())?;
            Ok((p, v))
        },
    }
}

/// The pieces of a text between occurrences of `sep` (`str::split`).
pub open spec fn split_on(s: Seq<char>, sep: char) -> Seq<Seq<char>>
    decreases s.len(),
{
    if s.len() == 0 {
        seq![Seq::empty()]
    } else {
        let p = split_on(s.drop_last(), sep);
        if s.last() == sep {
            p.push(Seq::empty())
        } else {
            p.update(p.len() - 1, p.last().push(s.last()))
        }
    }
}

proof fn lemma_split_nonempty(s: Seq<char>, sep: char)
    ensures
        split_on(s, sep).len() >= 1,
    decreases s.len(),
{
    if s.len() > 0 {
        lemma_split_nonempty(s.drop_last(), sep);
    }
}

/// Texts of a sequence of strings.
pub open spec fn piece_texts(v: Seq<String>) -> Seq<Seq<char>> {
    v.map_values(|s: String| s@)
}

fn split_text(s: &str, sep: char) -> (parts: Vec<String>)
    ensures
        piece_texts(parts@) == split_on(s@, sep),
{
    let n = s.unicode_len();
    let mut done: Vec<String> = Vec::new();
    let mut cur = String::new();
    let mut i: usize = 0;
    assert(s@.take(0) =~= Seq::<char>::empty());
    assert(piece_texts(done@).push(cur@) =~= split_on(s@.take(0), sep));
    while i < n
        invariant
            n == s@.len(),
            i <= n,
            piece_texts(done@).push(cur@) == split_on(s@.take(i as int), sep),
        decreases n - i,
    {
        let c = s.get_char(i);
        let ghost prev = s@.take(i as int);
        assert(s@.take(i + 1).drop_last() =~= prev);
        proof { lemma_split_nonempty(prev, sep); }
        if c == sep {
            let ghost before = done@;
            let finished = cur;
            done.push(finished);
            cur = String::new();
            assert(piece_texts(done@) =~= piece_texts(before).push(finished@));
            assert(piece_texts(done@).push(cur@) =~= split_on(prev, sep).push(Seq::empty()));
        } else {
            let ghost old_cur = cur@;
            push_char(&mut cur, c);
            assert(piece_texts(done@).push(cur@) =~= split_on(prev, sep).update(split_on(prev, sep).len() - 1, old_cur.push(c)));
        }
        i = i + 1;
    }
    assert(s@.take(n as int) =~= s@);
    let ghost before = done@;
    let last = cur;
    done.push(last);
    assert(piece_texts(done@) =~= piece_texts(before).push(last@));
    done
}

/// A parsed filter specification.
#[derive(Debug, Clone)]
pub struct FilterSpec {
    pub filter_type: u32,
    pub mask: Vec<u8>,
    pub pattern: Vec<u8>,
    pub extended: bool,
    pub raw: bool,
}

/// Model of a filter specification.
pub struct FilterSpecView {
    pub filter_type: u32,
    pub mask: Seq<u8>,
    pub pattern: Seq<u8>,
    pub extended: bool,
    pub raw: bool,
}

impl View for FilterSpec {
    type V = FilterSpecView;

    open spec fn view(&self) -> FilterSpecView {
        FilterSpecView {
            filter_type: self.filter_type,
            mask: self.mask@,
            pattern: self.pattern@,
            extended: self.extended,
            raw: self.raw,
        }
    }
}

/// The filter type a (lower-cased) name stands for.
pub open spec fn filter_kind(name: Seq<char>) -> Option<u32> {
    if name == "pass"@ {
        Some(PASS_FILTER)
    } else if name == "block"@ {
        Some(BLOCK_FILTER)
    } else if name == "flow"@ || name == "flow_control"@ {
        Some(FLOW_CONTROL_FILTER)
    } else {
        None
    }
}

/// An optional boolean piece: absent means `false`.
pub open spec fn optional_flag(parts: Seq<Seq<char>>, i: int) -> Result<bool, Seq<char>> {
    if parts.len() > i { bool_option(parts[i]) } else { Ok(false) }
}

/// The hex pieces of a specification read without the slicing panic.
pub open spec fn filter_spec_slices_ok(spec: Seq<char>) -> bool {
    let parts = split_on(spec, ':');
    (3 <= parts.len() <= 5 && filter_kind(ascii_lowercase(parts[0])) is Some) ==> {
        &&& !(hex_outcome(parts[1]) is Splits)
        &&& (hex_result(parts[1]) is Ok ==> !(hex_outcome(parts[2]) is Splits))
    }
}

/// A filter specification `type:mask:pattern[:extended][:raw]`.
pub open spec fn filter_spec_option(spec: Seq<char>) -> Result<FilterSpecView, Seq<char>> {
    let parts = split_on(spec, ':');
    if parts.len() < 3 || parts.len() > 5 {
        Err("Invalid filter spec '"@ + spec + "'. Expected type:mask:pattern[:extended][:raw]"@)
    } else {
        let name = ascii_lowercase(parts[0]);
        match filter_kind(name) {
            None => Err("Invalid filter type '"@ + name + "' in '"@ + spec + "'"@),
            Some(ft) => match hex_result(parts[1]) {
                Err(e) => Err(e),
                Ok(mask) => match hex_result(parts[2]) {
                    Err(e) => Err(e),
                    Ok(pattern) => match optional_flag(parts, 3) {
                        Err(e) => Err(e),
                        Ok(extended) => match optional_flag(parts, 4) {
                            Err(e) => Err(e),
                            Ok(raw) => Ok(FilterSpecView { filter_type: ft, mask, pattern, extended, raw }),
                        },
                    },
                },
            },
        }
    }
}

fn filter_kind_of(name: &str) -> (r: Option<u32>)
    ensures
        r == filter_kind(name@),
{
    if str_equals(name, "pass") {
        Some(PASS_FILTER)
    } else if str_equals(name, "block") {
        Some(BLOCK_FILTER)
    } else if str_equals(name, "flow") || str_equals(name, "flow_control") {
        Some(FLOW_CONTROL_FILTER)
    } else {
        None
    }
}

/// Whether a filter specification parses without the slicing panic.
pub fn filter_spec_slicing_ok(spec: &str) -> (b: bool)
    ensures
        b == filter_spec_slices_ok(spec@),
{
    let parts = split_text(spec, ':');
    let ghost pv = piece_texts(parts@);
    if parts.len() < 3 || parts.len() > 5 {
        return true;
    }
    assert(pv[0] == parts@[0]@ && pv[1] == parts@[1]@ && pv[2] == parts@[2]@);
    let name = to_ascii_lowercase(parts[0].as_str());
    if filter_kind_of(name.as_str()).is_none() {
        return true;
    }
    if !hex_slicing_ok(parts[1].as_str()) {
        return false;
    }
    let mask_ok = match parse_hex_bytes(parts[1].as_str()) {
        Ok(_) => true,
        Err(_) => false,
    };
    if !mask_ok {
        return true;
    }
    hex_slicing_ok(parts[2].as_str())
}

/// Parses a filter specification.
pub fn parse_filter_spec(spec: &str) -> (r: Result<FilterSpec, String>)
    requires
        filter_spec_slices_ok(spec@),
    ensures
        match r {
            Ok(f) => filter_spec_option(spec@) == Ok::<FilterSpecView, Seq<char>>(f@),
            Err(e) => filter_spec_option(spec@) == Err::<FilterSpecView, Seq<char>>(e@),
        },
{
    let parts = split_text(spec, ':');
    let ghost pv = piece_texts(parts@);
    if parts.len() < 3 || parts.len() > 5 {
        let mut e = String::from_str("Invalid filter spec '");
        push_str(&mut e, spec);
        push_str(&mut e, "'. Expected type:mask:pattern[:extended][:raw]");
        return Err(e);
    }
    assert(pv[0] == parts@[0]@ && pv[1] == parts@[1]@ && pv[2] == parts@[2]@);
    let name = to_ascii_lowercase(parts[0].as_str());
    let filter_type = match filter_kind_of(name.as_str()) {
        Some(ft) => ft,
        None => {
            let mut e = String::from_str("Invalid filter type '");
            push_str(&mut e, name.as_str());
            push_str(&mut e, "' in '");
            push_str(&mut e, spec);
            push_str(&mut e, "'");
            return Err(e);
        },
    };
    let mask = parse_hex_bytes(parts[1].as_str())?;
    let pattern = parse_hex_bytes(parts[2].as_str())?;
    let extended = if parts.len() >= 4 {
        assert(pv[3] == parts@[3]@);
        parse_bool(parts[3].as_str())?
    } else {
        false
    };
    let raw = if parts.len() >= 5 {
        assert(pv[4] == parts@[4]@);
        parse_bool(parts[4].as_str())?
    } else {
        false
    };
    Ok(FilterSpec { filter_type, mask, pattern, extended, raw })
}


/// A character `format_bytes_compact` writes: `0-9` or `A-F`.
spec fn is_upper_hex(c: char) -> bool {
    exists|n: nat| n < 16 && c == hex_char(n)
}

proof fn lemma_hex_char(n: nat)
    requires
        n < 16,
    ensures
        utf8_width(hex_char(n)) == 1,
        utf8_width(ascii_lower(hex_char(n))) == 1,
        !is_hex_separator(hex_char(n)),
        !is_hex_separator(ascii_lower(hex_char(n))),
        hex_char(n) != '+',
        ascii_lower(hex_char(n)) != '+',
        digit_value(hex_char(n), 16) == Some(n),
        digit_value(ascii_lower(hex_char(n)), 16) == Some(n),
        n < 10 ==> digit_value(hex_char(n), 10) == Some(n),
        n < 10 ==> digit_char(n) == hex_char(n),
        !is_white(hex_char(n)),
        !is_white(ascii_lower(hex_char(n))),
        hex_char(n) != '-' && hex_char(n) != 'x' && hex_char(n) != 'X',
        ascii_lower(hex_char(n)) != '-' && ascii_lower(hex_char(n)) != 'x' && ascii_lower(hex_char(n)) != 'X',
{
    if n < 10 {
        assert(((n + 48) as u32) as char as u32 == n + 48);
    } else {
        assert(((n + 55) as u32) as char as u32 == n + 55);
        assert((((n + 55) as u32) + 32) as char as u32 == n + 87);
    }
}

proof fn lemma_pair_decodes(x: u8)
    ensures
        hex_pair_value(hex_char((x / 16) as nat), hex_char((x % 16) as nat)) == Some(x),
        hex_pair_value(ascii_lower(hex_char((x / 16) as nat)), ascii_lower(hex_char((x % 16) as nat))) == Some(x),
{
    lemma_hex_char((x / 16) as nat);
    lemma_hex_char((x % 16) as nat);
    assert((x / 16) * 16 + x % 16 == x);
}

/// The uppercase hex text of bytes, read from the front.
proof fn lemma_compact_front(b: Seq<u8>)
    requires
        b.len() > 0,
    ensures
        hex_compact(b) == hex_pair(b[0]) + hex_compact(b.drop_first()),
    decreases b.len(),
{
    if b.len() == 1 {
        assert(b.drop_first() =~= Seq::<u8>::empty());
        assert(b.drop_last() =~= Seq::<u8>::empty());
        assert(hex_compact(b) =~= hex_pair(b[0]) + hex_compact(b.drop_first()));
    } else {
        lemma_compact_front(b.drop_last());
        assert(b.drop_last().drop_first() =~= b.drop_first().drop_last());
        assert(b.drop_last()[0] == b[0]);
        assert(b.drop_first().last() == b.last());
        assert(hex_compact(b) =~= hex_pair(b[0]) + hex_compact(b.drop_first()));
    }
}

proof fn lemma_compact_chars(b: Seq<u8>)
    ensures
        hex_compact(b).len() == 2 * b.len(),
        forall|i: int| 0 <= i < hex_compact(b).len() ==> #[trigger] is_upper_hex(hex_compact(b)[i]),
    decreases b.len(),
{
    if b.len() > 0 {
        lemma_compact_chars(b.drop_last());
        let x = b.last();
        let pre = hex_compact(b.drop_last());
        assert forall|i: int| 0 <= i < hex_compact(b).len() implies #[trigger] is_upper_hex(hex_compact(b)[i]) by {
            if i < pre.len() {
                assert(hex_compact(b)[i] == pre[i]);
            } else if i == pre.len() {
                assert(hex_compact(b)[i] == hex_char((x / 16) as nat));
                assert(((x / 16) as nat) < 16);
            } else {
                assert(hex_compact(b)[i] == hex_char((x % 16) as nat));
                assert(((x % 16) as nat) < 16);
            }
        }
    }
}

proof fn lemma_cleaned_concat(a: Seq<char>, b: Seq<char>)
    ensures
        hex_cleaned(a + b) == hex_cleaned(a) + hex_cleaned(b),
    decreases b.len(),
{
    if b.len() == 0 {
        assert(a + b =~= a);
        assert(hex_cleaned(a) + hex_cleaned(b) =~= hex_cleaned(a));
    } else {
        lemma_cleaned_concat(a, b.drop_last());
        assert((a + b).drop_last() =~= a + b.drop_last());
        assert((a + b).last() == b.last());
        if is_hex_separator(b.last()) {
        } else {
            assert(hex_cleaned(a) + hex_cleaned(b.drop_last()).push(b.last())
                =~= (hex_cleaned(a) + hex_cleaned(b.drop_last())).push(b.last()));
        }
    }
}

proof fn lemma_cleaned_keeps(s: Seq<char>)
    requires
        forall|i: int| 0 <= i < s.len() ==> !is_hex_separator(#[trigger] s[i]),
    ensures
        hex_cleaned(s) == s,
    decreases s.len(),
{
    if s.len() > 0 {
        lemma_cleaned_keeps(s.drop_last());
        assert(!is_hex_separator(s[s.len() - 1]));
        assert(s.drop_last().push(s.last()) =~= s);
    }
}

proof fn lemma_even_ascii(s: Seq<char>)
    requires
        forall|i: int| 0 <= i < s.len() ==> utf8_width(#[trigger] s[i]) == 1,
    ensures
        odd_utf8_len(s) == (s.len() % 2 == 1),
    decreases s.len(),
{
    if s.len() > 0 {
        lemma_even_ascii(s.drop_last());
        assert(utf8_width(s[s.len() - 1]) == 1);
    }
}

proof fn lemma_spaced_cleans(b: Seq<u8>)
    ensures
        hex_cleaned(hex_spaced(b)) == hex_compact(b),
    decreases b.len(),
{
    if b.len() == 1 {
        let x = b[0];
        lemma_hex_char((x / 16) as nat);
        lemma_hex_char((x % 16) as nat);
        lemma_compact_chars(b);
        assert(b.drop_last() =~= Seq::<u8>::empty());
        assert forall|i: int| 0 <= i < hex_pair(x).len() implies !is_hex_separator(#[trigger] hex_pair(x)[i]) by {}
        lemma_cleaned_keeps(hex_pair(x));
        assert(hex_compact(b) =~= hex_pair(x));
    } else if b.len() > 1 {
        let x = b.last();
        lemma_spaced_cleans(b.drop_last());
        lemma_hex_char((x / 16) as nat);
        lemma_hex_char((x % 16) as nat);
        lemma_cleaned_concat(hex_spaced(b.drop_last()) + seq![' '], hex_pair(x));
        lemma_cleaned_concat(hex_spaced(b.drop_last()), seq![' ']);
        assert(seq![' '].drop_last() =~= Seq::<char>::empty());
        assert(seq![' '].last() == ' ');
        assert(hex_cleaned(seq![' ']) =~= Seq::<char>::empty()) by {
            reveal_with_fuel(hex_cleaned, 2);
        }
        assert forall|i: int| 0 <= i < hex_pair(x).len() implies !is_hex_separator(#[trigger] hex_pair(x)[i]) by {}
        lemma_cleaned_keeps(hex_pair(x));
        assert(hex_compact(b.drop_last()) + Seq::<char>::empty() =~= hex_compact(b.drop_last()));
    } else {
        assert(hex_spaced(b) =~= Seq::<char>::empty());
    }
}

proof fn lemma_pairs_compact(b: Seq<u8>, lower: bool)
    ensures
        hex_pairs(if lower { ascii_lowercase(hex_compact(b)) } else { hex_compact(b) }) == HexScan::Bytes(b),
    decreases b.len(),
{
    let t = if lower { ascii_lowercase(hex_compact(b)) } else { hex_compact(b) };
    if b.len() == 0 {
        assert(t =~= Seq::<char>::empty());
        assert(b =~= Seq::<u8>::empty());
    } else {
        let x = b[0];
        let rest = b.drop_first();
        lemma_compact_front(b);
        lemma_pairs_compact(rest, lower);
        lemma_pair_decodes(x);
        lemma_hex_char((x / 16) as nat);
        lemma_hex_char((x % 16) as nat);
        let tr = if lower { ascii_lowercase(hex_compact(rest)) } else { hex_compact(rest) };
        assert(t.skip(2) =~= tr);
        if lower {
            assert(t[0] == ascii_lower(hex_char((x / 16) as nat)));
            assert(t[1] == ascii_lower(hex_char((x % 16) as nat)));
        } else {
            assert(t[0] == hex_char((x / 16) as nat));
            assert(t[1] == hex_char((x % 16) as nat));
        }
        assert(t.len() >= 2);
        assert(utf8_width(t[0]) == 1 && utf8_width(t[1]) == 1);
        assert(hex_pair_value(t[0], t[1]) == Some(x));
        assert(hex_pairs(t.skip(2)) == HexScan::Bytes(rest));
        assert(hex_pairs(t) == HexScan::Bytes(seq![x] + rest));
        assert(seq![x] + rest =~= b);
    }
}

/// Formatting bytes as hex and parsing the text gives the bytes back: the
/// compact and the spaced uppercase forms, and the compact form in lower
/// case, all parse (without the slicing failure) to the same bytes.
pub proof fn lemma_hex_roundtrip(bytes: Seq<u8>)
    ensures
        hex_outcome(hex_compact(bytes)) == HexOutcome::Parsed(bytes),
        hex_outcome(hex_spaced(bytes)) == HexOutcome::Parsed(bytes),
        hex_outcome(ascii_lowercase(hex_compact(bytes))) == HexOutcome::Parsed(bytes),
        hex_result(hex_compact(bytes)) == Ok::<Seq<u8>, Seq<char>>(bytes),
        hex_result(hex_spaced(bytes)) == Ok::<Seq<u8>, Seq<char>>(bytes),
        hex_result(ascii_lowercase(hex_compact(bytes))) == Ok::<Seq<u8>, Seq<char>>(bytes),
{
    let c = hex_compact(bytes);
    let l = ascii_lowercase(c);
    lemma_compact_chars(bytes);
    assert forall|i: int| 0 <= i < c.len() implies !is_hex_separator(#[trigger] c[i]) && utf8_width(c[i]) == 1 by {
        assert(is_upper_hex(c[i]));
        let n = choose|n: nat| n < 16 && c[i] == hex_char(n);
        lemma_hex_char(n);
    }
    assert forall|i: int| 0 <= i < l.len() implies !is_hex_separator(#[trigger] l[i]) && utf8_width(l[i]) == 1 by {
        assert(is_upper_hex(c[i]));
        let n = choose|n: nat| n < 16 && c[i] == hex_char(n);
        lemma_hex_char(n);
    }
    lemma_cleaned_keeps(c);
    lemma_cleaned_keeps(l);
    lemma_even_ascii(c);
    lemma_even_ascii(l);
    lemma_spaced_cleans(bytes);
    lemma_pairs_compact(bytes, false);
    lemma_pairs_compact(bytes, true);
}

/// The uppercase hex digits of a number, without leading zeros (`{:X}`).
pub open spec fn hex_digits(n: nat) -> Seq<char>
    decreases n,
{
    if n < 16 {
        seq![hex_char(n)]
    } else {
        hex_digits(n / 16).push(hex_char(n % 16))
    }
}

/// Text made of whitespace only (possibly none).
pub open spec fn all_white(s: Seq<char>) -> bool {
    forall|i: int| 0 <= i < s.len() ==> is_white(#[trigger] s[i])
}

/// A digit character as the renderings write it.
spec fn rendered_digit(c: char) -> bool {
    exists|d: nat| d < 16 && (c == hex_char(d) || c == ascii_lower(hex_char(d)))
}

proof fn lemma_rendered_digit(c: char)
    requires
        rendered_digit(c),
    ensures
        !is_white(c),
        c != '+' && c != '-' && c != 'x' && c != 'X',
{
    let d = choose|d: nat| d < 16 && (c == hex_char(d) || c == ascii_lower(hex_char(d)));
    lemma_hex_char(d);
}

/// Reading one more digit after a text that reads as `v`.
proof fn lemma_scan_push(s: Seq<char>, c: char, radix: nat, acc: nat, v: nat, d: nat)
    requires
        scan_digits(s, radix, acc) == Ok::<nat, IntErrorKind>(v),
        digit_value(c, radix) == Some(d),
        v * radix + d <= u32::MAX,
    ensures
        scan_digits(s.push(c), radix, acc) == Ok::<nat, IntErrorKind>(v * radix + d),
    decreases s.len(),
{
    if s.len() == 0 {
        assert(s.push(c) =~= seq![c]);
        assert(seq![c].drop_first() =~= Seq::<char>::empty());
        reveal_with_fuel(scan_digits, 2);
    } else {
        let d0 = digit_value(s[0], radix)->0;
        assert(s.push(c).drop_first() =~= s.drop_first().push(c));
        assert(s.push(c)[0] == s[0]);
        lemma_scan_push(s.drop_first(), c, radix, acc * radix + d0, v, d);
    }
}

proof fn lemma_scan_dec(n: nat)
    requires
        n <= u32::MAX,
    ensures
        scan_digits(dec_digits(n), 10, 0) == Ok::<nat, IntErrorKind>(n),
        dec_digits(n).len() > 0,
        forall|i: int| 0 <= i < dec_digits(n).len() ==> rendered_digit(#[trigger] dec_digits(n)[i]),
    decreases n,
{
    lemma_hex_char(n % 10);
    if n < 10 {
        assert(seq![digit_char(n)].drop_first() =~= Seq::<char>::empty());
        assert(rendered_digit(hex_char(n)));
        reveal_with_fuel(scan_digits, 2);
    } else {
        lemma_scan_dec(n / 10);
        lemma_scan_push(dec_digits(n / 10), digit_char(n % 10), 10, 0, n / 10, n % 10);
        assert(rendered_digit(hex_char(n % 10)));
        assert forall|i: int| 0 <= i < dec_digits(n).len() implies rendered_digit(#[trigger] dec_digits(n)[i]) by {
            if i < dec_digits(n / 10).len() {
                assert(dec_digits(n)[i] == dec_digits(n / 10)[i]);
            }
        }
    }
}

/// The hex digits of a number, in upper or lower case.
pub open spec fn hex_digits_in(n: nat, lower: bool) -> Seq<char> {
    if lower { ascii_lowercase(hex_digits(n)) } else { hex_digits(n) }
}

proof fn lemma_scan_hex(n: nat, lower: bool)
    requires
        n <= u32::MAX,
    ensures
        scan_digits(hex_digits_in(n, lower), 16, 0) == Ok::<nat, IntErrorKind>(n),
        hex_digits_in(n, lower).len() > 0,
        forall|i: int| 0 <= i < hex_digits_in(n, lower).len() ==> rendered_digit(#[trigger] hex_digits_in(n, lower)[i]),
    decreases n,
{
    let t = hex_digits_in(n, lower);
    lemma_hex_char(n % 16);
    let c = if lower { ascii_lower(hex_char(n % 16)) } else { hex_char(n % 16) };
    assert(rendered_digit(c));
    if n < 16 {
        assert(t =~= seq![c]);
        assert(seq![c].drop_first() =~= Seq::<char>::empty());
        reveal_with_fuel(scan_digits, 2);
    } else {
        let p = hex_digits_in(n / 16, lower);
        lemma_scan_hex(n / 16, lower);
        assert(t =~= p.push(c));
        lemma_scan_push(p, c, 16, 0, n / 16, n % 16);
        assert forall|i: int| 0 <= i < t.len() implies rendered_digit(#[trigger] t[i]) by {
            if i < p.len() {
                assert(t[i] == p[i]);
            }
        }
    }
}

proof fn lemma_trim_start_white(pre: Seq<char>, t: Seq<char>)
    requires
        all_white(pre),
        t.len() > 0,
        !is_white(t[0]),
    ensures
        trim_start(pre + t) == t,
    decreases pre.len(),
{
    if pre.len() == 0 {
        assert(pre + t =~= t);
    } else {
        assert((pre + t)[0] == pre[0]);
        assert((pre + t).drop_first() =~= pre.drop_first() + t);
        assert(is_white(pre[0]));
        lemma_trim_start_white(pre.drop_first(), t);
    }
}

proof fn lemma_trim_end_white(t: Seq<char>, post: Seq<char>)
    requires
        all_white(post),
        t.len() > 0,
        !is_white(t.last()),
    ensures
        trim_end(t + post) == t,
    decreases post.len(),
{
    if post.len() == 0 {
        assert(t + post =~= t);
    } else {
        assert((t + post).last() == post.last());
        assert((t + post).drop_last() =~= t + post.drop_last());
        assert(is_white(post[post.len() - 1]));
        lemma_trim_end_white(t, post.drop_last());
    }
}

/// Whitespace around a text that starts and ends with a character that is
/// not whitespace is trimmed away.
proof fn lemma_trimmed_white(pre: Seq<char>, t: Seq<char>, post: Seq<char>)
    requires
        all_white(pre),
        all_white(post),
        t.len() > 0,
        !is_white(t[0]),
        !is_white(t.last()),
    ensures
        trimmed(pre + t + post) == t,
{
    assert(pre + t + post =~= pre + (t + post));
    lemma_trim_start_white(pre, t + post);
    lemma_trim_end_white(t, post);
}

/// An integer option written in decimal, or in hex after `0x` or `0X` with
/// digits in either case, with any whitespace around it, reads back as the
/// number it was written from.
pub proof fn lemma_u32_option_roundtrip(n: u32, pre: Seq<char>, post: Seq<char>, x: char, lower: bool)
    requires
        all_white(pre),
        all_white(post),
        x == 'x' || x == 'X',
    ensures
        u32_option(pre + dec_digits(n as nat) + post) == Ok::<u32, Seq<char>>(n),
        u32_option(pre + (seq!['0', x] + hex_digits_in(n as nat, lower)) + post) == Ok::<u32, Seq<char>>(n),
{
    lemma_scan_dec(n as nat);
    let d = dec_digits(n as nat);
    lemma_rendered_digit(d[0]);
    lemma_rendered_digit(d.last());
    lemma_trimmed_white(pre, d, post);
    if d.len() >= 2 {
        lemma_rendered_digit(d[1]);
    }
    lemma_scan_hex(n as nat, lower);
    let h = hex_digits_in(n as nat, lower);
    let t = seq!['0', x] + h;
    lemma_rendered_digit(h[0]);
    lemma_rendered_digit(h.last());
    assert(t[0] == '0');
    assert(t.last() == h.last());
    assert(!is_white('0'));
    lemma_trimmed_white(pre, t, post);
    assert(t.skip(2) =~= h);
}

/// The type piece of a filter specification, in lower case.
pub open spec fn filter_type_piece(spec: Seq<char>) -> Seq<char> {
    ascii_lowercase(split_on(spec, ':')[0])
}

/// A parsed filter specification has the filter type its type piece names,
/// in any case: `pass` a pass filter, `block` a block filter, `flow` and
/// `flow_control` a flow-control filter; so the type is the one the worker
/// gives the canonical name (`flow` standing for `flow_control`), and any
/// other type piece is refused.
pub proof fn lemma_filter_spec_type(spec: Seq<char>)
    ensures
        filter_spec_option(spec) matches Ok(f) ==> {
            let name = filter_type_piece(spec);
            &&& (name == "pass"@ ==> f.filter_type == PASS_FILTER)
            &&& (name == "block"@ ==> f.filter_type == BLOCK_FILTER)
            &&& (name == "flow"@ ==> f.filter_type == FLOW_CONTROL_FILTER)
            &&& (name == "flow_control"@ ==> f.filter_type == FLOW_CONTROL_FILTER)
            &&& filter_type_code(if name == "flow"@ { "flow_control"@ } else { name }) == Some(f.filter_type)
        },
        (filter_spec_option(spec) is Ok) ==> {
            let name = filter_type_piece(spec);
            name == "pass"@ || name == "block"@ || name == "flow"@ || name == "flow_control"@
        },
{
    reveal_strlit("pass");
    reveal_strlit("block");
    reveal_strlit("flow");
    reveal_strlit("flow_control");
    assert("pass"@.len() == 4);
    assert("block"@.len() == 5);
    assert("flow"@.len() == 4);
    assert("flow_control"@.len() == 12);
    assert("pass"@[0] != "flow"@[0]);
}
} // verus!
