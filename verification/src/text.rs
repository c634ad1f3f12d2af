//! Text building blocks: decimal and hexadecimal rendering, and the
//! whitespace rules used when parsing user input.

use vstd::prelude::*;
use vstd::string::*;

verus! {

/// Appends one character to a string (`String::push`).
/// Trusted: the result is the old contents followed by `c`, as std documents.
#[verifier::external_body]
pub(crate) fn push_char(s: &mut String, c: char)
    ensures
        final(s)@ == old(s)@.push(c),
{
    s.push(c);
}

/// Appends a string slice.
pub fn push_str(s: &mut String, t: &str)
    ensures
        final(s)@ == old(s)@ + t@,
{
    s.append(t);
}

/// The character of a decimal digit `0..=9`.
pub open spec fn digit_char(d: nat) -> char {
    ((d + 48) as u32) as char
}

/// The decimal rendering of a natural number, without leading zeros.
pub open spec fn dec_digits(n: nat) -> Seq<char>
    decreases n,
{
    if n < 10 {
        seq![digit_char(n)]
    } else {
        dec_digits(n / 10).push(digit_char(n % 10))
    }
}

/// The decimal rendering of an integer, with a leading `-` when negative.
pub open spec fn dec_signed(i: int) -> Seq<char> {
    if i < 0 {
        seq!['-'] + dec_digits((-i) as nat)
    } else {
        dec_digits(i as nat)
    }
}

fn digit(d: u64) -> (c: char)
    requires
        d < 10,
    ensures
        c == digit_char(d as nat),
{
    let v: u8 = (d as u8) + 48;
    v as char
}

/// Appends the decimal rendering of `n`.
pub fn push_decimal(s: &mut String, n: u64)
    ensures
        final(s)@ == old(s)@ + dec_digits(n as nat),
    decreases n,
{
    if n >= 10 {
        push_decimal(s, n / 10);
    }
    let c = digit(n % 10);
    push_char(s, c);
    assert(final(s)@ =~= old(s)@ + dec_digits(n as nat));
}

/// Appends the decimal rendering of a signed value.
pub fn push_signed(s: &mut String, i: i64)
    ensures
        final(s)@ == old(s)@ + dec_signed(i as int),
{
    if i < 0 {
        push_char(s, '-');
        let magnitude: u64 = if i == i64::MIN {
            9223372036854775808u64
        } else {
            (-i) as u64
        };
        push_decimal(s, magnitude);
        assert(final(s)@ =~= old(s)@ + dec_signed(i as int));
    } else {
        push_decimal(s, i as u64);
    }
}

/// Uppercase hexadecimal digit for a nibble.
pub open spec fn hex_char(n: nat) -> char {
    if n < 10 {
        ((n + 48) as u32) as char
    } else {
        ((n + 55) as u32) as char
    }
}

/// Two uppercase hex digits of a byte.
pub open spec fn hex_pair(b: u8) -> Seq<char> {
    seq![hex_char((b / 16) as nat), hex_char((b % 16) as nat)]
}

/// Bytes rendered as consecutive uppercase hex pairs.
pub open spec fn hex_compact(bytes: Seq<u8>) -> Seq<char>
    decreases bytes.len(),
{
    if bytes.len() == 0 {
        Seq::empty()
    } else {
        hex_compact(bytes.drop_last()) + hex_pair(bytes.last())
    }
}

/// Bytes rendered as uppercase hex pairs separated by single spaces.
pub open spec fn hex_spaced(bytes: Seq<u8>) -> Seq<char>
    decreases bytes.len(),
{
    if bytes.len() == 0 {
        Seq::empty()
    } else if bytes.len() == 1 {
        hex_pair(bytes[0])
    } else {
        hex_spaced(bytes.drop_last()) + seq![' '] + hex_pair(bytes.last())
    }
}

fn nibble_char(n: u8) -> (c: char)
    requires
        n < 16,
    ensures
        c == hex_char(n as nat),
{
    if n < 10 {
        (n + 48) as char
    } else {
        (n + 55) as char
    }
}

/// Appends the two uppercase hex digits of `b`.
pub fn push_hex_pair(s: &mut String, b: u8)
    ensures
        final(s)@ == old(s)@ + hex_pair(b),
{
    push_char(s, nibble_char(b / 16));
    push_char(s, nibble_char(b % 16));
    assert(final(s)@ =~= old(s)@ + hex_pair(b));
}

} // verus!

verus! {

/// Character-wise equality of two string slices.
pub fn str_equals(a: &str, b: &str) -> (eq: bool)
    ensures
        eq == (a@ == b@),
{
    let n = a.unicode_len();
    if n != b.unicode_len() {
        return false;
    }
    let mut i: usize = 0;
    while i < n
        invariant
            n == a@.len(),
            a@.len() == b@.len(),
            i <= n,
            forall|j: int| 0 <= j < i ==> a@[j] == b@[j],
        decreases n - i,
    {
        if a.get_char(i) != b.get_char(i) {
            return false;
        }
        i = i + 1;
    }
    assert(a@ =~= b@);
    true
}

} // verus!

verus! {

/// Unicode `White_Space` characters (what `char::is_whitespace` accepts).
pub open spec fn is_white(c: char) -> bool {
    let n = c as u32;
    (0x09 <= n <= 0x0D) || n == 0x20 || n == 0x85 || n == 0xA0 || n == 0x1680
        || (0x2000 <= n <= 0x200A) || n == 0x2028 || n == 0x2029 || n == 0x202F
        || n == 0x205F || n == 0x3000
}

/// Whether a character is Unicode whitespace.
pub fn is_white_char(c: char) -> (b: bool)
    ensures
        b == is_white(c),
{
    let n = c as u32;
    (0x09 <= n && n <= 0x0D) || n == 0x20 || n == 0x85 || n == 0xA0 || n == 0x1680
        || (0x2000 <= n && n <= 0x200A) || n == 0x2028 || n == 0x2029 || n == 0x202F
        || n == 0x205F || n == 0x3000
}

/// The text without its leading whitespace.
pub open spec fn trim_start(s: Seq<char>) -> Seq<char>
    decreases s.len(),
{
    if s.len() > 0 && is_white(s[0]) {
        trim_start(s.drop_first())
    } else {
        s
    }
}

/// The text without its trailing whitespace.
pub open spec fn trim_end(s: Seq<char>) -> Seq<char>
    decreases s.len(),
{
    if s.len() > 0 && is_white(s.last()) {
        trim_end(s.drop_last())
    } else {
        s
    }
}

/// The text without leading and trailing whitespace (`str::trim`).
pub open spec fn trimmed(s: Seq<char>) -> Seq<char> {
    trim_end(trim_start(s))
}

/// Index of the first character that is not whitespace (or the length).
fn first_non_white(s: &str) -> (i: usize)
    ensures
        i <= s@.len(),
        trim_start(s@) == s@.subrange(i as int, s@.len() as int),
{
    let n = s.unicode_len();
    let mut i: usize = 0;
    assert(s@.subrange(0, n as int) =~= s@);
    while i < n && is_white_char(s.get_char(i))
        invariant
            n == s@.len(),
            i <= n,
            trim_start(s@) == trim_start(s@.subrange(i as int, n as int)),
        decreases n - i,
    {
        let ghost sub = s@.subrange(i as int, n as int);
        assert(sub.drop_first() =~= s@.subrange(i + 1, n as int));
        i = i + 1;
    }
    i
}

/// The text without leading and trailing whitespace.
pub fn trim_text(s: &str) -> (t: String)
    ensures
        t@ == trimmed(s@),
{
    let start = first_non_white(s);
    let rest = s.substring_char(start, s.unicode_len());
    let n = rest.unicode_len();
    let mut end: usize = n;
    assert(rest@.subrange(0, n as int) =~= rest@);
    while end > 0 && is_white_char(rest.get_char(end - 1))
        invariant
            n == rest@.len(),
            end <= n,
            trim_end(rest@) == trim_end(rest@.subrange(0, end as int)),
        decreases end,
    {
        let ghost sub = rest@.subrange(0, end as int);
        assert(sub.drop_last() =~= rest@.subrange(0, end - 1));
        end = end - 1;
    }
    let kept = rest.substring_char(0, end);
    String::from_str(kept)
}

/// The text of a byte sequence as `String::from_utf8_lossy` decodes it.
pub uninterp spec fn lossy_utf8(bytes: Seq<u8>) -> Seq<char>;

/// Every byte is ASCII.
pub open spec fn all_ascii(bytes: Seq<u8>) -> bool {
    forall|i: int| 0 <= i < bytes.len() ==> bytes[i] < 128
}

/// ASCII bytes read as characters.
pub open spec fn ascii_chars(bytes: Seq<u8>) -> Seq<char> {
    Seq::new(bytes.len(), |i: int| (bytes[i] as u32) as char)
}

/// Decodes bytes as UTF-8, replacing invalid sequences
/// (`String::from_utf8_lossy`). Trusted: the text is the one function of the
/// bytes named `lossy_utf8`; ASCII bytes, being valid UTF-8, decode to the
/// characters with the same code points, as std documents.
#[verifier::external_body]
pub(crate) fn utf8_lossy(bytes: &[u8]) -> (s: String)
    ensures
        s@ == lossy_utf8(bytes@),
        all_ascii(bytes@) ==> s@ == ascii_chars(bytes@),
{
    String::from_utf8_lossy(bytes).into_owned()
}

/// Length of the C string in a buffer: up to the first NUL, or the whole
/// buffer when it has none.
pub open spec fn c_len(buf: Seq<i8>) -> int {
    choose|n: int| is_c_end(buf, n)
}

/// `n` is where the C string in `buf` ends.
pub open spec fn is_c_end(buf: Seq<i8>, n: int) -> bool {
    &&& 0 <= n <= buf.len()
    &&& n == buf.len() || buf[n] == 0
    &&& forall|i: int| 0 <= i < n ==> buf[i] != 0
}

/// The bytes of the C string in a buffer.
pub open spec fn c_bytes(buf: Seq<i8>) -> Seq<u8> {
    Seq::new(c_len(buf) as nat, |i: int| buf[i] as u8)
}

/// The bytes of a NUL-terminated C string held in a buffer.
pub fn c_string_bytes(buf: &[i8]) -> (v: Vec<u8>)
    ensures
        v@ == c_bytes(buf@),
        v@.len() <= buf@.len(),
{
    let n = buf.len();
    let mut v: Vec<u8> = Vec::new();
    let mut i: usize = 0;
    while i < n && buf[i] != 0
        invariant
            n == buf@.len(),
            i <= n,
            v@.len() == i,
            forall|j: int| 0 <= j < i ==> buf@[j] != 0,
            forall|j: int| 0 <= j < i ==> #[trigger] v@[j] == buf@[j] as u8,
        decreases n - i,
    {
        v.push(buf[i] as u8);
        i = i + 1;
    }
    proof {
        assert(is_c_end(buf@, i as int));
        let k = c_len(buf@);
        assert(is_c_end(buf@, k));
        if k < i {
            assert(buf@[k] != 0);
        }
        if i < k {
            assert(buf@[i as int] != 0);
        }
        assert(v@ =~= c_bytes(buf@));
    }
    v
}

/// The text of a NUL-terminated C string held in a buffer, decoded leniently.
pub fn c_string(buf: &[i8]) -> (s: String)
    ensures
        s@ == lossy_utf8(c_bytes(buf@)),
        all_ascii(c_bytes(buf@)) ==> s@ == ascii_chars(c_bytes(buf@)),
{
    let bytes = c_string_bytes(buf);
    utf8_lossy(bytes.as_slice())
}

} // verus!

verus! {

/// ASCII letters in lower case; other characters unchanged.
pub open spec fn ascii_lower(c: char) -> char {
    if 'A' <= c && c <= 'Z' { ((c as u32) + 32) as char } else { c }
}

/// A character in ASCII lower case.
pub fn to_ascii_lower(c: char) -> (d: char)
    ensures
        d == ascii_lower(c),
{
    if 'A' <= c && c <= 'Z' {
        let n: u32 = (c as u32) + 32;
        let b: u8 = n as u8;
        b as char
    } else {
        c
    }
}

/// A text with its ASCII letters in lower case (`str::to_ascii_lowercase`).
pub open spec fn ascii_lowercase(s: Seq<char>) -> Seq<char> {
    Seq::new(s.len(), |i: int| ascii_lower(s[i]))
}

/// Lowers the ASCII letters of a text.
pub fn to_ascii_lowercase(s: &str) -> (t: String)
    ensures
        t@ == ascii_lowercase(s@),
{
    let n = s.unicode_len();
    let mut t = String::new();
    let mut i: usize = 0;
    while i < n
        invariant
            n == s@.len(),
            i <= n,
            t@ == ascii_lowercase(s@.take(i as int)),
        decreases n - i,
    {
        let ghost before = t@;
        push_char(&mut t, to_ascii_lower(s.get_char(i)));
        assert(ascii_lowercase(s@.take(i + 1)) =~= before.push(ascii_lower(s@[i as int])));
        i = i + 1;
    }
    assert(s@.take(n as int) =~= s@);
    t
}

/// The `width` lowest hex digits of `x`, most significant first, in upper case.
pub open spec fn hex_fixed(x: nat, width: nat) -> Seq<char>
    decreases width,
{
    if width == 0 {
        Seq::empty()
    } else {
        hex_fixed(x / 16, (width - 1) as nat).push(hex_char(x % 16))
    }
}

/// Appends the `width` lowest hex digits of `x` (`{:0width$X}` when `x`
/// has at most `width` digits).
pub fn push_hex_fixed(s: &mut String, x: u32, width: u32)
    requires
        width <= 8,
    ensures
        final(s)@ == old(s)@ + hex_fixed(x as nat, width as nat),
    decreases width,
{
    if width > 0 {
        push_hex_fixed(s, x / 16, width - 1);
        push_char(s, nibble_char((x % 16) as u8));
        assert(final(s)@ =~= old(s)@ + hex_fixed(x as nat, width as nat));
    }
}

/// Appends the uppercase hex pairs of the bytes, without separators.
pub fn push_hex_compact(s: &mut String, bytes: &[u8])
    ensures
        final(s)@ == old(s)@ + hex_compact(bytes@),
{
    let mut i: usize = 0;
    assert(bytes@.take(0) =~= Seq::<u8>::empty());
    assert(s@ =~= old(s)@ + hex_compact(bytes@.take(0)));
    while i < bytes.len()
        invariant
            i <= bytes@.len(),
            s@ == old(s)@ + hex_compact(bytes@.take(i as int)),
        decreases bytes@.len() - i,
    {
        push_hex_pair(s, bytes[i]);
        assert(bytes@.take(i + 1).drop_last() =~= bytes@.take(i as int));
        i = i + 1;
        assert(s@ =~= old(s)@ + hex_compact(bytes@.take(i as int)));
    }
    assert(bytes@.take(bytes@.len() as int) =~= bytes@);
}

/// Appends the uppercase hex pairs of the bytes, separated by single spaces.
pub fn push_hex_spaced(s: &mut String, bytes: &[u8])
    ensures
        final(s)@ == old(s)@ + hex_spaced(bytes@),
{
    let mut i: usize = 0;
    assert(bytes@.take(0) =~= Seq::<u8>::empty());
    assert(s@ =~= old(s)@ + hex_spaced(bytes@.take(0)));
    while i < bytes.len()
        invariant
            i <= bytes@.len(),
            s@ == old(s)@ + hex_spaced(bytes@.take(i as int)),
        decreases bytes@.len() - i,
    {
        if i > 0 {
            push_char(s, ' ');
        }
        push_hex_pair(s, bytes[i]);
        assert(bytes@.take(i + 1).drop_last() =~= bytes@.take(i as int));
        if i == 0 {
            assert(bytes@.take(1) =~= seq![bytes@[0]]);
        }
        i = i + 1;
        assert(s@ =~= old(s)@ + hex_spaced(bytes@.take(i as int)));
    }
    assert(bytes@.take(bytes@.len() as int) =~= bytes@);
}

} // verus!
