//! Small text utilities shared by the rest of the crate: decimal rendering of
//! integers and a few helpers on character sequences.

use vstd::prelude::*;
use vstd::string::*;
use vstd::utf8::*;

verus! {

/// The decimal digit that stands for `d` (for `d` below ten).
pub open spec fn digit_char(d: nat) -> char {
    if d == 0 {
        '0'
    } else if d == 1 {
        '1'
    } else if d == 2 {
        '2'
    } else if d == 3 {
        '3'
    } else if d == 4 {
        '4'
    } else if d == 5 {
        '5'
    } else if d == 6 {
        '6'
    } else if d == 7 {
        '7'
    } else if d == 8 {
        '8'
    } else {
        '9'
    }
}

/// Decimal notation of a natural number, without sign or leading zeros.
pub open spec fn decimal(n: nat) -> Seq<char>
    decreases n,
{
    if n < 10 {
        seq![digit_char(n)]
    } else {
        decimal(n / 10).push(digit_char(n % 10))
    }
}

/// Decimal notation of an integer: a minus sign before negative numbers.
pub open spec fn signed_decimal(n: int) -> Seq<char> {
    if n < 0 {
        seq!['-'] + decimal((-n) as nat)
    } else {
        decimal(n as nat)
    }
}

/// `String::push` of the standard library: appends exactly one character to
/// the end of the string.
#[verifier::external_body]
pub(crate) fn push_char(s: &mut String, c: char)
    ensures
        final(s)@ == old(s)@.push(c),
{
    s.push(c);
}

fn digit(d: u128) -> (c: char)
    requires
        d < 10,
    ensures
        c == digit_char(d as nat),
{
    if d == 0 {
        '0'
    } else if d == 1 {
        '1'
    } else if d == 2 {
        '2'
    } else if d == 3 {
        '3'
    } else if d == 4 {
        '4'
    } else if d == 5 {
        '5'
    } else if d == 6 {
        '6'
    } else if d == 7 {
        '7'
    } else if d == 8 {
        '8'
    } else {
        '9'
    }
}

/// Appends the decimal notation of `n` to `out`.
pub fn push_decimal(out: &mut String, n: u128)
    ensures
        final(out)@ == old(out)@ + decimal(n as nat),
    decreases n,
{
    if n >= 10 {
        push_decimal(out, n / 10);
    }
    push_char(out, digit(n % 10));
}

/// Decimal notation of an unsigned integer.
pub fn unsigned_to_string(n: u128) -> (s: String)
    ensures
        s@ == decimal(n as nat),
{
    let mut s = String::new();
    push_decimal(&mut s, n);
    s
}

/// Decimal notation of a signed integer.
pub fn signed_to_string(n: i64) -> (s: String)
    ensures
        s@ == signed_decimal(n as int),
{
    let mut s = String::new();
    if n < 0 {
        push_char(&mut s, '-');
        let magnitude: u128 = (-(n as i128)) as u128;
        push_decimal(&mut s, magnitude);
    } else {
        push_decimal(&mut s, n as u128);
    }
    s
}

/// Equality of string slices in the standard library (`str::eq`): true
/// exactly when the two hold the same characters.
#[verifier::external_body]
pub(crate) fn str_eq(a: &str, b: &str) -> (r: bool)
    ensures
        r == (a@ == b@),
{
    a == b
}

/// Whether `c` has the Unicode property `White_Space`: tab, line feed,
/// vertical tab, form feed, carriage return, space, next line, no-break
/// space, the ogham space mark, the spaces of fixed width, line and
/// paragraph separator, the narrow no-break space, the medium mathematical
/// space and the ideographic space.
pub open spec fn white_space(c: char) -> bool {
    let code = c as u32;
    ||| 0x0009 <= code <= 0x000D
    ||| code == 0x0020
    ||| code == 0x0085
    ||| code == 0x00A0
    ||| code == 0x1680
    ||| 0x2000 <= code <= 0x200A
    ||| code == 0x2028
    ||| code == 0x2029
    ||| code == 0x202F
    ||| code == 0x205F
    ||| code == 0x3000
}

/// `char::is_whitespace` of the standard library: whether a character has
/// the Unicode property `White_Space`.
#[verifier::external_body]
pub(crate) fn is_whitespace(c: char) -> (r: bool)
    ensures
        r == white_space(c),
{
    c.is_whitespace()
}

/// `s` without the white space at its start.
pub open spec fn trim_start_spec(s: Seq<char>) -> Seq<char>
    decreases s.len(),
{
    if s.len() > 0 && white_space(s[0]) {
        trim_start_spec(s.drop_first())
    } else {
        s
    }
}

/// `s` without the white space at its end.
pub open spec fn trim_end_spec(s: Seq<char>) -> Seq<char>
    decreases s.len(),
{
    if s.len() > 0 && white_space(s.last()) {
        trim_end_spec(s.drop_last())
    } else {
        s
    }
}

/// `s` without the white space at either end.
pub open spec fn trim_spec(s: Seq<char>) -> Seq<char> {
    trim_end_spec(trim_start_spec(s))
}

/// `str::trim` of the standard library: the slice that is left when leading
/// and trailing white space is removed.
#[verifier::external_body]
pub(crate) fn trim(s: &str) -> (r: &str)
    ensures
        r@ == trim_spec(s@),
{
    s.trim()
}

/// The lower-case form of a text, as the standard library's
/// `str::to_lowercase` gives it.
pub uninterp spec fn lowercase(s: Seq<char>) -> Seq<char>;

/// `str::to_lowercase` of the standard library.
#[verifier::external_body]
pub(crate) fn to_lowercase(s: &str) -> (r: String)
    ensures
        r@ == lowercase(s@),
{
    s.to_lowercase()
}

/// Appends `s` to a list of strings.
pub fn push_string(list: &mut Vec<String>, s: String)
    ensures
        final(list).deep_view() == old(list).deep_view().push(s@),
{
    let ghost before = list.deep_view();
    let ghost text = s@;
    list.push(s);
    assert(list.deep_view() =~= before.push(text));
}

/// An owned copy of `s`.
pub fn owned(s: &str) -> (r: String)
    ensures
        r@ == s@,
{
    String::from_str(s)
}

/// The texts of `parts` in a row, with `sep` between neighbours.
pub open spec fn joined(parts: Seq<Seq<char>>, sep: Seq<char>) -> Seq<char>
    decreases parts.len(),
{
    if parts.len() == 0 {
        Seq::empty()
    } else if parts.len() == 1 {
        parts[0]
    } else {
        joined(parts.drop_last(), sep) + sep + parts.last()
    }
}

/// Number of bytes that `s` takes as UTF-8.
pub fn byte_len(s: &str) -> (n: usize)
    ensures
        n == encode_utf8(s@).len(),
{
    s.as_bytes().len()
}

/// Whether `s`, as UTF-8, can be cut after its first `head` bytes and
/// before its last `tail` bytes without splitting a character.
pub open spec fn can_cut(s: Seq<char>, head: int, tail: int) -> bool {
    let bytes = encode_utf8(s);
    &&& 0 <= head <= bytes.len()
    &&& 0 <= tail <= bytes.len()
    &&& is_char_boundary(bytes, head)
    &&& is_char_boundary(bytes, bytes.len() - tail)
}

/// The first `head` bytes of `s` as UTF-8, three dots, and its last `tail`
/// bytes.
pub open spec fn ends_of(s: Seq<char>, head: int, tail: int) -> Seq<char> {
    let bytes = encode_utf8(s);
    decode_utf8(bytes.subrange(0, head)) + "..."@ + decode_utf8(
        bytes.subrange(bytes.len() - tail, bytes.len() as int),
    )
}

/// Shortens `s` to its two ends with three dots between them.
pub fn keep_ends(s: &str, head: usize, tail: usize) -> (r: String)
    requires
        can_cut(s@, head as int, tail as int),
    ensures
        r@ == ends_of(s@, head as int, tail as int),
{
    broadcast use encode_utf8_decode_utf8;

    let len = byte_len(s);
    let (front, _) = s.split_at(head);
    let (_, back) = s.split_at(len - tail);
    let mut r = String::from_str(front);
    r.append("...");
    r.append(back);
    proof {
        let bytes = encode_utf8(s@);
        assert(encode_utf8(front@) == bytes.subrange(0, head as int));
        assert(encode_utf8(back@) == bytes.subrange(bytes.len() - tail, bytes.len() as int));
        assert(decode_utf8(encode_utf8(front@)) == front@);
        assert(decode_utf8(encode_utf8(back@)) == back@);
    }
    r
}

/// The UTF-8 form of an ASCII text is the text itself, byte for character;
/// so is every stretch of it.
proof fn lemma_ascii_subrange(s: Seq<char>, from: int, to: int)
    requires
        is_ascii_chars(s),
        0 <= from <= to <= s.len(),
    ensures
        encode_utf8(s).len() == s.len(),
        decode_utf8(encode_utf8(s).subrange(from, to)) == s.subrange(from, to),
{
    let part = s.subrange(from, to);
    assert(is_ascii_chars(part));
    is_ascii_chars_encode_utf8(s);
    is_ascii_chars_encode_utf8(part);
    assert(encode_utf8(part) =~= encode_utf8(s).subrange(from, to));
    encode_utf8_decode_utf8(part);
}

/// An ASCII text can be cut anywhere, and its ends are then counted in
/// characters.
pub proof fn lemma_ends_of_ascii(s: Seq<char>, head: int, tail: int)
    requires
        is_ascii_chars(s),
        0 <= head <= s.len(),
        0 <= tail <= s.len(),
    ensures
        encode_utf8(s).len() == s.len(),
        can_cut(s, head, tail),
        ends_of(s, head, tail) == s.subrange(0, head) + "..."@ + s.subrange(
            s.len() - tail,
            s.len() as int,
        ),
{
    let bytes = encode_utf8(s);
    lemma_ascii_subrange(s, 0, head);
    lemma_ascii_subrange(s, s.len() - tail, s.len() as int);
    encode_utf8_valid_utf8(s);
    is_ascii_chars_encode_utf8(s);
    is_char_boundary_start_end_of_seq(bytes);
    if head < bytes.len() {
        assert(bytes[head] == s[head] as u8);
        is_char_boundary_iff_not_is_continuation_byte(bytes, head);
    }
    if 0 < tail {
        let at = bytes.len() - tail;
        assert(bytes[at] == s[at] as u8);
        is_char_boundary_iff_not_is_continuation_byte(bytes, at);
    }
}

} // verus!
