//! Text helpers over `String` and `&str`: the std calls that the library's logic makes
//! on strings, with the contracts their documentation gives, and the mathematical
//! definitions those contracts use.

use vstd::prelude::*;
use vstd::string::StrSliceExecFns;
use vstd::utf8::{decode_utf8, encode_utf8, valid_utf8};

verus! {

/// Appends `c` to `s`.
///
/// Calls `String::push`, documented as appending the given char to the end of the string.
#[verifier::external_body]
pub(crate) fn string_push(s: &mut String, c: char)
    ensures
        final(s)@ == old(s)@.push(c),
{
    s.push(c)
}

/// Removes and returns the last character of `s`, if any.
///
/// Calls `String::pop`, documented as removing the last character and returning it, or
/// returning `None` when the string is empty.
#[verifier::external_body]
pub(crate) fn string_pop(s: &mut String) -> (r: Option<char>)
    ensures
        old(s)@.len() == 0 ==> r is None && final(s)@ == old(s)@,
        old(s)@.len() > 0 ==> r == Some(old(s)@.last()) && final(s)@ == old(s)@.drop_last(),
{
    s.pop()
}

/// Empties `s`.
///
/// Calls `String::clear`, documented as truncating the string to length zero.
#[verifier::external_body]
pub(crate) fn string_clear(s: &mut String)
    ensures
        final(s)@ == Seq::<char>::empty(),
{
    s.clear()
}

/// The characters that `char::is_whitespace` accepts: those with the Unicode
/// `White_Space` property.
pub open spec fn is_whitespace_char(c: char) -> bool {
    ||| '\t' <= c <= '\r'
    ||| c == ' '
    ||| c == '\u{85}'
    ||| c == '\u{a0}'
    ||| c == '\u{1680}'
    ||| '\u{2000}' <= c <= '\u{200a}'
    ||| c == '\u{2028}'
    ||| c == '\u{2029}'
    ||| c == '\u{202f}'
    ||| c == '\u{205f}'
    ||| c == '\u{3000}'
}

/// `s` without its leading and trailing whitespace.
pub open spec fn trim_whitespace(s: Seq<char>) -> Seq<char>
    decreases s.len(),
{
    if s.len() > 0 && is_whitespace_char(s[0]) {
        trim_whitespace(s.drop_first())
    } else if s.len() > 0 && is_whitespace_char(s.last()) {
        trim_whitespace(s.drop_last())
    } else {
        s
    }
}

/// `s` without leading and trailing whitespace.
///
/// Calls `str::trim`, documented as removing the leading and trailing whitespace, where
/// whitespace is what the Unicode `White_Space` property names (`char::is_whitespace`).
#[verifier::external_body]
pub(crate) fn str_trim(s: &str) -> (r: &str)
    ensures
        r@ == trim_whitespace(s@),
{
    s.trim()
}

/// `c` is an ASCII decimal digit.
pub open spec fn is_decimal_digit(c: char) -> bool {
    '0' <= c <= '9'
}

/// The value of a string of decimal digits.
pub open spec fn decimal_value(s: Seq<char>) -> nat
    decreases s.len(),
{
    if s.len() == 0 {
        0
    } else {
        decimal_value(s.drop_last()) * 10 + ((s.last() as nat) - ('0' as nat)) as nat
    }
}

/// What `u16::from_str` accepts: an optional `+` followed by one or more decimal digits
/// whose value fits in `u16`; it yields that value.
pub open spec fn parse_u16_spec(s: Seq<char>) -> Option<u16> {
    let digits = if s.len() > 0 && s[0] == '+' {
        s.drop_first()
    } else {
        s
    };
    if digits.len() > 0 && (forall|i: int| 0 <= i < digits.len() ==> is_decimal_digit(
        #[trigger] digits[i],
    )) && decimal_value(digits) <= u16::MAX {
        Some(decimal_value(digits) as u16)
    } else {
        None
    }
}

/// Parses `s` as a decimal `u16`.
///
/// Calls `str::parse::<u16>`. Its documentation (`u16::from_str_radix`) expects an
/// optional `+` sign followed by only digits, and reports an error for anything else and
/// for values that overflow; the error becomes `None` here.
#[verifier::external_body]
pub(crate) fn parse_u16(s: &str) -> (r: Option<u16>)
    ensures
        r == parse_u16_spec(s@),
{
    match s.parse::<u16>() {
        Ok(v) => Some(v),
        Err(_) => None,
    }
}

/// `c` is a printable ASCII character other than space (`char::is_ascii_graphic`).
pub open spec fn is_ascii_graphic(c: char) -> bool {
    '!' <= c <= '~'
}

/// Whether `c` is a printable ASCII character other than space.
pub fn ascii_graphic(c: char) -> (r: bool)
    ensures
        r == is_ascii_graphic(c),
{
    '!' <= c && c <= '~'
}

/// A `String` holding the characters of `s`.
pub fn owned(s: &str) -> (r: String)
    ensures
        r@ == s@,
{
    s.to_owned()
}

#[verifier::external_type_specification]
#[verifier::external_body]
pub struct ExUtf8Error(std::str::Utf8Error);

/// The text of `bytes`, when they are UTF-8.
///
/// Calls `std::str::from_utf8`, documented as returning the bytes as a string slice when
/// they are valid UTF-8 and an error otherwise.
#[verifier::external_body]
pub(crate) fn str_from_utf8(bytes: &[u8]) -> (r: Result<&str, std::str::Utf8Error>)
    ensures
        r is Ok <==> valid_utf8(bytes@),
        r matches Ok(s) ==> s@ == decode_utf8(bytes@),
{
    std::str::from_utf8(bytes)
}

/// The text `String::from_utf8_lossy` makes of `bytes`: each invalid sequence becomes
/// U+FFFD.
pub uninterp spec fn lossy_text(bytes: Seq<u8>) -> Seq<char>;

/// The text of `bytes`, invalid sequences replaced.
///
/// Calls `String::from_utf8_lossy`, documented as borrowing the bytes unchanged when they
/// are valid UTF-8 and replacing each invalid sequence with U+FFFD otherwise; the result
/// is taken as an owned `String`.
#[verifier::external_body]
pub(crate) fn string_from_utf8_lossy(bytes: &[u8]) -> (r: String)
    ensures
        r@ == lossy_text(bytes@),
        valid_utf8(bytes@) ==> r@ == decode_utf8(bytes@),
{
    String::from_utf8_lossy(bytes).into_owned()
}

/// Whether `a` and `b` hold the same characters.
pub fn str_eq(a: &str, b: &str) -> (r: bool)
    ensures
        r == (a@ == b@),
{
    let n = a.unicode_len();
    if n != b.unicode_len() {
        return false;
    }
    let mut i: usize = 0;
    while i < n
        invariant
            n == a@.len(),
            n == b@.len(),
            i <= n,
            forall|j: int| 0 <= j < i ==> a@[j] == b@[j],
        decreases n - i,
    {
        if a.get_char(i) != b.get_char(i) {
            return false;
        }
        i = i + 1;
    }
    assert(a@ =~= b@);
    true
}

/// The lowercase form `str::to_lowercase` gives of `s`.
pub uninterp spec fn lowercase_of(s: Seq<char>) -> Seq<char>;

/// The lowercase form of `s`.
///
/// Calls `str::to_lowercase`, which maps each character to its lowercase form as the
/// Unicode `Lowercase` property defines it. The contract names the result.
#[verifier::external_body]
pub(crate) fn str_to_lowercase(s: &str) -> (r: String)
    ensures
        r@ == lowercase_of(s@),
{
    s.to_lowercase()
}

/// The decimal digit character of `d`, for `d` below 10.
pub open spec fn digit_char(d: nat) -> char {
    ((d + 48) as u32) as char
}

/// The decimal text of `n`, without leading zeros.
pub open spec fn decimal_text(n: nat) -> Seq<char>
    decreases n,
{
    if n < 10 {
        seq![digit_char(n)]
    } else {
        decimal_text(n / 10).push(digit_char(n % 10))
    }
}

/// The decimal text of `n`.
pub fn u64_to_decimal(n: u64) -> (r: String)
    ensures
        r@ == decimal_text(n as nat),
{
    if n == 0 {
        let mut out = String::new();
        string_push(&mut out, '0');
        assert(out@ =~= decimal_text(0));
        return out;
    }
    let mut digits: Vec<char> = Vec::new();
    let mut rest: u64 = n;
    while rest > 0
        invariant
            decimal_text(n as nat) == (if rest == 0 {
                seq![]
            } else {
                decimal_text(rest as nat)
            }) + digits@.reverse(),
        decreases rest,
    {
        let d = rest % 10;
        let c: char = ((d as u8) + 48u8) as char;
        assert(c == digit_char(d as nat));
        let ghost before = digits@;
        digits.push(c);
        let next = rest / 10;
        proof {
            assert(digits@.reverse() =~= seq![c] + before.reverse());
            if rest >= 10 {
                assert(decimal_text(rest as nat) == decimal_text(next as nat).push(c));
                assert(decimal_text(n as nat) =~= decimal_text(next as nat) + digits@.reverse());
            } else {
                assert(decimal_text(rest as nat) == seq![c]);
                assert(decimal_text(n as nat) =~= digits@.reverse());
            }
        }
        rest = next;
    }
    assert(decimal_text(n as nat) =~= digits@.reverse());
    let mut out = String::new();
    let mut i: usize = digits.len();
    while i > 0
        invariant
            i <= digits@.len(),
            out@ == digits@.reverse().subrange(0, (digits@.len() - i) as int),
        decreases i,
    {
        i = i - 1;
        string_push(&mut out, digits[i]);
        assert(out@ =~= digits@.reverse().subrange(0, (digits@.len() - i) as int));
    }
    assert(out@ =~= digits@.reverse());
    out
}
/// `s` begins with `p`.
pub open spec fn has_prefix(s: Seq<char>, p: Seq<char>) -> bool {
    p.len() <= s.len() && s.subrange(0, p.len() as int) == p
}

/// A sequence begins with the part it was made from.
pub proof fn lemma_has_prefix_concat(p: Seq<char>, t: Seq<char>)
    ensures
        has_prefix(p + t, p),
{
    assert((p + t).subrange(0, p.len() as int) =~= p);
}

/// `needle` occurs in `hay` at byte position `i`.
pub open spec fn occurs_at(hay: Seq<u8>, needle: Seq<u8>, i: int) -> bool {
    0 <= i && i + needle.len() <= hay.len() && hay.subrange(i, i + needle.len()) == needle
}

/// Byte position of the first occurrence of `needle` in `hay`.
///
/// Calls `str::find` with a string pattern, documented as returning the byte index of
/// the first match or `None`. A match of one UTF-8 string in another starts at a
/// character boundary, so the first match is the first position at which the needle's
/// bytes occur.
#[verifier::external_body]
pub(crate) fn str_find(hay: &str, needle: &str) -> (r: Option<usize>)
    ensures
        match r {
            Some(i) => occurs_at(encode_utf8(hay@), encode_utf8(needle@), i as int) && forall|
                j: int,
            | 0 <= j < i ==> !occurs_at(encode_utf8(hay@), encode_utf8(needle@), j),
            None => forall|j: int| !occurs_at(encode_utf8(hay@), encode_utf8(needle@), j),
        },
{
    hay.find(needle)
}

} // verus!
