//! Small verified helpers on strings and characters: whitespace and
//! header-value character tests, string equality, decimal digits.

use vstd::prelude::*;
use vstd::string::StrSliceExecFns;
use vstd::string::StringExecFns;

verus! {

/// Relies on String::push: appends exactly one character at the end.
#[verifier::external_body]
pub fn push_char(s: &mut String, c: char)
    ensures
        final(s)@ == old(s)@.push(c),
{
    s.push(c);
}

/// String equality decided by content, stated over the views.
pub fn str_eq(a: &str, b: &str) -> (r: bool)
    ensures
        r == (a@ == b@),
{
    let sa: String = a.to_owned();
    let sb: String = b.to_owned();
    sa == sb
}

/// The characters that Rust's `char::is_whitespace` accepts
/// (the Unicode `White_Space` property).
pub open spec fn spec_is_space(c: char) -> bool {
    ||| c == ' '
    ||| c == '\t'
    ||| c == '\n'
    ||| c == '\u{0B}'
    ||| c == '\u{0C}'
    ||| c == '\r'
    ||| c == '\u{85}'
    ||| c == '\u{A0}'
    ||| c == '\u{1680}'
    ||| ('\u{2000}' <= c && c <= '\u{200A}')
    ||| c == '\u{2028}'
    ||| c == '\u{2029}'
    ||| c == '\u{202F}'
    ||| c == '\u{205F}'
    ||| c == '\u{3000}'
}

pub fn is_space(c: char) -> (r: bool)
    ensures
        r == spec_is_space(c),
{
    c == ' ' || c == '\t' || c == '\n' || c == '\u{0B}' || c == '\u{0C}' || c == '\r'
        || c == '\u{85}' || c == '\u{A0}' || c == '\u{1680}'
        || ('\u{2000}' <= c && c <= '\u{200A}') || c == '\u{2028}' || c == '\u{2029}'
        || c == '\u{202F}' || c == '\u{205F}' || c == '\u{3000}'
}

/// A string is blank when every character is whitespace; the empty
/// string is blank.
pub open spec fn spec_is_blank(s: Seq<char>) -> bool {
    forall|i: int| 0 <= i < s.len() ==> spec_is_space(s[i])
}

pub fn is_blank(s: &str) -> (r: bool)
    ensures
        r == spec_is_blank(s@),
{
    let n = s.unicode_len();
    let mut i: usize = 0;
    while i < n
        invariant
            n == s@.len(),
            0 <= i <= n,
            forall|j: int| 0 <= j < i ==> spec_is_space(s@[j]),
        decreases n - i,
    {
        let c = s.get_char(i);
        if !is_space(c) {
            return false;
        }
        i = i + 1;
    }
    true
}

/// A character legal inside an HTTP header value: horizontal tab or a
/// visible ASCII character including space. Every byte of such a string
/// passes the transport's own header-value check.
pub open spec fn spec_is_header_value_char(c: char) -> bool {
    c == '\t' || (' ' <= c && c <= '~')
}

/// A string usable as an HTTP header value.
pub open spec fn spec_is_header_value(s: Seq<char>) -> bool {
    forall|i: int| 0 <= i < s.len() ==> spec_is_header_value_char(s[i])
}

pub fn is_header_value(s: &str) -> (r: bool)
    ensures
        r == spec_is_header_value(s@),
{
    let n = s.unicode_len();
    let mut i: usize = 0;
    while i < n
        invariant
            n == s@.len(),
            0 <= i <= n,
            forall|j: int| 0 <= j < i ==> spec_is_header_value_char(s@[j]),
        decreases n - i,
    {
        let c = s.get_char(i);
        if !(c == '\t' || (' ' <= c && c <= '~')) {
            return false;
        }
        i = i + 1;
    }
    true
}

/// Whether a character is a decimal digit.
pub open spec fn spec_is_digit(c: char) -> bool {
    '0' <= c && c <= '9'
}

pub fn is_digit(c: char) -> (r: bool)
    ensures
        r == spec_is_digit(c),
{
    '0' <= c && c <= '9'
}

/// The character for one decimal digit.
pub open spec fn digit_char(d: int) -> char
    recommends
        0 <= d <= 9,
{
    if d == 0 { '0' }
    else if d == 1 { '1' }
    else if d == 2 { '2' }
    else if d == 3 { '3' }
    else if d == 4 { '4' }
    else if d == 5 { '5' }
    else if d == 6 { '6' }
    else if d == 7 { '7' }
    else if d == 8 { '8' }
    else { '9' }
}

/// The numeric value of a decimal digit character.
pub open spec fn digit_val(c: char) -> int {
    c as int - '0' as int
}

pub proof fn lemma_digit_char_val(d: int)
    requires
        0 <= d <= 9,
    ensures
        spec_is_digit(digit_char(d)),
        digit_val(digit_char(d)) == d,
{
}

pub fn digit_to_char(d: u32) -> (c: char)
    requires
        d <= 9,
    ensures
        c == digit_char(d as int),
{
    match d {
        0 => '0',
        1 => '1',
        2 => '2',
        3 => '3',
        4 => '4',
        5 => '5',
        6 => '6',
        7 => '7',
        8 => '8',
        _ => '9',
    }
}

pub fn char_to_digit(c: char) -> (d: u32)
    requires
        spec_is_digit(c),
    ensures
        d == digit_val(c),
        d <= 9,
{
    (c as u32) - 48
}

/// Appends the two decimal digits of a value below 100, high digit first.
pub fn push_two_digits(s: &mut String, n: u32)
    requires
        n < 100,
    ensures
        final(s)@ == old(s)@ + seq![digit_char(n as int / 10), digit_char(n as int % 10)],
{
    let hi = n / 10;
    let lo = n % 10;
    push_char(s, digit_to_char(hi));
    push_char(s, digit_to_char(lo));
    assert(s@ =~= old(s)@ + seq![digit_char(n as int / 10), digit_char(n as int % 10)]);
}

/// Appends the four decimal digits of a value below 10000, high digit first.
pub fn push_four_digits(s: &mut String, n: u32)
    requires
        n < 10000,
    ensures
        final(s)@ == old(s)@ + seq![
            digit_char(n as int / 1000),
            digit_char((n as int % 1000) / 100),
            digit_char((n as int % 100) / 10),
            digit_char(n as int % 10),
        ],
{
    push_char(s, digit_to_char(n / 1000));
    push_char(s, digit_to_char((n % 1000) / 100));
    push_char(s, digit_to_char((n % 100) / 10));
    push_char(s, digit_to_char(n % 10));
    assert(s@ =~= old(s)@ + seq![
        digit_char(n as int / 1000),
        digit_char((n as int % 1000) / 100),
        digit_char((n as int % 100) / 10),
        digit_char(n as int % 10),
    ]);
}

/// The decimal digits of a non-negative number, high digit first.
pub open spec fn spec_u64_dec(n: int) -> Seq<char>
    recommends
        n >= 0,
    decreases n,
{
    if n < 10 {
        seq![digit_char(n)]
    } else {
        spec_u64_dec(n / 10).push(digit_char(n % 10))
    }
}

/// The decimal spelling of a signed number: a minus sign and the digits
/// of the magnitude, or just the digits.
pub open spec fn spec_i64_dec(n: int) -> Seq<char> {
    if n < 0 {
        seq!['-'] + spec_u64_dec(-n)
    } else {
        spec_u64_dec(n)
    }
}

pub fn push_u64_dec(s: &mut String, n: u64)
    ensures
        final(s)@ == old(s)@ + spec_u64_dec(n as int),
    decreases n,
{
    if n < 10 {
        push_char(s, digit_to_char(n as u32));
        assert(s@ =~= old(s)@ + spec_u64_dec(n as int));
    } else {
        push_u64_dec(s, n / 10);
        push_char(s, digit_to_char((n % 10) as u32));
        assert(s@ =~= old(s)@ + spec_u64_dec(n as int));
    }
}

/// The decimal spelling of a signed number.
pub fn i64_to_string(n: i64) -> (r: String)
    ensures
        r@ == spec_i64_dec(n as int),
{
    let mut s = String::new();
    if n >= 0 {
        push_u64_dec(&mut s, n as u64);
        assert(s@ =~= spec_i64_dec(n as int));
    } else {
        push_char(&mut s, '-');
        let m: u64 = if n == i64::MIN {
            9223372036854775808u64
        } else {
            (-n) as u64
        };
        assert(m == -(n as int));
        push_u64_dec(&mut s, m);
        assert(s@ =~= spec_i64_dec(n as int));
    }
    s
}

/// The spelling of a boolean in a query string.
pub open spec fn spec_bool_str(b: bool) -> Seq<char> {
    if b {
        "true"@
    } else {
        "false"@
    }
}

pub fn bool_to_string(b: bool) -> (r: String)
    ensures
        r@ == spec_bool_str(b),
{
    if b {
        "true".to_owned()
    } else {
        "false".to_owned()
    }
}

} // verus!
