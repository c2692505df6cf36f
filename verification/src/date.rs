//! Calendar dates and UTC timestamps as plain values, with the two wire
//! encodings the query parameters and response bodies use: RFC 3339
//! combined date-and-time with a zero offset, and `YYYY-MM-DD`.

use vstd::prelude::*;
use vstd::string::StrSliceExecFns;
use crate::strutil::{
    digit_char, digit_val, spec_is_digit, is_digit, char_to_digit, push_char, push_two_digits,
    push_four_digits, lemma_digit_char_val,
};

verus! {

/// A calendar date with no time component.
#[derive(Debug, Clone, Copy, PartialEq, Eq, Hash, Structural)]
pub struct PlainDate {
    pub year: u32,
    pub month: u32,
    pub day: u32,
}

/// A second-precision instant in UTC.
#[derive(Debug, Clone, Copy, PartialEq, Eq, Hash, Structural)]
pub struct UtcTimestamp {
    pub date: PlainDate,
    pub hour: u32,
    pub minute: u32,
    pub second: u32,
}

pub open spec fn spec_is_leap_year(y: int) -> bool {
    y % 4 == 0 && (y % 100 != 0 || y % 400 == 0)
}

pub open spec fn spec_days_in_month(y: int, m: int) -> int {
    if m == 2 {
        if spec_is_leap_year(y) {
            29
        } else {
            28
        }
    } else if m == 4 || m == 6 || m == 9 || m == 11 {
        30
    } else {
        31
    }
}

pub fn days_in_month(y: u32, m: u32) -> (r: u32)
    ensures
        r == spec_days_in_month(y as int, m as int),
{
    if m == 2 {
        if y % 4 == 0 && (y % 100 != 0 || y % 400 == 0) {
            29
        } else {
            28
        }
    } else if m == 4 || m == 6 || m == 9 || m == 11 {
        30
    } else {
        31
    }
}

impl PlainDate {
    /// A real calendar date whose year has four decimal digits.
    pub open spec fn wf(self) -> bool {
        &&& 1 <= self.year <= 9999
        &&& 1 <= self.month <= 12
        &&& 1 <= self.day <= spec_days_in_month(self.year as int, self.month as int)
    }

    pub fn check_wf(&self) -> (r: bool)
        ensures
            r == self.wf(),
    {
        1 <= self.year && self.year <= 9999 && 1 <= self.month && self.month <= 12
            && 1 <= self.day && self.day <= days_in_month(self.year, self.month)
    }
}

impl UtcTimestamp {
    pub open spec fn wf(self) -> bool {
        &&& self.date.wf()
        &&& self.hour <= 23
        &&& self.minute <= 59
        &&& self.second <= 59
    }

    pub fn check_wf(&self) -> (r: bool)
        ensures
            r == self.wf(),
    {
        self.date.check_wf() && self.hour <= 23 && self.minute <= 59 && self.second <= 59
    }
}

/// The ten characters of a date in `YYYY-MM-DD` form.
pub open spec fn spec_date_chars(d: PlainDate) -> Seq<char> {
    seq![
        digit_char(d.year as int / 1000),
        digit_char((d.year as int % 1000) / 100),
        digit_char((d.year as int % 100) / 10),
        digit_char(d.year as int % 10),
        '-',
        digit_char(d.month as int / 10),
        digit_char(d.month as int % 10),
        '-',
        digit_char(d.day as int / 10),
        digit_char(d.day as int % 10),
    ]
}

/// The twenty-five characters of a timestamp in RFC 3339 form with an
/// explicit zero offset, `YYYY-MM-DDTHH:MM:SS+00:00`.
pub open spec fn spec_rfc3339_chars(t: UtcTimestamp) -> Seq<char> {
    spec_date_chars(t.date) + seq![
        'T',
        digit_char(t.hour as int / 10),
        digit_char(t.hour as int % 10),
        ':',
        digit_char(t.minute as int / 10),
        digit_char(t.minute as int % 10),
        ':',
        digit_char(t.second as int / 10),
        digit_char(t.second as int % 10),
        '+',
        '0',
        '0',
        ':',
        '0',
        '0',
    ]
}

/// Encodes a date as `YYYY-MM-DD`.
pub fn encode_date(d: &PlainDate) -> (r: String)
    requires
        d.wf(),
    ensures
        r@ == spec_date_chars(*d),
{
    let mut s = String::new();
    push_four_digits(&mut s, d.year);
    push_char(&mut s, '-');
    push_two_digits(&mut s, d.month);
    push_char(&mut s, '-');
    push_two_digits(&mut s, d.day);
    assert(s@ =~= spec_date_chars(*d));
    s
}

/// Encodes a timestamp as RFC 3339 with a zero offset.
pub fn encode_rfc3339(t: &UtcTimestamp) -> (r: String)
    requires
        t.wf(),
    ensures
        r@ == spec_rfc3339_chars(*t),
{
    let mut s = encode_date(&t.date);
    push_char(&mut s, 'T');
    push_two_digits(&mut s, t.hour);
    push_char(&mut s, ':');
    push_two_digits(&mut s, t.minute);
    push_char(&mut s, ':');
    push_two_digits(&mut s, t.second);
    push_char(&mut s, '+');
    push_char(&mut s, '0');
    push_char(&mut s, '0');
    push_char(&mut s, ':');
    push_char(&mut s, '0');
    push_char(&mut s, '0');
    assert(s@ =~= spec_rfc3339_chars(*t));
    s
}

/// Whether ten characters starting at `off` look like `YYYY-MM-DD`.
pub open spec fn spec_date_shape(s: Seq<char>, off: int) -> bool {
    &&& spec_is_digit(s[off])
    &&& spec_is_digit(s[off + 1])
    &&& spec_is_digit(s[off + 2])
    &&& spec_is_digit(s[off + 3])
    &&& s[off + 4] == '-'
    &&& spec_is_digit(s[off + 5])
    &&& spec_is_digit(s[off + 6])
    &&& s[off + 7] == '-'
    &&& spec_is_digit(s[off + 8])
    &&& spec_is_digit(s[off + 9])
}

/// The date the ten characters at `off` denote.
pub open spec fn spec_date_at(s: Seq<char>, off: int) -> PlainDate {
    PlainDate {
        year: (digit_val(s[off]) * 1000 + digit_val(s[off + 1]) * 100 + digit_val(s[off + 2]) * 10
            + digit_val(s[off + 3])) as u32,
        month: (digit_val(s[off + 5]) * 10 + digit_val(s[off + 6])) as u32,
        day: (digit_val(s[off + 8]) * 10 + digit_val(s[off + 9])) as u32,
    }
}

/// Decoding of `YYYY-MM-DD`: defined exactly on strings of that shape
/// that denote a real calendar date.
pub open spec fn spec_parse_date(s: Seq<char>) -> Option<PlainDate> {
    if s.len() == 10 && spec_date_shape(s, 0) && spec_date_at(s, 0).wf() {
        Some(spec_date_at(s, 0))
    } else {
        None
    }
}

fn read_date_at(s: &str, off: usize) -> (r: Option<PlainDate>)
    requires
        off + 10 <= s@.len(),
        s@.len() <= usize::MAX,
    ensures
        r matches Some(d) ==> spec_date_shape(s@, off as int) && d == spec_date_at(s@, off as int)
            && d.wf(),
        r is None ==> !(spec_date_shape(s@, off as int) && spec_date_at(s@, off as int).wf()),
{
    let c0 = s.get_char(off);
    let c1 = s.get_char(off + 1);
    let c2 = s.get_char(off + 2);
    let c3 = s.get_char(off + 3);
    let c4 = s.get_char(off + 4);
    let c5 = s.get_char(off + 5);
    let c6 = s.get_char(off + 6);
    let c7 = s.get_char(off + 7);
    let c8 = s.get_char(off + 8);
    let c9 = s.get_char(off + 9);
    if !(is_digit(c0) && is_digit(c1) && is_digit(c2) && is_digit(c3) && c4 == '-' && is_digit(c5)
        && is_digit(c6) && c7 == '-' && is_digit(c8) && is_digit(c9)) {
        return None;
    }
    let year = char_to_digit(c0) * 1000 + char_to_digit(c1) * 100 + char_to_digit(c2) * 10
        + char_to_digit(c3);
    let month = char_to_digit(c5) * 10 + char_to_digit(c6);
    let day = char_to_digit(c8) * 10 + char_to_digit(c9);
    let d = PlainDate { year, month, day };
    if d.check_wf() {
        Some(d)
    } else {
        None
    }
}

/// Decodes a date from `YYYY-MM-DD`.
pub fn parse_date(s: &str) -> (r: Option<PlainDate>)
    ensures
        r == spec_parse_date(s@),
{
    let n = s.unicode_len();
    if n != 10 {
        return None;
    }
    read_date_at(s, 0)
}

/// Decoding of RFC 3339 at second precision and zero offset: the
/// nineteen-character date-and-time pattern followed by `Z` or `+00:00`,
/// denoting a real calendar date and time of day.
pub open spec fn spec_time_shape(s: Seq<char>) -> bool {
    &&& s.len() >= 19
    &&& spec_date_shape(s, 0)
    &&& s[10] == 'T'
    &&& spec_is_digit(s[11])
    &&& spec_is_digit(s[12])
    &&& s[13] == ':'
    &&& spec_is_digit(s[14])
    &&& spec_is_digit(s[15])
    &&& s[16] == ':'
    &&& spec_is_digit(s[17])
    &&& spec_is_digit(s[18])
}

/// The index of the first non-digit at or after `i`.
pub open spec fn spec_digits_end(s: Seq<char>, i: int) -> int
    recommends
        0 <= i <= s.len(),
    decreases s.len() - i,
        when 0 <= i <= s.len()
{
    if i < s.len() && spec_is_digit(s[i]) {
        spec_digits_end(s, i + 1)
    } else {
        i
    }
}

/// A zone designator filling the rest of the string from `j`: `Z` or
/// `+00:00`.
pub open spec fn spec_zone_at(s: Seq<char>, j: int) -> bool {
    ||| (s.len() == j + 1 && s[j] == 'Z')
    ||| (s.len() == j + 6 && s[j] == '+' && s[j + 1] == '0' && s[j + 2] == '0' && s[j + 3] == ':'
        && s[j + 4] == '0' && s[j + 5] == '0')
}

/// The zone part after the nineteen date-and-time characters: the
/// designator directly, or a fraction of a second (a point and at least
/// one digit, ignored at this precision) and then the designator.
pub open spec fn spec_zone_shape(s: Seq<char>) -> bool {
    ||| spec_zone_at(s, 19)
    ||| (s.len() > 20 && s[19] == '.' && spec_is_digit(s[20]) && spec_zone_at(
        s,
        spec_digits_end(s, 20),
    ))
}

pub open spec fn spec_ts_at(s: Seq<char>) -> UtcTimestamp {
    UtcTimestamp {
        date: spec_date_at(s, 0),
        hour: (digit_val(s[11]) * 10 + digit_val(s[12])) as u32,
        minute: (digit_val(s[14]) * 10 + digit_val(s[15])) as u32,
        second: (digit_val(s[17]) * 10 + digit_val(s[18])) as u32,
    }
}

pub open spec fn spec_parse_rfc3339(s: Seq<char>) -> Option<UtcTimestamp> {
    if spec_time_shape(s) && spec_zone_shape(s) && spec_ts_at(s).wf() {
        Some(spec_ts_at(s))
    } else {
        None
    }
}

/// Decodes a timestamp from RFC 3339 at second precision, with the zone
/// given as `Z` or `+00:00`.
fn digits_end_from(s: &str, start: usize) -> (i: usize)
    requires
        start <= s@.len(),
        s@.len() <= usize::MAX,
    ensures
        start <= i <= s@.len(),
        forall|k: int| start <= k < i ==> spec_is_digit(s@[k]),
        i < s@.len() ==> !spec_is_digit(s@[i as int]),
{
    let n = s.unicode_len();
    let mut i: usize = start;
    while i < n
        invariant
            n == s@.len(),
            start <= i <= n,
            forall|k: int| start <= k < i ==> spec_is_digit(s@[k]),
        decreases n - i,
    {
        if !is_digit(s.get_char(i)) {
            return i;
        }
        i = i + 1;
    }
    i
}

proof fn lemma_digits_end(s: Seq<char>, a: int, i: int)
    requires
        0 <= a <= i <= s.len(),
        forall|k: int| a <= k < i ==> spec_is_digit(s[k]),
        i < s.len() ==> !spec_is_digit(s[i]),
    ensures
        spec_digits_end(s, a) == i,
    decreases i - a,
{
    if a < i {
        lemma_digits_end(s, a + 1, i);
    }
}

fn check_zone_at(s: &str, j: usize) -> (r: bool)
    requires
        j <= s@.len(),
        s@.len() <= usize::MAX,
    ensures
        r == spec_zone_at(s@, j as int),
{
    let n = s.unicode_len();
    if j >= n {
        return false;
    }
    let rest = n - j;
    if rest == 1 {
        s.get_char(j) == 'Z'
    } else if rest == 6 {
        s.get_char(j) == '+' && s.get_char(j + 1) == '0' && s.get_char(j + 2) == '0' && s.get_char(
            j + 3,
        ) == ':' && s.get_char(j + 4) == '0' && s.get_char(j + 5) == '0'
    } else {
        false
    }
}

pub fn parse_rfc3339(s: &str) -> (r: Option<UtcTimestamp>)
    ensures
        r == spec_parse_rfc3339(s@),
{
    let n = s.unicode_len();
    if n < 20 {
        return None;
    }
    if s.get_char(19) == '.' {
        if !(20 < n && is_digit(s.get_char(20))) {
            return None;
        }
        let j = digits_end_from(s, 20);
        proof {
            lemma_digits_end(s@, 20, j as int);
        }
        if !check_zone_at(s, j) {
            return None;
        }
    } else {
        if !check_zone_at(s, 19) {
            return None;
        }
    }
    let date = match read_date_at(s, 0) {
        Some(d) => d,
        None => {
            return None;
        },
    };
    let c10 = s.get_char(10);
    let c11 = s.get_char(11);
    let c12 = s.get_char(12);
    let c13 = s.get_char(13);
    let c14 = s.get_char(14);
    let c15 = s.get_char(15);
    let c16 = s.get_char(16);
    let c17 = s.get_char(17);
    let c18 = s.get_char(18);
    if !(c10 == 'T' && is_digit(c11) && is_digit(c12) && c13 == ':' && is_digit(c14) && is_digit(
        c15,
    ) && c16 == ':' && is_digit(c17) && is_digit(c18)) {
        return None;
    }
    let hour = char_to_digit(c11) * 10 + char_to_digit(c12);
    let minute = char_to_digit(c14) * 10 + char_to_digit(c15);
    let second = char_to_digit(c17) * 10 + char_to_digit(c18);
    let t = UtcTimestamp { date, hour, minute, second };
    if hour <= 23 && minute <= 59 && second <= 59 {
        Some(t)
    } else {
        None
    }
}

proof fn lemma_two_digit_split(n: int)
    requires
        0 <= n < 100,
    ensures
        (n / 10) * 10 + n % 10 == n,
        0 <= n / 10 <= 9,
        0 <= n % 10 <= 9,
{
}

proof fn lemma_four_digit_split(n: int)
    requires
        0 <= n < 10000,
    ensures
        (n / 1000) * 1000 + ((n % 1000) / 100) * 100 + ((n % 100) / 10) * 10 + n % 10 == n,
        0 <= n / 1000 <= 9,
        0 <= (n % 1000) / 100 <= 9,
        0 <= (n % 100) / 10 <= 9,
        0 <= n % 10 <= 9,
{
    assert((n / 1000) * 1000 + ((n % 1000) / 100) * 100 + ((n % 100) / 10) * 10 + n % 10 == n)
        by (nonlinear_arith)
        requires
            0 <= n < 10000,
    ;
}

/// Encoding a date and decoding the result yields the date back.
pub proof fn lemma_date_round_trip(d: PlainDate)
    requires
        d.wf(),
    ensures
        spec_parse_date(spec_date_chars(d)) == Some(d),
{
    let s = spec_date_chars(d);
    lemma_four_digit_split(d.year as int);
    lemma_two_digit_split(d.month as int);
    lemma_two_digit_split(d.day as int);
    lemma_digit_char_val(d.year as int / 1000);
    lemma_digit_char_val((d.year as int % 1000) / 100);
    lemma_digit_char_val((d.year as int % 100) / 10);
    lemma_digit_char_val(d.year as int % 10);
    lemma_digit_char_val(d.month as int / 10);
    lemma_digit_char_val(d.month as int % 10);
    lemma_digit_char_val(d.day as int / 10);
    lemma_digit_char_val(d.day as int % 10);
    assert(spec_date_shape(s, 0));
    assert(spec_date_at(s, 0) == d);
}

/// Encoding a timestamp into RFC 3339 and decoding the result yields the
/// timestamp back.
pub proof fn lemma_rfc3339_round_trip(t: UtcTimestamp)
    requires
        t.wf(),
    ensures
        spec_parse_rfc3339(spec_rfc3339_chars(t)) == Some(t),
{
    let s = spec_rfc3339_chars(t);
    let sd = spec_date_chars(t.date);
    assert(s.len() == 25);
    assert forall|i: int| 0 <= i < 10 implies s[i] == sd[i] by {}
    lemma_four_digit_split(t.date.year as int);
    lemma_two_digit_split(t.date.month as int);
    lemma_two_digit_split(t.date.day as int);
    lemma_two_digit_split(t.hour as int);
    lemma_two_digit_split(t.minute as int);
    lemma_two_digit_split(t.second as int);
    lemma_digit_char_val(t.date.year as int / 1000);
    lemma_digit_char_val((t.date.year as int % 1000) / 100);
    lemma_digit_char_val((t.date.year as int % 100) / 10);
    lemma_digit_char_val(t.date.year as int % 10);
    lemma_digit_char_val(t.date.month as int / 10);
    lemma_digit_char_val(t.date.month as int % 10);
    lemma_digit_char_val(t.date.day as int / 10);
    lemma_digit_char_val(t.date.day as int % 10);
    lemma_digit_char_val(t.hour as int / 10);
    lemma_digit_char_val(t.hour as int % 10);
    lemma_digit_char_val(t.minute as int / 10);
    lemma_digit_char_val(t.minute as int % 10);
    lemma_digit_char_val(t.second as int / 10);
    lemma_digit_char_val(t.second as int % 10);
    assert(spec_time_shape(s));
    assert(spec_zone_at(s, 19));
    assert(spec_zone_shape(s));
    assert(spec_date_at(s, 0) == t.date);
    assert(spec_ts_at(s) == t);
}

} // verus!
