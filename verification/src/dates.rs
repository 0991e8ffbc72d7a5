//! Strict parsing and rendering of dates in the `YYYY-MM-DD` shape used by
//! the due-date field.

use vstd::prelude::*;

use crate::models::{spec_days_in_month, spec_is_leap_year, valid_ymd, Date};
use crate::text::{digit_char, digit_val, digit_to_char, is_digit, is_digit_char};

verus! {

/// What the due-date text parses to: `Some` exactly for a ten-character
/// `YYYY-MM-DD` string that names a real calendar date, `None` otherwise.
pub open spec fn spec_parse_date(s: Seq<char>) -> Option<Date> {
    if s.len() == 10 && is_digit(s[0]) && is_digit(s[1]) && is_digit(s[2]) && is_digit(s[3]) && s[4]
        == '-' && is_digit(s[5]) && is_digit(s[6]) && s[7] == '-' && is_digit(s[8]) && is_digit(
        s[9],
    ) {
        let y = digit_val(s[0]) * 1000 + digit_val(s[1]) * 100 + digit_val(s[2]) * 10 + digit_val(
            s[3],
        );
        let m = digit_val(s[5]) * 10 + digit_val(s[6]);
        let d = digit_val(s[8]) * 10 + digit_val(s[9]);
        if valid_ymd(y, m, d) {
            Some(Date { year: y as i32, month: m as u8, day: d as u8 })
        } else {
            None
        }
    } else {
        None
    }
}

/// Gregorian leap-year test for non-negative years.
pub fn is_leap_year(y: i32) -> (r: bool)
    requires
        y >= 0,
    ensures
        r == spec_is_leap_year(y as int),
{
    y % 4 == 0 && (y % 100 != 0 || y % 400 == 0)
}

/// Number of days in a month of a given non-negative year.
pub fn days_in_month(y: i32, m: i32) -> (r: i32)
    requires
        y >= 0,
    ensures
        r == spec_days_in_month(y as int, m as int),
{
    if m == 2 {
        if is_leap_year(y) {
            29
        } else {
            28
        }
    } else if m == 4 || m == 6 || m == 9 || m == 11 {
        30
    } else {
        31
    }
}

/// Parses a character buffer strictly as `YYYY-MM-DD`.
pub fn parse_date(v: &Vec<char>) -> (r: Option<Date>)
    ensures
        r == spec_parse_date(v@),
{
    if v.len() != 10 {
        return None;
    }
    if !(is_digit_char(v[0]) && is_digit_char(v[1]) && is_digit_char(v[2]) && is_digit_char(v[3])
        && v[4] == '-' && is_digit_char(v[5]) && is_digit_char(v[6]) && v[7] == '-'
        && is_digit_char(v[8]) && is_digit_char(v[9])) {
        return None;
    }
    let y: i32 = digit_value(v[0]) * 1000 + digit_value(v[1]) * 100 + digit_value(v[2]) * 10
        + digit_value(v[3]);
    let m: i32 = digit_value(v[5]) * 10 + digit_value(v[6]);
    let d: i32 = digit_value(v[8]) * 10 + digit_value(v[9]);
    if 1 <= m && m <= 12 && 1 <= d && d <= days_in_month(y, m) {
        Some(Date { year: y, month: m as u8, day: d as u8 })
    } else {
        None
    }
}

/// Numeric value of a digit character, as an executable step.
fn digit_value(c: char) -> (r: i32)
    requires
        is_digit(c),
    ensures
        r == digit_val(c),
        0 <= r <= 9,
{
    (c as u32 - 48) as i32
}

/// The ten-character `YYYY-MM-DD` rendering of a date.
pub open spec fn spec_format_date(d: Date) -> Seq<char> {
    let y = d.year as int;
    let m = d.month as int;
    let dd = d.day as int;
    seq![
        digit_char(y / 1000),
        digit_char(y / 100 % 10),
        digit_char(y / 10 % 10),
        digit_char(y % 10),
        '-',
        digit_char(m / 10),
        digit_char(m % 10),
        '-',
        digit_char(dd / 10),
        digit_char(dd % 10),
    ]
}

/// Renders a date as `YYYY-MM-DD` with zero padding.
pub fn format_date(d: &Date) -> (r: Vec<char>)
    requires
        d.wf(),
    ensures
        r@ == spec_format_date(*d),
{
    let y = d.year;
    let m = d.month as i32;
    let dd = d.day as i32;
    let mut r: Vec<char> = Vec::new();
    r.push(digit_to_char(y / 1000));
    r.push(digit_to_char(y / 100 % 10));
    r.push(digit_to_char(y / 10 % 10));
    r.push(digit_to_char(y % 10));
    r.push('-');
    r.push(digit_to_char(m / 10));
    r.push(digit_to_char(m % 10));
    r.push('-');
    r.push(digit_to_char(dd / 10));
    r.push(digit_to_char(dd % 10));
    proof {
        assert(r@ =~= spec_format_date(*d));
    }
    r
}

/// A parsed date is a real calendar date with a four-digit year.
pub proof fn lemma_parse_date_wf(s: Seq<char>)
    ensures
        spec_parse_date(s) matches Some(d) ==> d.wf(),
{
}

/// Rendering a date and parsing it back returns the same date: the round
/// trip behind pre-filling the due-date field from a stored task.
pub proof fn lemma_format_parse_roundtrip(d: Date)
    requires
        d.wf(),
    ensures
        spec_parse_date(spec_format_date(d)) == Some(d),
{
    let s = spec_format_date(d);
    let y = d.year as int;
    let m = d.month as int;
    let dd = d.day as int;
    assert(0 <= y <= 9999 && 1 <= m <= 12 && 1 <= dd <= 31);
    assert(forall|x: int| 0 <= x <= 9 ==> is_digit(#[trigger] digit_char(x)) && digit_val(
        digit_char(x),
    ) == x);
    assert(digit_val(s[0]) * 1000 + digit_val(s[1]) * 100 + digit_val(s[2]) * 10 + digit_val(s[3])
        == y);
    assert(digit_val(s[5]) * 10 + digit_val(s[6]) == m);
    assert(digit_val(s[8]) * 10 + digit_val(s[9]) == dd);
}

} // verus!
