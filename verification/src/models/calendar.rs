//! Calendar dates in the canonical `YYYY-MM-DD` form.
//!
//! A date is carried as text. This module says which texts are dates, and
//! gives each date an integer key that orders dates chronologically.

use vstd::prelude::*;
use vstd::string::*;

verus! {

/// Whether `c` is one of the ten ASCII decimal digits.
pub open spec fn is_digit(c: char) -> bool {
    '0' <= c <= '9'
}

/// The number that the decimal digit `c` stands for.
pub open spec fn digit_value(c: char) -> int {
    c as int - '0' as int
}

/// Whether `s` has the shape `dddd-dd-dd`, where each `d` is a decimal digit.
pub open spec fn has_date_shape(s: Seq<char>) -> bool {
    &&& s.len() == 10
    &&& is_digit(s[0])
    &&& is_digit(s[1])
    &&& is_digit(s[2])
    &&& is_digit(s[3])
    &&& s[4] == '-'
    &&& is_digit(s[5])
    &&& is_digit(s[6])
    &&& s[7] == '-'
    &&& is_digit(s[8])
    &&& is_digit(s[9])
}

/// The number written by the two digits of `s` at `at` and `at + 1`.
pub open spec fn pair_value(s: Seq<char>, at: int) -> int {
    10 * digit_value(s[at]) + digit_value(s[at + 1])
}

/// The year written in the first four characters of `s`.
pub open spec fn year_of(s: Seq<char>) -> int {
    100 * pair_value(s, 0) + pair_value(s, 2)
}

/// The month written in the two characters after the first hyphen.
pub open spec fn month_of(s: Seq<char>) -> int {
    pair_value(s, 5)
}

/// The day of the month written in the last two characters of `s`.
pub open spec fn day_of(s: Seq<char>) -> int {
    pair_value(s, 8)
}

/// Whether `year` is a leap year of the proleptic Gregorian calendar.
pub open spec fn is_leap_year(year: int) -> bool {
    year % 4 == 0 && (year % 100 != 0 || year % 400 == 0)
}

/// The number of days that month `month` (1 to 12) has in `year`.
pub open spec fn days_in_month(year: int, month: int) -> int {
    if month == 2 {
        if is_leap_year(year) {
            29
        } else {
            28
        }
    } else if month == 4 || month == 6 || month == 9 || month == 11 {
        30
    } else {
        31
    }
}

/// Whether `s` is a calendar date: it has the shape `YYYY-MM-DD`, its month
/// lies between 1 and 12, and its day exists in that month of that year.
pub open spec fn is_calendar_date(s: Seq<char>) -> bool {
    &&& has_date_shape(s)
    &&& 1 <= month_of(s) <= 12
    &&& 1 <= day_of(s) <= days_in_month(year_of(s), month_of(s))
}

/// The integer `YYYYMMDD` of a date. Among calendar dates a smaller key is an
/// earlier day.
pub open spec fn date_key(s: Seq<char>) -> int {
    year_of(s) * 10000 + month_of(s) * 100 + day_of(s)
}

/// Whether date `a` is chronologically before date `b`: an earlier year, or
/// the same year and an earlier month, or the same month and an earlier day.
pub open spec fn is_earlier(a: Seq<char>, b: Seq<char>) -> bool {
    ||| year_of(a) < year_of(b)
    ||| year_of(a) == year_of(b) && month_of(a) < month_of(b)
    ||| year_of(a) == year_of(b) && month_of(a) == month_of(b) && day_of(a) < day_of(b)
}

/// Whether text `a` sorts before text `b` character by character. The two
/// are compared as texts of the same length.
pub open spec fn sorts_before(a: Seq<char>, b: Seq<char>) -> bool {
    exists|i: int|
        0 <= i < a.len() && i < b.len() && a[i] < b[i] && (forall|j: int|
            0 <= j < i ==> a[j] == b[j])
}

/// The value of a decimal digit, or `None` for any other character.
fn digit_of(c: char) -> (digit: Option<u32>)
    ensures
        digit is Some <==> is_digit(c),
        digit matches Some(d) ==> d as int == digit_value(c) && d <= 9,
{
    if '0' <= c && c <= '9' {
        Some(c as u32 - '0' as u32)
    } else {
        None
    }
}

/// Reads the two digits of `text` at `at` and `at + 1` as one number.
fn two_digits(text: &str, at: usize) -> (number: Option<u32>)
    requires
        at + 1 < text@.len(),
        at < 10,
    ensures
        number is Some <==> is_digit(text@[at as int]) && is_digit(text@[at + 1]),
        number matches Some(n) ==> n as int == pair_value(text@, at as int) && n <= 99,
{
    match (digit_of(text.get_char(at)), digit_of(text.get_char(at + 1))) {
        (Some(tens), Some(ones)) => Some(tens * 10 + ones),
        _ => None,
    }
}

/// The number of days in a month, computed.
fn month_length(year: u32, month: u32) -> (days: u32)
    requires
        1 <= month <= 12,
    ensures
        days as int == days_in_month(year as int, month as int),
{
    if month == 2 {
        if year % 4 == 0 && (year % 100 != 0 || year % 400 == 0) {
            29
        } else {
            28
        }
    } else if month == 4 || month == 6 || month == 9 || month == 11 {
        30
    } else {
        31
    }
}

/// Checks that `text` is a calendar date and gives its key.
///
/// Returns `Some` exactly for the calendar dates, with the key `YYYYMMDD`.
pub fn date_key_of(text: &str) -> (key: Option<u32>)
    ensures
        key is Some <==> is_calendar_date(text@),
        key matches Some(k) ==> k as int == date_key(text@),
{
    if text.unicode_len() != 10 {
        return None;
    }
    if text.get_char(4) != '-' || text.get_char(7) != '-' {
        return None;
    }
    match (two_digits(text, 0), two_digits(text, 2), two_digits(text, 5), two_digits(text, 8)) {
        (Some(century), Some(years), Some(month), Some(day)) => {
            let year: u32 = century * 100 + years;
            if month < 1 || month > 12 {
                return None;
            }
            if day < 1 || day > month_length(year, month) {
                return None;
            }
            Some(year * 10000 + month * 100 + day)
        },
        _ => None,
    }
}

/// Whether `text` is a calendar date.
pub fn is_valid_date(text: &str) -> (valid: bool)
    ensures
        valid == is_calendar_date(text@),
{
    date_key_of(text).is_some()
}

/// Two calendar dates with the same key are the same text.
pub proof fn lemma_key_names_one_date(a: Seq<char>, b: Seq<char>)
    requires
        is_calendar_date(a),
        is_calendar_date(b),
        date_key(a) == date_key(b),
    ensures
        a == b,
{
    assert(year_of(a) == year_of(b));
    assert(month_of(a) == month_of(b));
    assert(day_of(a) == day_of(b));
    assert(pair_value(a, 0) == pair_value(b, 0));
    assert(pair_value(a, 2) == pair_value(b, 2));
    assert forall|i: int| 0 <= i < 10 implies a[i] == b[i] by {
        assert(digit_value(a[0]) == digit_value(b[0]));
        assert(digit_value(a[2]) == digit_value(b[2]));
        assert(digit_value(a[5]) == digit_value(b[5]));
        assert(digit_value(a[8]) == digit_value(b[8]));
    }
    assert(a =~= b);
}

/// Among calendar dates the key orders as the calendar does: a smaller key
/// is an earlier day, and an earlier day has a smaller key.
pub proof fn law_key_order_is_calendar_order(a: Seq<char>, b: Seq<char>)
    requires
        is_calendar_date(a),
        is_calendar_date(b),
    ensures
        date_key(a) < date_key(b) <==> is_earlier(a, b),
{
}

/// Among calendar dates the key orders as the texts sort: a date with a
/// smaller key sorts before, character by character, and a date that sorts
/// before has a smaller key. So a store that compares the dates as texts
/// and one that compares them as days agree.
pub proof fn law_key_order_is_text_order(a: Seq<char>, b: Seq<char>)
    requires
        is_calendar_date(a),
        is_calendar_date(b),
    ensures
        date_key(a) < date_key(b) <==> sorts_before(a, b),
{
    if date_key(a) < date_key(b) {
        let at = if a[0] != b[0] {
            0int
        } else if a[1] != b[1] {
            1int
        } else if a[2] != b[2] {
            2int
        } else if a[3] != b[3] {
            3int
        } else if a[5] != b[5] {
            5int
        } else if a[6] != b[6] {
            6int
        } else if a[8] != b[8] {
            8int
        } else {
            9int
        };
        assert(a[at] < b[at]);
        assert(forall|j: int| 0 <= j < at ==> a[j] == b[j]);
    }
    if sorts_before(a, b) {
        let at = choose|i: int|
            0 <= i < a.len() && i < b.len() && a[i] < b[i] && (forall|j: int|
                0 <= j < i ==> a[j] == b[j]);
        assert(at != 4 && at != 7);
        assert(forall|j: int| 0 <= j < at ==> digit_value(a[j]) == digit_value(b[j]));
        assert(digit_value(a[at]) < digit_value(b[at]));
        if at == 0 {
        } else if at == 1 {
            assert(a[0] == b[0]);
        } else if at == 2 {
            assert(a[0] == b[0] && a[1] == b[1]);
        } else if at == 3 {
            assert(a[0] == b[0] && a[1] == b[1] && a[2] == b[2]);
        } else if at == 5 {
            assert(a[0] == b[0] && a[1] == b[1] && a[2] == b[2] && a[3] == b[3]);
        } else if at == 6 {
            assert(a[0] == b[0] && a[1] == b[1] && a[2] == b[2] && a[3] == b[3] && a[5] == b[5]);
        } else if at == 8 {
            assert(a[0] == b[0] && a[1] == b[1] && a[2] == b[2] && a[3] == b[3] && a[5] == b[5]
                && a[6] == b[6]);
        } else {
            assert(at == 9);
            assert(a[0] == b[0] && a[1] == b[1] && a[2] == b[2] && a[3] == b[3] && a[5] == b[5]
                && a[6] == b[6] && a[8] == b[8]);
        }
    }
}

} // verus!
