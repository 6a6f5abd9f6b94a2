//! A verified proleptic Gregorian calendar model: leap years, month lengths,
//! the calendar successor, and date rendering — together with the one trusted
//! item that parses a textual date through chrono.

use vstd::prelude::*;
use vstd::arithmetic::div_mod::lemma_mod_multiples_vanish;
use crate::text::{dec_digits, zero_pad, padded_u128_string};
use chrono::Datelike;

verus! {

// ---------------------------------------------------------------------------
// Calendar arithmetic
// ---------------------------------------------------------------------------

/// A leap year of the proleptic Gregorian calendar.
pub open spec fn is_leap_year(y: int) -> bool {
    y % 4 == 0 && (y % 100 != 0 || y % 400 == 0)
}

/// The number of days of month `m` in year `y`.
pub open spec fn days_in_month(y: int, m: int) -> int {
    if m == 2 {
        if is_leap_year(y) {
            29
        } else {
            28
        }
    } else if m == 4 || m == 6 || m == 9 || m == 11 {
        30
    } else {
        31
    }
}

/// A valid calendar date: the month exists and the day falls inside it.
pub open spec fn valid_ymd(y: int, m: int, d: int) -> bool {
    1 <= m <= 12 && 1 <= d <= days_in_month(y, m)
}

/// The first year that chrono's date type can represent.
pub open spec fn year_lower_bound() -> int {
    -262143
}

/// The last year that chrono's date type can represent.
pub open spec fn year_upper_bound() -> int {
    262142
}

/// Leap-year test over years in chrono's range.
pub fn leap_year(y: i32) -> (r: bool)
    requires
        year_lower_bound() <= y <= year_upper_bound() + 1,
    ensures
        r == is_leap_year(y as int),
{
    let shifted: u32 = (y + 262400) as u32;
    proof {
        lemma_mod_multiples_vanish(65600, y as int, 4);
        lemma_mod_multiples_vanish(2624, y as int, 100);
        lemma_mod_multiples_vanish(656, y as int, 400);
    }
    shifted % 4 == 0 && (shifted % 100 != 0 || shifted % 400 == 0)
}

/// The number of days of month `m` in year `y`.
pub fn month_days(y: i32, m: u8) -> (r: u8)
    requires
        year_lower_bound() <= y <= year_upper_bound() + 1,
        1 <= m <= 12,
    ensures
        r as int == days_in_month(y as int, m as int),
{
    if m == 2 {
        if leap_year(y) {
            29
        } else {
            28
        }
    } else if m == 4 || m == 6 || m == 9 || m == 11 {
        30
    } else {
        31
    }
}

/// The calendar day after a date, saturating at the last date that chrono can
/// represent — the behaviour of falling back to the parsed date itself when
/// chrono's successor does not exist.
pub open spec fn date_succ(y: int, m: int, d: int) -> (int, int, int) {
    if y == year_upper_bound() && m == 12 && d == 31 {
        (y, m, d)
    } else if d < days_in_month(y, m) {
        (y, m, d + 1)
    } else if m < 12 {
        (y, m + 1, 1)
    } else {
        (y + 1, 1, 1)
    }
}

/// Computes the calendar successor of a valid date.
pub fn next_date(y: i32, m: u8, d: u8) -> (r: (i32, u8, u8))
    requires
        year_lower_bound() <= y <= year_upper_bound(),
        valid_ymd(y as int, m as int, d as int),
    ensures
        (r.0 as int, r.1 as int, r.2 as int) == date_succ(y as int, m as int, d as int),
        valid_ymd(r.0 as int, r.1 as int, r.2 as int),
        year_lower_bound() <= r.0 <= year_upper_bound() + 1,
{
    if y == 262142 && m == 12 && d == 31 {
        (y, m, d)
    } else if d < month_days(y, m) {
        (y, m, d + 1)
    } else if m < 12 {
        (y, m + 1, 1)
    } else {
        (y + 1, 1, 1)
    }
}

// ---------------------------------------------------------------------------
// Date rendering
// ---------------------------------------------------------------------------

/// A year as chrono renders it: four zero-padded digits inside 0..=9999, and
/// an explicit sign with at least four digits outside that range.
pub open spec fn spec_year_str(y: int) -> Seq<char> {
    if 0 <= y <= 9999 {
        zero_pad(dec_digits(y), 4)
    } else if y > 9999 {
        seq!['+'] + zero_pad(dec_digits(y), 4)
    } else {
        seq!['-'] + zero_pad(dec_digits(-y), 4)
    }
}

/// A date in the `YYYY-MM-DD` shape that chrono's own rendering uses.
pub open spec fn spec_date_str(y: int, m: int, d: int) -> Seq<char> {
    spec_year_str(y) + seq!['-'] + zero_pad(dec_digits(m), 2) + seq!['-'] + zero_pad(
        dec_digits(d),
        2,
    )
}

/// Renders a date exactly as chrono renders one.
pub fn format_date(y: i32, m: u8, d: u8) -> (r: String)
    requires
        year_lower_bound() <= y <= year_upper_bound() + 1,
        1 <= m <= 12,
        1 <= d <= 31,
    ensures
        r@ == spec_date_str(y as int, m as int, d as int),
{
    let mut s = if y >= 0 && y <= 9999 {
        padded_u128_string(y as u128, 4)
    } else if y > 9999 {
        let mut t = String::new();
        proof {
            reveal_strlit("+");
        }
        t.append("+");
        let digits = padded_u128_string(y as u128, 4);
        t.append(digits.as_str());
        proof {
            assert(t@ =~= spec_year_str(y as int));
        }
        t
    } else {
        let mut t = String::new();
        proof {
            reveal_strlit("-");
        }
        t.append("-");
        let digits = padded_u128_string((-(y as i64)) as u128, 4);
        t.append(digits.as_str());
        proof {
            assert(t@ =~= spec_year_str(y as int));
        }
        t
    };
    proof {
        reveal_strlit("-");
    }
    s.append("-");
    let mm = padded_u128_string(m as u128, 2);
    s.append(mm.as_str());
    s.append("-");
    let dd = padded_u128_string(d as u128, 2);
    s.append(dd.as_str());
    proof {
        assert(s@ =~= spec_date_str(y as int, m as int, d as int));
    }
    s
}

// ---------------------------------------------------------------------------
// Trusted parsing through chrono
// ---------------------------------------------------------------------------

/// The date denoted by a string under chrono's `%Y-%m-%d` parsing, when the
/// string is accepted; which strings are accepted depends on the characters
/// alone.
pub uninterp spec fn date_of(s: Seq<char>) -> Option<(int, int, int)>;

/// Relies on chrono's `NaiveDate::parse_from_str` with format `"%Y-%m-%d"`:
/// acceptance is a function of the string alone, and an accepted string
/// denotes a valid calendar date whose year chrono can represent.
#[verifier::external_body]
pub fn parse_date(value: &str) -> (r: Option<(i32, u8, u8)>)
    ensures
        r is Some <==> date_of(value@) is Some,
        r matches Some(p) ==> {
            &&& date_of(value@) == Some((p.0 as int, p.1 as int, p.2 as int))
            &&& valid_ymd(p.0 as int, p.1 as int, p.2 as int)
            &&& year_lower_bound() <= p.0 <= year_upper_bound()
        },
{
    match chrono::NaiveDate::parse_from_str(value, "%Y-%m-%d") {
        Ok(date) => Some((date.year(), date.month() as u8, date.day() as u8)),
        Err(_) => None,
    }
}

} // verus!
