//! Scans a file name for an embedded date of the form `YYYY[-_]?MM[-_]?DD`
//! (month 01..12, day 01..31) and validates the match as a real calendar
//! date. The leftmost match wins, as in a regular-expression `find`.

use vstd::prelude::*;

verus! {

pub open spec fn is_digit(c: char) -> bool {
    48 <= (c as u32) && (c as u32) <= 57
}

pub open spec fn is_sep(c: char) -> bool {
    c == '-' || c == '_'
}

pub open spec fn digit_val(c: char) -> int {
    (c as u32) - 48
}

/// A valid two-digit month: `01` through `12`.
pub open spec fn month_ok(c0: char, c1: char) -> bool {
    is_digit(c0) && is_digit(c1) && 1 <= digit_val(c0) * 10 + digit_val(c1) <= 12
}

/// A valid two-digit day: `01` through `31`.
pub open spec fn day_ok(c0: char, c1: char) -> bool {
    is_digit(c0) && is_digit(c1) && 1 <= digit_val(c0) * 10 + digit_val(c1) <= 31
}

/// The digit groups of a date found in a name, as character sequences.
pub struct DateMatch {
    pub end: int,
    pub year: Seq<char>,
    pub month: Seq<char>,
    pub day: Seq<char>,
}

/// Tries to match the date shape starting at position `i` of `s`:
/// four digits, an optional separator, a month, an optional separator,
/// a day. Each separator is independently present or absent.
pub open spec fn date_match_at(s: Seq<char>, i: int) -> Option<DateMatch> {
    if !(0 <= i && i + 4 <= s.len() && is_digit(s[i]) && is_digit(s[i + 1]) && is_digit(s[i + 2])
        && is_digit(s[i + 3])) {
        None
    } else {
        let p = i + 4;
        let q = if p < s.len() && is_sep(s[p]) {
            p + 1
        } else {
            p
        };
        if !(q + 2 <= s.len() && month_ok(s[q], s[q + 1])) {
            None
        } else {
            let r = q + 2;
            let t = if r < s.len() && is_sep(s[r]) {
                r + 1
            } else {
                r
            };
            if !(t + 2 <= s.len() && day_ok(s[t], s[t + 1])) {
                None
            } else {
                Some(
                    DateMatch {
                        end: t + 2,
                        year: s.subrange(i, i + 4),
                        month: s.subrange(q, q + 2),
                        day: s.subrange(t, t + 2),
                    },
                )
            }
        }
    }
}

/// The least position at or after `i` where the date shape matches, or -1.
pub open spec fn first_match_from(s: Seq<char>, i: int) -> int
    decreases s.len() - i,
{
    if i < 0 || i >= s.len() {
        -1
    } else if date_match_at(s, i) is Some {
        i
    } else {
        first_match_from(s, i + 1)
    }
}

/// The leftmost date-shape match in `s`, if any.
pub open spec fn spec_find_date(s: Seq<char>) -> Option<DateMatch> {
    let i = first_match_from(s, 0);
    if i >= 0 {
        date_match_at(s, i)
    } else {
        None
    }
}

/// The numeric value of the four year digits.
pub open spec fn year_value(y: Seq<char>) -> int {
    digit_val(y[0]) * 1000 + digit_val(y[1]) * 100 + digit_val(y[2]) * 10 + digit_val(y[3])
}

/// The numeric value of a two-digit group.
pub open spec fn two_digit_value(s: Seq<char>) -> int {
    digit_val(s[0]) * 10 + digit_val(s[1])
}

pub open spec fn is_leap_year(y: int) -> bool {
    (y % 4 == 0 && y % 100 != 0) || y % 400 == 0
}

pub open spec fn days_in_month(y: int, m: int) -> int {
    if m == 2 {
        if is_leap_year(y) {
            29
        } else {
            28
        }
    } else if m == 4 || m == 6 || m == 9 || m == 11 {
        30
    } else {
        31
    }
}

/// A valid date of the proleptic Gregorian calendar.
pub open spec fn is_valid_date(y: int, m: int, d: int) -> bool {
    1 <= m <= 12 && 1 <= d <= days_in_month(y, m)
}

/// Relies on chrono's NaiveDate::from_ymd_opt, which returns Some exactly
/// when (y, m, d) is a valid proleptic Gregorian calendar date (all years
/// up to 9999 lie well inside chrono's supported range).
#[verifier::external_body]
fn chrono_ymd_valid(y: u32, m: u32, d: u32) -> (r: bool)
    requires
        y <= 9999,
    ensures
        r == is_valid_date(y as int, m as int, d as int),
{
    match chrono::NaiveDate::from_ymd_opt(y as i32, m, d) {
        Some(_) => true,
        None => false,
    }
}

/// The digit groups of a date found in a name.
pub struct FoundDate {
    pub year: String,
    pub month: String,
    pub day: String,
}

#[derive(Debug)]
pub enum FileNameDateError {
    /// No date shape occurs in the name.
    DateNotFound,
    /// A date shape occurs, but it is not a real calendar date.
    InvalidDate,
}

/// The outcome a scan must have, as a function of the name alone.
pub enum ScanModel {
    Found(DateMatch),
    NoDate,
    BadDate,
}

pub open spec fn spec_scan(name: Seq<char>) -> ScanModel {
    match spec_find_date(name) {
        None => ScanModel::NoDate,
        Some(m) => {
            if is_valid_date(year_value(m.year), two_digit_value(m.month), two_digit_value(m.day)) {
                ScanModel::Found(m)
            } else {
                ScanModel::BadDate
            }
        },
    }
}

fn ch_is_digit(c: char) -> (r: bool)
    ensures
        r == is_digit(c),
{
    let u = c as u32;
    48 <= u && u <= 57
}

fn ch_is_sep(c: char) -> (r: bool)
    ensures
        r == is_sep(c),
{
    c == '-' || c == '_'
}

fn two_digits_ok(c0: char, c1: char, max: u32) -> (r: bool)
    requires
        10 <= max <= 99,
    ensures
        r == (is_digit(c0) && is_digit(c1) && 1 <= digit_val(c0) * 10 + digit_val(c1) <= max),
{
    if !ch_is_digit(c0) || !ch_is_digit(c1) {
        return false;
    }
    let v = (c0 as u32 - 48) * 10 + (c1 as u32 - 48);
    1 <= v && v <= max
}

/// Tries the date shape at position `i`; on success returns the start
/// positions of the month and the day groups.
fn try_match_at(v: &Vec<char>, i: usize) -> (r: Option<(usize, usize)>)
    requires
        i < v@.len(),
    ensures
        match r {
            Some((q, t)) => {
                &&& i + 4 <= q && q + 2 <= t && t + 2 <= v@.len()
                &&& date_match_at(v@, i as int) == Some(
                    DateMatch {
                        end: t + 2,
                        year: v@.subrange(i as int, i + 4),
                        month: v@.subrange(q as int, q + 2),
                        day: v@.subrange(t as int, t + 2),
                    },
                )
            },
            None => date_match_at(v@, i as int) is None,
        },
{
    let n = v.len();
    if n < 4 || i > n - 4 {
        return None;
    }
    if !ch_is_digit(v[i]) || !ch_is_digit(v[i + 1]) || !ch_is_digit(v[i + 2]) || !ch_is_digit(
        v[i + 3],
    ) {
        return None;
    }
    let p = i + 4;
    let q = if p < n && ch_is_sep(v[p]) {
        p + 1
    } else {
        p
    };
    if n - q < 2 || !two_digits_ok(v[q], v[q + 1], 12) {
        return None;
    }
    let r = q + 2;
    let t = if r < n && ch_is_sep(v[r]) {
        r + 1
    } else {
        r
    };
    if n - t < 2 || !two_digits_ok(v[t], v[t + 1], 31) {
        return None;
    }
    Some((q, t))
}

fn chars_of(s: &str) -> (v: Vec<char>)
    ensures
        v@ == s@,
{
    let n = s.unicode_len();
    let mut v: Vec<char> = Vec::new();
    let mut i: usize = 0;
    while i < n
        invariant
            i <= n,
            n == s@.len(),
            v@ =~= s@.take(i as int),
        decreases n - i,
    {
        v.push(s.get_char(i));
        assert(v@ =~= s@.take(i + 1));
        i += 1;
    }
    assert(v@ =~= s@);
    v
}

/// The value of a two-digit group, as a number.
fn two_digit_number(s: &str) -> (r: u32)
    requires
        s@.len() == 2,
        is_digit(s@[0]),
        is_digit(s@[1]),
    ensures
        r == two_digit_value(s@),
{
    let c0 = s.get_char(0);
    let c1 = s.get_char(1);
    (c0 as u32 - 48) * 10 + (c1 as u32 - 48)
}

/// The value of the four year digits, as a number.
fn year_number(s: &str) -> (r: u32)
    requires
        s@.len() == 4,
        forall|j: int| 0 <= j < 4 ==> is_digit(s@[j]),
    ensures
        r == year_value(s@),
        r <= 9999,
{
    let c0 = s.get_char(0);
    let c1 = s.get_char(1);
    let c2 = s.get_char(2);
    let c3 = s.get_char(3);
    (c0 as u32 - 48) * 1000 + (c1 as u32 - 48) * 100 + (c2 as u32 - 48) * 10 + (c3 as u32 - 48)
}

/// The leftmost date shape in `name`, as the matched text itself,
/// separators included; no calendar validation.
pub fn find_date_in_name(name: &str) -> (r: Option<String>)
    ensures
        match r {
            Some(t) => {
                &&& first_match_from(name@, 0) >= 0
                &&& spec_find_date(name@) matches Some(m)
                &&& t@ == name@.subrange(first_match_from(name@, 0), m.end)
            },
            None => spec_find_date(name@) is None,
        },
{
    let v = chars_of(name);
    let n = v.len();
    let mut i: usize = 0;
    while i < n
        invariant
            i <= n,
            n == v@.len(),
            v@ == name@,
            first_match_from(name@, 0) == first_match_from(name@, i as int),
        decreases n - i,
    {
        match try_match_at(&v, i) {
            Some((_q, t)) => {
                assert(first_match_from(name@, i as int) == i);
                return Some(name.substring_char(i, t + 2).to_owned());
            },
            None => {
                assert(first_match_from(name@, i as int) == first_match_from(name@, i + 1));
            },
        }
        i += 1;
    }
    assert(first_match_from(name@, n as int) == -1);
    None
}

/// Scans `name` for the leftmost date shape and validates it as a
/// calendar date.
pub fn scan_filename_date(name: &str) -> (r: Result<FoundDate, FileNameDateError>)
    ensures
        match r {
            Ok(f) => {
                &&& spec_scan(name@) matches ScanModel::Found(m)
                &&& f.year@ == m.year
                &&& f.month@ == m.month
                &&& f.day@ == m.day
            },
            Err(FileNameDateError::DateNotFound) => spec_scan(name@) is NoDate,
            Err(FileNameDateError::InvalidDate) => spec_scan(name@) is BadDate,
        },
{
    let v = chars_of(name);
    let n = v.len();
    let mut i: usize = 0;
    while i < n
        invariant
            i <= n,
            n == v@.len(),
            v@ == name@,
            first_match_from(name@, 0) == first_match_from(name@, i as int),
        decreases n - i,
    {
        match try_match_at(&v, i) {
            Some((q, t)) => {
                assert(first_match_from(name@, i as int) == i);
                let year = name.substring_char(i, i + 4).to_owned();
                let month = name.substring_char(q, q + 2).to_owned();
                let day = name.substring_char(t, t + 2).to_owned();
                let ghost m = date_match_at(name@, i as int)->Some_0;
                assert(year@ == m.year);
                assert(month@ == m.month);
                assert(day@ == m.day);
                let y = year_number(year.as_str());
                let mo = two_digit_number(month.as_str());
                let d = two_digit_number(day.as_str());
                if chrono_ymd_valid(y, mo, d) {
                    return Ok(FoundDate { year, month, day });
                } else {
                    return Err(FileNameDateError::InvalidDate);
                }
            },
            None => {
                assert(first_match_from(name@, i as int) == first_match_from(name@, i + 1));
            },
        }
        i += 1;
    }
    assert(first_match_from(name@, n as int) == -1);
    Err(FileNameDateError::DateNotFound)
}

} // verus!
