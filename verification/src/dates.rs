//! Calendar dates of Unix timestamps, and the texts and bytes that name a
//! day.

use vstd::prelude::*;
use crate::calendar::{day_start, get_date_from_timestamp};

verus! {

/// A day of the Gregorian calendar.
#[derive(Clone, Copy, Debug, PartialEq, Eq, Structural)]
pub struct CivilDate {
    pub year: i64,
    /// One for January to twelve for December.
    pub month: i64,
    /// The day of the month, from one.
    pub day: i64,
}

/// Whether `year` has a 29th of February.
pub open spec fn leap(year: int) -> bool {
    year % 4 == 0 && (year % 100 != 0 || year % 400 == 0)
}

/// The number of days of `year`.
pub open spec fn days_in_year(year: int) -> int {
    if leap(year) {
        366
    } else {
        365
    }
}

/// The number of days of a month of `year`.
pub open spec fn days_in_month(year: int, month: int) -> int {
    if month == 2 {
        if leap(year) {
            29
        } else {
            28
        }
    } else if month == 4 || month == 6 || month == 9 || month == 11 {
        30
    } else {
        31
    }
}

/// The days from the first day of 1970 to the first day of `year`.
pub open spec fn days_before_year(year: int) -> int
    decreases year - 1970,
{
    if year <= 1970 {
        0
    } else {
        days_before_year(year - 1) + days_in_year(year - 1)
    }
}

/// The days from the first day of `year` to the first day of `month`.
pub open spec fn days_before_month(year: int, month: int) -> int
    decreases month,
{
    if month <= 1 {
        0
    } else {
        days_before_month(year, month - 1) + days_in_month(year, month - 1)
    }
}

impl CivilDate {
    /// Whether this is the date of the day that lies `days` days after the
    /// first day of 1970.
    pub open spec fn is_day(self, days: int) -> bool {
        &&& 1970 <= self.year
        &&& 1 <= self.month <= 12
        &&& 1 <= self.day <= days_in_month(self.year as int, self.month as int)
        &&& days_before_year(self.year as int) + days_before_month(
            self.year as int,
            self.month as int,
        ) + self.day - 1 == days
    }

    /// The date as text: the year in at least four digits, the month and
    /// the day in at least two, with hyphens between them.
    pub open spec fn text(self) -> Seq<char> {
        padded(self.year as nat, 4) + seq!['-'] + padded(self.month as nat, 2) + seq!['-']
            + padded(self.day as nat, 2)
    }
}

/// The character of a decimal digit.
pub open spec fn digit(value: nat) -> char {
    (48 + value) as char
}

/// The decimal digits of a number, without leading zeros.
pub open spec fn decimal(value: nat) -> Seq<char>
    decreases value,
{
    if value < 10 {
        seq![digit(value)]
    } else {
        decimal(value / 10).push(digit(value % 10))
    }
}

/// The decimal digits of a number, with zeros in front of them where they
/// are fewer than `width`.
pub open spec fn padded(value: nat, width: nat) -> Seq<char> {
    let digits = decimal(value);
    if digits.len() >= width {
        digits
    } else {
        Seq::new((width - digits.len()) as nat, |i: int| '0') + digits
    }
}

/// Whether `year` has a 29th of February.
pub fn is_leap_year(year: i64) -> (r: bool)
    ensures
        r == leap(year as int),
{
    match (year.checked_rem_euclid(4), year.checked_rem_euclid(100), year.checked_rem_euclid(400)) {
        (Some(by_4), Some(by_100), Some(by_400)) => by_4 == 0 && (by_100 != 0 || by_400 == 0),
        _ => false,
    }
}

/// The number of days of a month of `year`.
pub fn month_length(year: i64, month: i64) -> (r: i64)
    ensures
        r == days_in_month(year as int, month as int),
        28 <= r <= 31,
{
    if month == 2 {
        if is_leap_year(year) {
            29
        } else {
            28
        }
    } else if month == 4 || month == 6 || month == 9 || month == 11 {
        30
    } else {
        31
    }
}

/// The date of the day that holds `timestamp`, or `None` for a time before
/// 1970.
pub fn civil_date(timestamp: i64) -> (r: Option<CivilDate>)
    ensures
        r is Some <==> timestamp >= 0,
        r matches Some(date) ==> date.is_day(day_start(timestamp as int) / 86400),
{
    if timestamp < 0 {
        return None;
    }
    let days: i64 = get_date_from_timestamp(timestamp) / 86400;
    let mut year: i64 = 1970;
    let mut days_remaining: i64 = days;
    loop
        invariant
            0 <= days_remaining <= days,
            days <= i64::MAX / 86400,
            1970 <= year,
            year - 1970 <= days - days_remaining,
            days_before_year(year as int) + days_remaining == days,
        ensures
            days_remaining < days_in_year(year as int),
        decreases days_remaining,
    {
        let days_in_year: i64 = if is_leap_year(year) {
            366
        } else {
            365
        };
        if days_remaining < days_in_year {
            break;
        }
        days_remaining -= days_in_year;
        year += 1;
    }
    let mut month: i64 = 1;
    while month < 12 && days_remaining >= month_length(year, month)
        invariant
            1 <= month <= 12,
            0 <= days_remaining,
            days_before_year(year as int) + days_before_month(year as int, month as int)
                + days_remaining == days,
            days_before_month(year as int, month as int) + days_remaining < days_in_year(
                year as int,
            ),
        decreases 12 - month,
    {
        days_remaining -= month_length(year, month);
        month += 1;
    }
    proof {
        lemma_year_length(year as int);
    }
    Some(CivilDate { year, month, day: days_remaining + 1 })
}

/// The months of a year add up to its days.
proof fn lemma_year_length(year: int)
    ensures
        days_before_month(year, 12) + 31 == days_in_year(year),
{
    reveal_with_fuel(days_before_month, 13);
}

/// The bytes of `date` as a 64-bit number in two's complement, lowest byte
/// first.
pub open spec fn date_bytes(date: i64) -> Seq<u8> {
    let unsigned = if date >= 0 {
        date as int
    } else {
        date + 0x1_0000_0000_0000_0000
    };
    seq![
        (unsigned % 256) as u8,
        (unsigned / 0x100 % 256) as u8,
        (unsigned / 0x1_0000 % 256) as u8,
        (unsigned / 0x100_0000 % 256) as u8,
        (unsigned / 0x1_0000_0000 % 256) as u8,
        (unsigned / 0x100_0000_0000 % 256) as u8,
        (unsigned / 0x1_0000_0000_0000 % 256) as u8,
        (unsigned / 0x100_0000_0000_0000 % 256) as u8,
    ]
}

/// The eight bytes that name the bucket of `date`: the date as a 64-bit
/// number, lowest byte first.
pub fn date_to_bytes(date: i64) -> (bytes: [u8; 8])
    ensures
        bytes@ == date_bytes(date),
{
    let unsigned: u128 = if date >= 0 {
        date as u128
    } else {
        ((date as i128) + 0x1_0000_0000_0000_0000) as u128
    };
    let bytes = [
        (unsigned % 256) as u8,
        (unsigned / 0x100 % 256) as u8,
        (unsigned / 0x1_0000 % 256) as u8,
        (unsigned / 0x100_0000 % 256) as u8,
        (unsigned / 0x1_0000_0000 % 256) as u8,
        (unsigned / 0x100_0000_0000 % 256) as u8,
        (unsigned / 0x1_0000_0000_0000 % 256) as u8,
        (unsigned / 0x100_0000_0000_0000 % 256) as u8,
    ];
    bytes
}

/// The text of a date, made by `format!` of the standard library with the
/// format string `{:04}-{:02}-{:02}`: each number in decimal digits, padded
/// with zeros in front to four, two and two digits, joined by hyphens. The
/// contract restates what that format is documented to produce for numbers
/// that are not negative; it is believed, not proved.
#[verifier::external_body]
fn render(date: CivilDate) -> (text: String)
    ensures
        0 <= date.year && 0 <= date.month && 0 <= date.day ==> text@ == date.text(),
{
    format!("{:04}-{:02}-{:02}", date.year, date.month, date.day)
}

/// Whether `text` names the day that lies `days` days after the first day
/// of 1970: it is the text of that day's date.
pub open spec fn names_day(text: Seq<char>, days: int) -> bool {
    exists|date: CivilDate| #[trigger] date.is_day(days) && text == date.text()
}

/// The date of the day that holds `timestamp` as text, such as
/// `2024-02-29`, or `None` for a time before 1970.
pub fn date_string(timestamp: i64) -> (r: Option<String>)
    ensures
        r is Some <==> timestamp >= 0,
        r matches Some(text) ==> names_day(text@, day_start(timestamp as int) / 86400),
{
    match civil_date(timestamp) {
        Some(date) => Some(render(date)),
        None => None,
    }
}

/// The days before a year grow with the year, by at least 365 a year.
pub proof fn lemma_years_grow(earlier: int, later: int)
    requires
        1970 <= earlier <= later,
    ensures
        days_before_year(later) >= days_before_year(earlier) + 365 * (later - earlier),
    decreases later - earlier,
{
    if earlier < later {
        lemma_years_grow(earlier, later - 1);
    }
}

/// The days before a month grow with the month, by at least 28 a month.
pub proof fn lemma_months_grow(year: int, earlier: int, later: int)
    requires
        1 <= earlier <= later,
    ensures
        days_before_month(year, later) >= days_before_month(year, earlier) + 28 * (later
            - earlier),
    decreases later - earlier,
{
    if earlier < later {
        lemma_months_grow(year, earlier, later - 1);
    }
}

/// A date of a year lies before the first day of the next year.
proof fn lemma_within_year(date: CivilDate)
    requires
        1 <= date.month <= 12,
        1 <= date.day <= days_in_month(date.year as int, date.month as int),
    ensures
        days_before_month(date.year as int, date.month as int) + date.day <= days_in_year(
            date.year as int,
        ),
{
    let year = date.year as int;
    lemma_year_length(year);
    if date.month < 12 {
        lemma_months_grow(year, date.month as int + 1, 12);
    }
}

/// A day has one date only.
pub proof fn lemma_one_date_per_day(a: CivilDate, b: CivilDate, days: int)
    requires
        a.is_day(days),
        b.is_day(days),
    ensures
        a == b,
{
    lemma_within_year(a);
    lemma_within_year(b);
    lemma_months_grow(a.year as int, 1, a.month as int);
    lemma_months_grow(b.year as int, 1, b.month as int);
    if a.year < b.year {
        lemma_years_grow(a.year as int + 1, b.year as int);
    } else if b.year < a.year {
        lemma_years_grow(b.year as int + 1, a.year as int);
    } else if a.month < b.month {
        lemma_months_grow(a.year as int, a.month as int + 1, b.month as int);
    } else if b.month < a.month {
        lemma_months_grow(a.year as int, b.month as int + 1, a.month as int);
    }
}

} // verus!
