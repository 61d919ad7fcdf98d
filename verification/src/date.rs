//! Calendar dates and times, and their conversion from Unix timestamps.
use vstd::prelude::*;

use crate::digits::{append_int, spec_format_int};

verus! {

/// Whether `year` is a leap year of the Gregorian calendar: divisible by 4,
/// and, when divisible by 100, also by 400.
pub open spec fn spec_is_leap_year(year: int) -> bool {
    year % 4 == 0 && (year % 100 != 0 || year % 400 == 0)
}

/// The number of days of `month` (1 to 12) in `year`; 0 for any other month.
pub open spec fn spec_days_in_month(year: int, month: int) -> int {
    if month == 1 || month == 3 || month == 5 || month == 7 || month == 8 || month == 10
        || month == 12 {
        31
    } else if month == 4 || month == 6 || month == 9 || month == 11 {
        30
    } else if month == 2 {
        if spec_is_leap_year(year) {
            29
        } else {
            28
        }
    } else {
        0
    }
}

/// The months of the Gregorian calendar have their lengths by the knuckle
/// rule: up to July the odd months, from August on the even months have 31
/// days, the other months but February 30; February has 29 days in a leap
/// year and 28 otherwise; the twelve months together make the year.
pub proof fn lemma_month_lengths(year: int, month: int)
    requires
        1 <= month <= 12,
    ensures
        month != 2 ==> spec_days_in_month(year, month) == if (month <= 7) == (month % 2 == 1) {
            31int
        } else {
            30int
        },
        month == 2 ==> spec_days_in_month(year, month) == if spec_is_leap_year(year) {
            29int
        } else {
            28int
        },
        spec_days_in_month(year, 1) + spec_days_in_month(year, 2) + spec_days_in_month(year, 3)
            + spec_days_in_month(year, 4) + spec_days_in_month(year, 5) + spec_days_in_month(
            year,
            6,
        ) + spec_days_in_month(year, 7) + spec_days_in_month(year, 8) + spec_days_in_month(year, 9)
            + spec_days_in_month(year, 10) + spec_days_in_month(year, 11) + spec_days_in_month(
            year,
            12,
        ) == spec_days_in_year(year),
{
}

/// The number of days of `year`.
pub open spec fn spec_days_in_year(year: int) -> int {
    if spec_is_leap_year(year) {
        366
    } else {
        365
    }
}

/// The number of days from 1970-01-01 to the first day of `year`.
pub open spec fn days_before_year(year: int) -> int
    decreases year - 1970,
{
    if year <= 1970 {
        0
    } else {
        days_before_year(year - 1) + spec_days_in_year(year - 1)
    }
}

/// The number of days from the first day of `year` to the first day of
/// `month` in it.
pub open spec fn days_before_month(year: int, month: int) -> int
    decreases month,
{
    if month <= 1 {
        0
    } else {
        days_before_month(year, month - 1) + spec_days_in_month(year, month - 1)
    }
}

/// Starting from `year`, the year that holds the day `days` days later, and
/// that day's offset within its year.
pub open spec fn year_of_day(year: int, days: int) -> (int, int)
    decreases days,
{
    if 0 <= days && days >= spec_days_in_year(year) {
        year_of_day(year + 1, days - spec_days_in_year(year))
    } else {
        (year, days)
    }
}

/// Starting from `month` of `year`, the month that holds the day `days` days
/// later, and that day's offset within its month.
pub open spec fn month_of_day(year: int, month: int, days: int) -> (int, int)
    decreases 13 - month,
{
    if month <= 12 && days >= spec_days_in_month(year, month) {
        month_of_day(year, month + 1, days - spec_days_in_month(year, month))
    } else {
        (month, days)
    }
}

/// The full (untruncated) year of the timestamp `ts`.
pub open spec fn civil_year(ts: int) -> int {
    year_of_day(1970, ts / 86400).0
}

/// The month (1 to 12) of the timestamp `ts`.
pub open spec fn civil_month(ts: int) -> int {
    month_of_day(civil_year(ts), 1, year_of_day(1970, ts / 86400).1).0
}

/// The day of the month (from 1) of the timestamp `ts`.
pub open spec fn civil_day(ts: int) -> int {
    month_of_day(civil_year(ts), 1, year_of_day(1970, ts / 86400).1).1 + 1
}

/// The date and time that the timestamp `ts` (seconds since 1970-01-01
/// 00:00:00 UTC) denotes; the year is kept in 32 bits.
pub open spec fn spec_from_timestamp(ts: int) -> DateTime {
    DateTime {
        sec: (ts % 60) as i32,
        min: ((ts % 3600) / 60) as i32,
        hour: ((ts % 86400) / 3600) as i32,
        day: civil_day(ts) as i32,
        month: civil_month(ts) as i32,
        year: civil_year(ts) as i32,
    }
}

/// Represents a date and time.
#[derive(Clone, Debug, PartialEq, Eq, Structural)]
pub struct DateTime {
    /// Seconds after the minute - [0, 59]
    pub sec: i32,
    /// Minutes after the hour - [0, 59]
    pub min: i32,
    /// Hours after midnight - [0, 23]
    pub hour: i32,
    /// Day of the month - [1, 31]
    pub day: i32,
    /// Months since January - [1, 12]
    pub month: i32,
    /// Years (full year, e.g., 2025)
    pub year: i32,
}

/// Represents a date without time information.
#[derive(Clone, Debug, PartialEq, Eq, Structural)]
pub struct Date {
    /// Day of the month - [1, 31]
    pub day: i32,
    /// Months since January - [1, 12]
    pub month: i32,
    /// Years (full year, e.g., 2025)
    pub year: i32,
}

impl DateTime {
    /// Whether every field lies in its range (a year from 1970 on).
    pub open spec fn spec_is_valid(&self) -> bool {
        &&& 0 <= self.sec <= 59
        &&& 0 <= self.min <= 59
        &&& 0 <= self.hour <= 23
        &&& 1 <= self.day <= 31
        &&& 1 <= self.month <= 12
        &&& self.year >= 1970
    }

    /// A date time with every field zero.
    pub fn new() -> (dt: DateTime)
        ensures
            dt == (DateTime { sec: 0, min: 0, hour: 0, day: 0, month: 0, year: 0 }),
    {
        DateTime { sec: 0, min: 0, hour: 0, day: 0, month: 0, year: 0 }
    }

    /// The date time of a Unix timestamp (seconds since 1970-01-01 00:00:00
    /// UTC), which must not be negative.
    pub fn from_timestamp(timestamp: i64) -> (dt: DateTime)
        requires
            timestamp >= 0,
        ensures
            dt == spec_from_timestamp(timestamp as int),
    {
        let mut dt = DateTime::new();
        seconds_to_datetime(timestamp, &mut dt);
        dt
    }

    /// The date part of this date time.
    pub fn date(&self) -> (date: Date)
        ensures
            date == (Date { day: self.day, month: self.month, year: self.year }),
    {
        Date { day: self.day, month: self.month, year: self.year }
    }

    /// Whether every field lies in its range.
    pub fn is_valid(&self) -> (valid: bool)
        ensures
            valid == self.spec_is_valid(),
    {
        self.sec >= 0 && self.sec <= 59 && self.min >= 0 && self.min <= 59 && self.hour >= 0
            && self.hour <= 23 && self.day >= 1 && self.day <= 31 && self.month >= 1
            && self.month <= 12 && self.year >= 1970
    }

    /// The number of seconds since midnight.
    pub fn seconds_since_midnight(&self) -> (secs: i32)
        requires
            i32::MIN <= self.hour * 3600 <= i32::MAX,
            i32::MIN <= self.hour * 3600 + self.min * 60 <= i32::MAX,
            i32::MIN <= self.min * 60 <= i32::MAX,
            i32::MIN <= self.hour * 3600 + self.min * 60 + self.sec <= i32::MAX,
        ensures
            secs == self.hour * 3600 + self.min * 60 + self.sec,
    {
        self.hour * 3600 + self.min * 60 + self.sec
    }
}

/// The remainder of `a` divided by `b` with the sign of `a`, as Rust's `%`
/// computes it.
pub open spec fn spec_trunc_rem(a: int, b: int) -> int {
    if a >= 0 {
        a % b
    } else {
        -((-a) % b)
    }
}

/// A date time as `YYMMDDhhmmssZ` (the UTCTime form): the year modulo 100,
/// then month, day, hour, minute and second, each in at least two digits.
pub open spec fn spec_datetime_text(dt: DateTime) -> Seq<char> {
    spec_format_int(spec_trunc_rem(dt.year as int, 100), 2) + spec_format_int(dt.month as int, 2)
        + spec_format_int(dt.day as int, 2) + spec_format_int(dt.hour as int, 2) + spec_format_int(
        dt.min as int,
        2,
    ) + spec_format_int(dt.sec as int, 2) + "Z"@
}

impl DateTime {
    /// This date time as `YYMMDDhhmmssZ`.
    pub fn to_string(&self) -> (text: String)
        ensures
            text@ == spec_datetime_text(*self),
    {
        let y = self.year as i64;
        let short_year: i64 = if y >= 0 {
            y % 100
        } else {
            -((-y) % 100)
        };
        let mut text = String::new();
        append_int(&mut text, short_year as i32, 2);
        append_int(&mut text, self.month, 2);
        append_int(&mut text, self.day, 2);
        append_int(&mut text, self.hour, 2);
        append_int(&mut text, self.min, 2);
        append_int(&mut text, self.sec, 2);
        text.append("Z");
        assert(text@ =~= spec_datetime_text(*self));
        text
    }
}

impl Default for DateTime {
    fn default() -> (dt: DateTime)
        ensures
            dt == (DateTime { sec: 0, min: 0, hour: 0, day: 0, month: 0, year: 0 }),
    {
        DateTime::new()
    }
}

impl Date {
    /// Whether day, month and year lie in their ranges (a year from 1970 on);
    /// the day is not checked against the length of the month.
    pub open spec fn spec_is_valid(&self) -> bool {
        &&& 1 <= self.day <= 31
        &&& 1 <= self.month <= 12
        &&& self.year >= 1970
    }

    /// A date with every field zero.
    pub fn new() -> (date: Date)
        ensures
            date == (Date { day: 0, month: 0, year: 0 }),
    {
        Date { day: 0, month: 0, year: 0 }
    }

    /// The date with the given year, month and day.
    pub fn from_ymd(year: i32, month: i32, day: i32) -> (date: Date)
        ensures
            date == (Date { day, month, year }),
    {
        Date { year, month, day }
    }

    /// Whether day, month and year lie in their ranges.
    pub fn is_valid(&self) -> (valid: bool)
        ensures
            valid == self.spec_is_valid(),
    {
        self.day >= 1 && self.day <= 31 && self.month >= 1 && self.month <= 12 && self.year
            >= 1970
    }

    /// Whether the year of this date is a leap year.
    pub fn is_leap_year(&self) -> (leap: bool)
        ensures
            leap == spec_is_leap_year(self.year as int),
    {
        is_leap_year(self.year as i64)
    }

    /// The number of days of the month of this date (0 for an invalid month).
    pub fn days_in_month(&self) -> (days: i32)
        ensures
            days == spec_days_in_month(self.year as int, self.month as int),
    {
        get_days_in_month(self.year as i64, self.month as i64) as i32
    }
}

/// A date as `YYYY-MM-DD UTC`: year in at least four digits, month and day
/// in at least two.
pub open spec fn spec_date_text(date: Date) -> Seq<char> {
    spec_format_int(date.year as int, 4) + "-"@ + spec_format_int(date.month as int, 2) + "-"@
        + spec_format_int(date.day as int, 2) + " UTC"@
}

impl Date {
    /// This date as `YYYY-MM-DD UTC`.
    pub fn to_string(&self) -> (text: String)
        ensures
            text@ == spec_date_text(*self),
    {
        let mut text = String::new();
        append_int(&mut text, self.year, 4);
        text.append("-");
        append_int(&mut text, self.month, 2);
        text.append("-");
        append_int(&mut text, self.day, 2);
        text.append(" UTC");
        assert(text@ =~= spec_date_text(*self));
        text
    }
}

impl Default for Date {
    fn default() -> (date: Date)
        ensures
            date == (Date { day: 0, month: 0, year: 0 }),
    {
        Date::new()
    }
}

/// Whether `year` is a leap year.
pub fn is_leap_year(year: i64) -> (leap: bool)
    ensures
        leap == spec_is_leap_year(year as int),
{
    year % 4 == 0 && (year % 100 != 0 || year % 400 == 0)
}

/// The number of days of `month` in `year` (0 for a month outside 1 to 12).
pub fn get_days_in_month(year: i64, month: i64) -> (days: i64)
    ensures
        days == spec_days_in_month(year as int, month as int),
{
    match month {
        1 | 3 | 5 | 7 | 8 | 10 | 12 => 31,
        4 | 6 | 9 | 11 => 30,
        2 => {
            if is_leap_year(year) {
                29
            } else {
                28
            }
        },
        _ => 0,
    }
}

/// Walking whole years forward from `year` leaves an offset that is inside
/// the year reached, and the days walked add up.
proof fn lemma_year_of_day(year: int, days: int)
    requires
        year >= 1970,
        days >= 0,
    ensures
        year_of_day(year, days).0 >= year,
        0 <= year_of_day(year, days).1 < spec_days_in_year(year_of_day(year, days).0),
        days_before_year(year_of_day(year, days).0) - days_before_year(year) + year_of_day(
            year,
            days,
        ).1 == days,
    decreases days,
{
    if days >= spec_days_in_year(year) {
        lemma_year_of_day(year + 1, days - spec_days_in_year(year));
    }
}

/// The months of a year add up to the days of the year.
proof fn lemma_months_fill_year(year: int)
    ensures
        days_before_month(year, 13) == spec_days_in_year(year),
{
    reveal_with_fuel(days_before_month, 13);
}

/// Walking whole months forward inside a year stops at a month of that year
/// and leaves an offset inside that month, and the days walked add up.
proof fn lemma_month_of_day(year: int, month: int, days: int)
    requires
        1 <= month <= 12,
        days >= 0,
        days_before_month(year, month) + days < spec_days_in_year(year),
    ensures
        month <= month_of_day(year, month, days).0 <= 12,
        0 <= month_of_day(year, month, days).1 < spec_days_in_month(
            year,
            month_of_day(year, month, days).0,
        ),
        days_before_month(year, month_of_day(year, month, days).0) + month_of_day(
            year,
            month,
            days,
        ).1 == days_before_month(year, month) + days,
    decreases 13 - month,
{
    if days >= spec_days_in_month(year, month) {
        if month == 12 {
            lemma_months_fill_year(year);
            assert(days_before_month(year, 13) == days_before_month(year, 12)
                + spec_days_in_month(year, 12));
        } else {
            assert(days_before_month(year, month + 1) == days_before_month(year, month)
                + spec_days_in_month(year, month));
            lemma_month_of_day(year, month + 1, days - spec_days_in_month(year, month));
        }
    }
}

/// The date of a non-negative timestamp is a real calendar date from 1970 on,
/// and counting its days and seconds from 1970-01-01 00:00:00 gives back the
/// timestamp.
pub proof fn lemma_timestamp_round_trip(ts: int)
    requires
        ts >= 0,
    ensures
        civil_year(ts) >= 1970,
        1 <= civil_month(ts) <= 12,
        1 <= civil_day(ts) <= spec_days_in_month(civil_year(ts), civil_month(ts)),
        (days_before_year(civil_year(ts)) + days_before_month(civil_year(ts), civil_month(ts))
            + civil_day(ts) - 1) * 86400 + ((ts % 86400) / 3600) * 3600 + ((ts % 3600) / 60) * 60
            + ts % 60 == ts,
{
    let d = ts / 86400;
    lemma_year_of_day(1970, d);
    let y = year_of_day(1970, d).0;
    let r = year_of_day(1970, d).1;
    assert(days_before_year(1970) == 0);
    assert(days_before_month(y, 1) == 0);
    lemma_month_of_day(y, 1, r);
    assert(d * 86400 + ts % 86400 == ts);
    assert((ts % 86400) / 3600 * 3600 + (ts % 3600) / 60 * 60 + ts % 60 == ts % 86400) by {
        let s = ts % 86400;
        assert(s % 3600 == ts % 3600);
        assert(s / 3600 * 3600 + s % 3600 == s);
        assert((s % 3600) / 60 * 60 + (s % 3600) % 60 == s % 3600);
        assert((s % 3600) % 60 == ts % 60);
    }
}

/// A non-negative timestamp whose year fits in 32 bits converts to a valid
/// date time.
pub proof fn lemma_from_timestamp_valid(ts: int)
    requires
        ts >= 0,
        civil_year(ts) <= i32::MAX,
    ensures
        spec_from_timestamp(ts).spec_is_valid(),
{
    lemma_timestamp_round_trip(ts);
}

/// Converts a Unix timestamp (seconds since 1970-01-01 00:00:00 UTC, not
/// negative) into the fields of `tm`.
pub fn seconds_to_datetime(ts: i64, tm: &mut DateTime)
    requires
        ts >= 0,
    ensures
        *final(tm) == spec_from_timestamp(ts as int),
{
    let day_seconds: i64 = ts % 86400;
    let mut day_number: i64 = ts / 86400;
    let ghost total = ts / 86400;
    tm.sec = (day_seconds % 60) as i32;
    tm.min = ((day_seconds % 3600) / 60) as i32;
    tm.hour = (day_seconds / 3600) as i32;
    assert(day_seconds % 60 == ts % 60 && day_seconds % 3600 == ts % 3600) by (nonlinear_arith)
        requires
            day_seconds == ts % 86400,
            ts >= 0,
    ;
    assert(day_seconds / 3600 == (ts % 86400) / 3600);

    let mut year: i64 = 1970;
    loop
        invariant
            1970 <= year,
            0 <= day_number <= total,
            (year - 1970) * 365 <= total - day_number,
            total == ts / 86400,
            ts >= 0,
            year_of_day(year as int, day_number as int) == year_of_day(1970, total),
        ensures
            day_number < spec_days_in_year(year as int),
        decreases day_number,
    {
        let days_in_year: i64 = if is_leap_year(year) {
            366
        } else {
            365
        };
        if day_number >= days_in_year {
            day_number = day_number - days_in_year;
            year = year + 1;
        } else {
            break ;
        }
    }
    tm.year = #[verifier::truncate] (year as i32);
    assert(year_of_day(1970, total) == (year as int, day_number as int));

    let mut month: i64 = 1;
    while month <= 12
        invariant
            1 <= month <= 13,
            0 <= day_number <= total,
            total == ts / 86400,
            year as int == year_of_day(1970, total).0,
            month_of_day(year as int, month as int, day_number as int) == month_of_day(
                year as int,
                1,
                year_of_day(1970, total).1,
            ),
        ensures
            month_of_day(year as int, month as int, day_number as int) == (
                month as int,
                day_number as int,
            ),
        decreases 13 - month,
    {
        let days_in_month = get_days_in_month(year, month);
        if day_number >= days_in_month {
            day_number = day_number - days_in_month;
            month = month + 1;
        } else {
            break ;
        }
    }
    tm.month = month as i32;
    tm.day = #[verifier::truncate] ((day_number + 1) as i32);
}

} // verus!
