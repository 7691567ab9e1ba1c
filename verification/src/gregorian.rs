//! The proleptic Gregorian calendar as arithmetic on integers.
//!
//! Years are counted astronomically: the year before year 1 is year 0, and it
//! is a leap year. Days are numbered so that 0001-01-01 is day 1.

use vstd::prelude::*;

verus! {

/// First and last year of which the calendar can express every day.
pub const MIN_YEAR: i32 = -262_143;
pub const MAX_YEAR: i32 = 262_142;

/// Number of the day 1970-01-01.
pub const EPOCH_DAY_NUMBER: i32 = 719_163;

/// Days between 1970-01-01 and the first and the last day of the calendar.
pub const MIN_DAYS: i32 = -96_465_292;
pub const MAX_DAYS: i32 = 95_026_236;

pub open spec fn is_leap_year(year: int) -> bool {
    year % 4 == 0 && (year % 100 != 0 || year % 400 == 0)
}

pub open spec fn days_in_year(year: int) -> int {
    if is_leap_year(year) {
        366
    } else {
        365
    }
}

/// Length of a month; 0 for a month that does not exist.
pub open spec fn days_in_month(year: int, month: int) -> int {
    if month == 2 {
        if is_leap_year(year) {
            29
        } else {
            28
        }
    } else if month == 4 || month == 6 || month == 9 || month == 11 {
        30
    } else if 1 <= month <= 12 {
        31
    } else {
        0
    }
}

/// Days of the year that lie before the first day of the month.
pub open spec fn days_before_month(year: int, month: int) -> int
    decreases month,
{
    if month <= 1 {
        0
    } else {
        days_before_month(year, month - 1) + days_in_month(year, month - 1)
    }
}

/// Days from 0001-01-01 up to, but without, the first day of the year.
pub open spec fn days_before_year(year: int) -> int {
    365 * (year - 1) + (year - 1) / 4 - (year - 1) / 100 + (year - 1) / 400
}

/// Number of a day, with 0001-01-01 as day 1.
pub open spec fn day_number(year: int, month: int, day: int) -> int {
    days_before_year(year) + days_before_month(year, month) + day
}

/// Signed days from 1970-01-01 to the day.
pub open spec fn days_from_epoch(year: int, month: int, day: int) -> int {
    day_number(year, month, day) - EPOCH_DAY_NUMBER
}

/// The day exists and lies in a year that the calendar can express.
pub open spec fn valid_date(year: int, month: int, day: int) -> bool {
    &&& MIN_YEAR <= year <= MAX_YEAR
    &&& 1 <= month <= 12
    &&& 1 <= day <= days_in_month(year, month)
}

/// The days before each month, written out.
pub proof fn lemma_days_before_month_values(year: int)
    ensures
        days_before_month(year, 1) == 0,
        days_before_month(year, 2) == 31,
        days_before_month(year, 3) == days_in_year(year) - 306,
        days_before_month(year, 4) == days_in_year(year) - 275,
        days_before_month(year, 5) == days_in_year(year) - 245,
        days_before_month(year, 6) == days_in_year(year) - 214,
        days_before_month(year, 7) == days_in_year(year) - 184,
        days_before_month(year, 8) == days_in_year(year) - 153,
        days_before_month(year, 9) == days_in_year(year) - 122,
        days_before_month(year, 10) == days_in_year(year) - 92,
        days_before_month(year, 11) == days_in_year(year) - 61,
        days_before_month(year, 12) == days_in_year(year) - 31,
        days_before_month(year, 13) == days_in_year(year),
{
    reveal_with_fuel(days_before_month, 14);
}

/// A year begins as many days after the one before as that one is long.
pub proof fn lemma_days_before_year_step(year: int)
    ensures
        days_before_year(year + 1) == days_before_year(year) + days_in_year(year),
{
}

/// Later years begin later, by at least 365 days for each year between.
pub proof fn lemma_days_before_year_monotonic(earlier: int, later: int)
    requires
        earlier <= later,
    ensures
        days_before_year(later) - days_before_year(earlier) >= 365 * (later - earlier),
    decreases later - earlier,
{
    if earlier < later {
        lemma_days_before_year_monotonic(earlier, later - 1);
        lemma_days_before_year_step(later - 1);
    }
}

/// Every day of a year has a number within that year.
pub proof fn lemma_day_number_within_year(year: int, month: int, day: int)
    requires
        1 <= month <= 12,
        1 <= day <= days_in_month(year, month),
    ensures
        days_before_year(year) < day_number(year, month, day) <= days_before_year(year + 1),
{
    lemma_days_before_month_values(year);
    lemma_days_before_year_step(year);
}

/// No two days of the calendar have the same number.
pub proof fn lemma_day_number_injective(
    year1: int,
    month1: int,
    day1: int,
    year2: int,
    month2: int,
    day2: int,
)
    requires
        1 <= month1 <= 12,
        1 <= day1 <= days_in_month(year1, month1),
        1 <= month2 <= 12,
        1 <= day2 <= days_in_month(year2, month2),
        day_number(year1, month1, day1) == day_number(year2, month2, day2),
    ensures
        year1 == year2,
        month1 == month2,
        day1 == day2,
{
    lemma_day_number_within_year(year1, month1, day1);
    lemma_day_number_within_year(year2, month2, day2);
    if year1 < year2 {
        lemma_days_before_year_monotonic(year1 + 1, year2);
    } else if year2 < year1 {
        lemma_days_before_year_monotonic(year2 + 1, year1);
    } else {
        lemma_days_before_month_values(year1);
    }
}

/// Every day of the calendar lies within the span of days around 1970-01-01
/// that the two bounds give.
pub proof fn lemma_days_from_epoch_bounds(year: int, month: int, day: int)
    requires
        valid_date(year, month, day),
    ensures
        MIN_DAYS <= days_from_epoch(year, month, day) <= MAX_DAYS,
{
    lemma_day_number_within_year(year, month, day);
    lemma_days_before_year_monotonic(MIN_YEAR as int, year);
    lemma_days_before_year_monotonic(year + 1, MAX_YEAR + 1);
}

/// The fields name the day that lies `days` days from 1970-01-01.
pub open spec fn is_civil_of(civil: (int, int, int), days: int) -> bool {
    valid_date(civil.0, civil.1, civil.2) && days_from_epoch(civil.0, civil.1, civil.2) == days
}

/// Year, month and day of the day that lies `days` days from 1970-01-01.
pub open spec fn civil_of_days(days: int) -> (int, int, int) {
    choose|civil: (int, int, int)| is_civil_of(civil, days)
}

/// Some month and day of some year lie `days` days from 1970-01-01, for
/// every `days`: the day after a day and the day before it exist.
proof fn lemma_some_day_at(days: int) -> (civil: (int, int, int))
    ensures
        1 <= civil.1 <= 12,
        1 <= civil.2 <= days_in_month(civil.0, civil.1),
        days_from_epoch(civil.0, civil.1, civil.2) == days,
    decreases
            if days >= 0 {
                days
            } else {
                -days
            },
{
    if days == 0 {
        lemma_days_before_month_values(1970);
        (1970, 1, 1)
    } else if days > 0 {
        let (year, month, day) = lemma_some_day_at(days - 1);
        lemma_days_before_month_values(year);
        lemma_days_before_month_values(year + 1);
        lemma_days_before_year_step(year);
        if day < days_in_month(year, month) {
            (year, month, day + 1)
        } else if month < 12 {
            (year, month + 1, 1)
        } else {
            (year + 1, 1, 1)
        }
    } else {
        let (year, month, day) = lemma_some_day_at(days + 1);
        lemma_days_before_month_values(year);
        lemma_days_before_month_values(year - 1);
        lemma_days_before_year_step(year - 1);
        if day > 1 {
            (year, month, day - 1)
        } else if month > 1 {
            (year, month - 1, days_in_month(year, month - 1))
        } else {
            (year - 1, 12, 31)
        }
    }
}

/// Every count of days within the two bounds is that of one day of the
/// calendar, which `civil_of_days` names.
pub proof fn lemma_civil_of_days(days: int)
    requires
        MIN_DAYS <= days <= MAX_DAYS,
    ensures
        is_civil_of(civil_of_days(days), days),
{
    let (year, month, day) = lemma_some_day_at(days);
    lemma_day_number_within_year(year, month, day);
    if year < MIN_YEAR {
        lemma_days_before_year_monotonic(year + 1, MIN_YEAR as int);
    }
    if year > MAX_YEAR {
        lemma_days_before_year_monotonic(MAX_YEAR + 1, year);
    }
    assert(is_civil_of((year, month, day), days));
}

/// A day of the calendar is the one that `civil_of_days` names for its count.
pub proof fn lemma_civil_of_days_unique(year: int, month: int, day: int)
    requires
        valid_date(year, month, day),
    ensures
        civil_of_days(days_from_epoch(year, month, day)) == (year, month, day),
{
    let days = days_from_epoch(year, month, day);
    assert(is_civil_of((year, month, day), days));
    let named = civil_of_days(days);
    lemma_day_number_injective(named.0, named.1, named.2, year, month, day);
}

} // verus!
