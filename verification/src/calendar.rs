//! Calendar values and their epoch-based integer encodings.
//!
//! A date crosses the boundary as a signed count of days since 1970-01-01, a
//! time of day as a count of microseconds since midnight, and a date with a
//! time as a signed count of microseconds since 1970-01-01T00:00:00. The
//! functions here turn each count into named calendar fields and back.

use vstd::prelude::*;
use vstd::arithmetic::div_mod::lemma_fundamental_div_mod_converse;
use chrono::{DateTime, Datelike, NaiveDate, NaiveTime, Timelike};
use polars_arrow::temporal_conversions::{date32_to_date, time64us_to_time};
use crate::error::ExplorerError;
use crate::gregorian::{
    civil_of_days,
    days_from_epoch,
    is_civil_of,
    lemma_civil_of_days,
    lemma_civil_of_days_unique,
    lemma_days_from_epoch_bounds,
    valid_date,
    MAX_DAYS,
    MIN_DAYS,
};

verus! {

/// Largest sub-second value, in microseconds, that is handed to the host.
pub const MAX_MICROSECOND: u32 = 999_999;

/// Number of decimal digits of every sub-second value handed to the host.
pub const MICROSECOND_PRECISION: u32 = 6;

pub const MICROSECONDS_PER_SECOND: i64 = 1_000_000;
pub const MICROSECONDS_PER_MINUTE: i64 = 60_000_000;
pub const MICROSECONDS_PER_HOUR: i64 = 3_600_000_000;
pub const MICROSECONDS_PER_DAY: i64 = 86_400_000_000;

/// First and last second, counted from 1970-01-01T00:00:00, of the calendar.
pub const MIN_TIMESTAMP_SECONDS: i64 = -8_334_601_228_800;
pub const MAX_TIMESTAMP_SECONDS: i64 = 8_210_266_876_799;

/// First and last microsecond, counted from 1970-01-01T00:00:00, of the calendar.
pub const MIN_TIMESTAMP_MICROS: i64 = -8_334_601_228_800_000_000;
pub const MAX_TIMESTAMP_MICROS: i64 = 8_210_266_876_799_999_999;

/// The calendar system that a calendar value is written in.
#[derive(Clone, Copy, Debug, PartialEq, Eq, Structural)]
pub enum Calendar {
    Iso,
}

/// A day of the calendar, by its fields.
#[derive(Clone, Copy, Debug, PartialEq, Eq, Structural)]
pub struct ExDate {
    pub calendar: Calendar,
    pub day: u32,
    pub month: u32,
    pub year: i32,
}

/// A day and a time of that day, without a time zone. `microsecond` holds the
/// sub-second value and the number of its decimal digits.
#[derive(Clone, Copy, Debug, PartialEq, Eq)]
pub struct ExDateTime {
    pub calendar: Calendar,
    pub day: u32,
    pub month: u32,
    pub year: i32,
    pub hour: u32,
    pub minute: u32,
    pub second: u32,
    pub microsecond: (u32, u32),
}

/// A time of day. `microsecond` holds the sub-second value and the number of
/// its decimal digits.
#[derive(Clone, Copy, Debug, PartialEq, Eq)]
pub struct ExTime {
    pub calendar: Calendar,
    pub hour: u32,
    pub minute: u32,
    pub second: u32,
    pub microsecond: (u32, u32),
}

/// The fields name a time of day, to the microsecond.
pub open spec fn valid_clock(hour: int, minute: int, second: int, microsecond: int) -> bool {
    &&& 0 <= hour < 24
    &&& 0 <= minute < 60
    &&& 0 <= second < 60
    &&& 0 <= microsecond <= MAX_MICROSECOND
}

/// Microseconds from midnight to the time of day.
pub open spec fn clock_micros(hour: int, minute: int, second: int, microsecond: int) -> int {
    hour * MICROSECONDS_PER_HOUR + minute * MICROSECONDS_PER_MINUTE + second
        * MICROSECONDS_PER_SECOND + microsecond
}

/// A count of microseconds as a signed 64-bit count, where it is one.
pub open spec fn checked_micros(total: int) -> Option<i64> {
    if i64::MIN <= total <= i64::MAX {
        Some(total as i64)
    } else {
        None
    }
}

/// The whole milliseconds in a count of microseconds, rounded towards zero.
pub open spec fn whole_millis(total: int) -> int {
    if total >= 0 {
        total / 1_000
    } else {
        -((-total) / 1_000)
    }
}

/// Limits a sub-second microsecond count to six decimal digits: a count above
/// 999,999 becomes 999,999, any other is kept.
pub fn microseconds_six_digits(microseconds: u32) -> (clamped: u32)
    ensures
        clamped == if microseconds > MAX_MICROSECOND {
            MAX_MICROSECOND
        } else {
            microseconds
        },
        clamped <= MAX_MICROSECOND,
{
    if microseconds > MAX_MICROSECOND {
        MAX_MICROSECOND
    } else {
        microseconds
    }
}

/// Splits a signed count of microseconds into whole seconds, rounded towards
/// negative infinity, and the microseconds that remain. The remainder is never
/// negative, also where the count is.
pub fn split_microseconds(microseconds: i64) -> (parts: (i64, u32))
    ensures
        parts.0 == microseconds as int / 1_000_000,
        parts.1 == microseconds as int % 1_000_000,
        0 <= parts.1 <= MAX_MICROSECOND,
        parts.0 * 1_000_000 + parts.1 == microseconds,
{
    if microseconds >= 0 {
        (microseconds / MICROSECONDS_PER_SECOND, (microseconds % MICROSECONDS_PER_SECOND) as u32)
    } else {
        let below: i64 = -(microseconds + 1);
        let seconds: i64 = -(below / MICROSECONDS_PER_SECOND) - 1;
        let remainder: i64 = 999_999 - below % MICROSECONDS_PER_SECOND;
        (seconds, remainder as u32)
    }
}

/// The duration that the calendar arithmetic reports: its count of
/// microseconds where that count could be expressed, and otherwise its count
/// of whole milliseconds scaled to microseconds, which drops what was below a
/// millisecond.
pub fn duration_micros(micros: Option<i64>, millis: i64) -> (total: i64)
    requires
        micros is None ==> i64::MIN <= millis * 1_000 <= i64::MAX,
    ensures
        total == match micros {
            Some(exact) => exact as int,
            None => millis * 1_000,
        },
{
    match micros {
        Some(exact) => exact,
        None => millis * 1_000,
    }
}

/// Calls `date32_to_date` of polars-arrow and reads the fields of the chrono
/// date with `year`, `month` and `day`. Trusted: for a count within the
/// calendar the date exists, and it is the day that lies that many days from
/// 1970-01-01 in the proleptic Gregorian calendar.
#[verifier::external_body]
fn civil_from_days(days: i32) -> (civil: (i32, u32, u32))
    requires
        MIN_DAYS <= days <= MAX_DAYS,
    ensures
        valid_date(civil.0 as int, civil.1 as int, civil.2 as int),
        days_from_epoch(civil.0 as int, civil.1 as int, civil.2 as int) == days,
{
    let date = date32_to_date(days);
    (date.year(), date.month(), date.day())
}

/// Calls `NaiveDate::from_ymd_opt` of chrono and, on the date it made,
/// `signed_duration_since` against 1970-01-01 and `num_days`. Trusted: chrono
/// makes the date exactly when the day exists in a year of the calendar, and
/// the whole days of the duration are the signed days from 1970-01-01.
#[verifier::external_body]
fn days_from_civil(year: i32, month: u32, day: u32) -> (days: Option<i64>)
    ensures
        days == if valid_date(year as int, month as int, day as int) {
            Some(days_from_epoch(year as int, month as int, day as int) as i64)
        } else {
            None
        },
{
    let epoch = NaiveDate::from_ymd_opt(1970, 1, 1).unwrap();
    NaiveDate::from_ymd_opt(year, month, day).map(|date| date.signed_duration_since(epoch).num_days())
}

impl ExDate {
    /// The fields name a day of the calendar.
    pub open spec fn wf(self) -> bool {
        valid_date(self.year as int, self.month as int, self.day as int)
    }

    /// Signed days from 1970-01-01 to the day.
    pub open spec fn spec_days(self) -> int {
        days_from_epoch(self.year as int, self.month as int, self.day as int)
    }

    /// The day that lies `days` days from 1970-01-01.
    pub open spec fn spec_from_days(days: int) -> ExDate {
        let civil = civil_of_days(days);
        ExDate {
            calendar: Calendar::Iso,
            day: civil.2 as u32,
            month: civil.1 as u32,
            year: civil.0 as i32,
        }
    }

    /// What `to_days` returns.
    pub open spec fn spec_to_days(self) -> Result<i32, ExplorerError> {
        if self.wf() {
            Ok(self.spec_days() as i32)
        } else {
            Err(ExplorerError::InvalidDate { year: self.year, month: self.month, day: self.day })
        }
    }

    /// The day that lies `days` days from 1970-01-01.
    pub fn from_days(days: i32) -> (date: ExDate)
        requires
            MIN_DAYS <= days <= MAX_DAYS,
        ensures
            date == ExDate::spec_from_days(days as int),
            date.wf(),
            date.spec_days() == days,
    {
        let (year, month, day) = civil_from_days(days);
        proof {
            lemma_civil_of_days_unique(year as int, month as int, day as int);
        }
        ExDate { calendar: Calendar::Iso, day, month, year }
    }

    /// Signed days from 1970-01-01 to the day. Fields that name no day of the
    /// calendar are turned down, never moved to a day that exists.
    pub fn to_days(&self) -> (days: Result<i32, ExplorerError>)
        ensures
            days == self.spec_to_days(),
            self.wf() ==> days == Ok::<i32, ExplorerError>(self.spec_days() as i32) && MIN_DAYS
                <= self.spec_days() <= MAX_DAYS,
            !self.wf() ==> days is Err,
    {
        match days_from_civil(self.year, self.month, self.day) {
            Some(days) => {
                proof {
                    lemma_days_from_epoch_bounds(
                        self.year as int,
                        self.month as int,
                        self.day as int,
                    );
                }
                Ok(days as i32)
            },
            None => Err(
                ExplorerError::InvalidDate { year: self.year, month: self.month, day: self.day },
            ),
        }
    }
}

/// Calls `time64us_to_time` of polars-arrow and reads the chrono time with
/// `hour`, `minute` and `second`; the sub-second part is what
/// `signed_duration_since` and `num_microseconds` give against the same time
/// at its whole second. Trusted: for a count within one day the fields are
/// those of the time that lies that many microseconds after midnight.
#[verifier::external_body]
fn clock_from_micros(microseconds: i64) -> (parts: (u32, u32, u32, i64))
    requires
        0 <= microseconds < MICROSECONDS_PER_DAY,
    ensures
        parts.0 == microseconds / MICROSECONDS_PER_HOUR,
        parts.1 == (microseconds / MICROSECONDS_PER_MINUTE) % 60,
        parts.2 == (microseconds / MICROSECONDS_PER_SECOND) % 60,
        parts.3 == microseconds % MICROSECONDS_PER_SECOND,
{
    let time = time64us_to_time(microseconds);
    let whole = NaiveTime::from_hms_opt(time.hour(), time.minute(), time.second()).unwrap();
    let fraction = time.signed_duration_since(whole).num_microseconds().unwrap();
    (time.hour(), time.minute(), time.second(), fraction)
}

/// Calls `NaiveTime::from_hms_micro_opt` of chrono and, on the time it made,
/// `signed_duration_since` against midnight, then `num_microseconds` and
/// `num_milliseconds`. Trusted: chrono makes the time exactly when hour,
/// minute and second are in range (the sub-second part is, by `requires`); the
/// first count is the microseconds since midnight where a signed 64-bit count
/// holds them, the second the whole milliseconds of the same duration.
#[verifier::external_body]
fn micros_from_clock(hour: u32, minute: u32, second: u32, microsecond: u32) -> (counts: Option<
    (Option<i64>, i64),
>)
    requires
        microsecond <= MAX_MICROSECOND,
    ensures
        match counts {
            Some((micros, millis)) => {
                &&& valid_clock(hour as int, minute as int, second as int, microsecond as int)
                &&& micros == checked_micros(
                    clock_micros(hour as int, minute as int, second as int, microsecond as int),
                )
                &&& millis == whole_millis(
                    clock_micros(hour as int, minute as int, second as int, microsecond as int),
                )
            },
            None => !valid_clock(hour as int, minute as int, second as int, microsecond as int),
        },
{
    let midnight = NaiveTime::from_hms_opt(0, 0, 0).unwrap();
    let time = NaiveTime::from_hms_micro_opt(hour, minute, second, microsecond)?;
    let duration = time.signed_duration_since(midnight);
    Some((duration.num_microseconds(), duration.num_milliseconds()))
}

impl ExTime {
    /// The fields name a time of day, with at most six sub-second digits.
    pub open spec fn wf(self) -> bool {
        valid_clock(
            self.hour as int,
            self.minute as int,
            self.second as int,
            self.microsecond.0 as int,
        )
    }

    /// Microseconds from midnight to the time.
    pub open spec fn spec_micros(self) -> int {
        clock_micros(
            self.hour as int,
            self.minute as int,
            self.second as int,
            self.microsecond.0 as int,
        )
    }

    /// The time of day that lies `microseconds` after midnight.
    pub open spec fn spec_from_micros(microseconds: int) -> ExTime {
        ExTime {
            calendar: Calendar::Iso,
            hour: (microseconds / MICROSECONDS_PER_HOUR as int) as u32,
            minute: ((microseconds / MICROSECONDS_PER_MINUTE as int) % 60) as u32,
            second: ((microseconds / MICROSECONDS_PER_SECOND as int) % 60) as u32,
            microsecond: (
                (microseconds % MICROSECONDS_PER_SECOND as int) as u32,
                MICROSECOND_PRECISION,
            ),
        }
    }

    /// What `to_micros` returns.
    pub open spec fn spec_to_micros(self) -> Result<i64, ExplorerError> {
        if self.wf() {
            Ok(self.spec_micros() as i64)
        } else {
            Err(
                ExplorerError::InvalidTime {
                    hour: self.hour,
                    minute: self.minute,
                    second: self.second,
                    microsecond: self.microsecond.0,
                },
            )
        }
    }

    /// The time of day that lies `microseconds` after midnight.
    pub fn from_micros(microseconds: i64) -> (time: ExTime)
        requires
            0 <= microseconds < MICROSECONDS_PER_DAY,
        ensures
            time == ExTime::spec_from_micros(microseconds as int),
            time.wf(),
            time.spec_micros() == microseconds,
    {
        let (hour, minute, second, fraction) = clock_from_micros(microseconds);
        ExTime {
            calendar: Calendar::Iso,
            hour,
            minute,
            second,
            microsecond: (microseconds_six_digits(fraction as u32), MICROSECOND_PRECISION),
        }
    }

    /// Microseconds from midnight to the time. Fields that name no time of
    /// day, or a sub-second value above 999,999, are turned down.
    pub fn to_micros(&self) -> (micros: Result<i64, ExplorerError>)
        ensures
            micros == self.spec_to_micros(),
            self.wf() ==> micros == Ok::<i64, ExplorerError>(self.spec_micros() as i64) && 0
                <= self.spec_micros() < MICROSECONDS_PER_DAY,
            !self.wf() ==> micros is Err,
    {
        let invalid = ExplorerError::InvalidTime {
            hour: self.hour,
            minute: self.minute,
            second: self.second,
            microsecond: self.microsecond.0,
        };
        if self.microsecond.0 > MAX_MICROSECOND {
            return Err(invalid);
        }
        match micros_from_clock(self.hour, self.minute, self.second, self.microsecond.0) {
            Some((micros, millis)) => Ok(duration_micros(micros, millis)),
            None => Err(invalid),
        }
    }
}

/// Calls `DateTime::from_timestamp` of chrono, takes `naive_utc` of it and
/// reads `year`, `month`, `day`, `hour`, `minute`, `second` and
/// `timestamp_subsec_micros`. Trusted: for a second within the calendar and a
/// sub-second part below one second the moment exists; its day lies as many
/// days from 1970-01-01 as the seconds hold whole days, rounded towards
/// negative infinity; its time of day is the rest of the seconds; and the
/// sub-second value is the nanoseconds without what is below a microsecond.
#[verifier::external_body]
fn civil_from_timestamp(seconds: i64, nanoseconds: u32) -> (parts: (
    i32,
    u32,
    u32,
    u32,
    u32,
    u32,
    u32,
))
    requires
        MIN_TIMESTAMP_SECONDS <= seconds <= MAX_TIMESTAMP_SECONDS,
        nanoseconds < 1_000_000_000,
    ensures
        valid_date(parts.0 as int, parts.1 as int, parts.2 as int),
        days_from_epoch(parts.0 as int, parts.1 as int, parts.2 as int) == seconds as int
            / 86_400,
        parts.3 == (seconds as int % 86_400) / 3_600,
        parts.4 == ((seconds as int % 86_400) % 3_600) / 60,
        parts.5 == (seconds as int % 86_400) % 60,
        parts.6 == nanoseconds / 1_000,
{
    let moment = DateTime::from_timestamp(seconds, nanoseconds).unwrap().naive_utc();
    let fraction = moment.and_utc().timestamp_subsec_micros();
    (
        moment.year(),
        moment.month(),
        moment.day(),
        moment.hour(),
        moment.minute(),
        moment.second(),
        fraction,
    )
}

/// Calls `NaiveDate::from_ymd_opt` and `and_hms_micro_opt` of chrono and, on
/// the moment they made, `signed_duration_since` against
/// 1970-01-01T00:00:00, then `num_microseconds` and `num_milliseconds`.
/// Trusted: chrono makes the moment exactly when the day exists in a year of
/// the calendar and hour, minute and second are in range (the sub-second part
/// is, by `requires`); the first count is the microseconds since the epoch
/// where a signed 64-bit count holds them, the second the whole milliseconds
/// of the same duration, rounded towards zero.
#[verifier::external_body]
fn micros_from_civil(
    year: i32,
    month: u32,
    day: u32,
    hour: u32,
    minute: u32,
    second: u32,
    microsecond: u32,
) -> (counts: Option<(Option<i64>, i64)>)
    requires
        microsecond <= MAX_MICROSECOND,
    ensures
        match counts {
            Some((micros, millis)) => {
                &&& valid_date(year as int, month as int, day as int)
                &&& valid_clock(hour as int, minute as int, second as int, microsecond as int)
                &&& micros == checked_micros(
                    moment_micros(
                        year as int,
                        month as int,
                        day as int,
                        hour as int,
                        minute as int,
                        second as int,
                        microsecond as int,
                    ),
                )
                &&& millis == whole_millis(
                    moment_micros(
                        year as int,
                        month as int,
                        day as int,
                        hour as int,
                        minute as int,
                        second as int,
                        microsecond as int,
                    ),
                )
            },
            None => !(valid_date(year as int, month as int, day as int) && valid_clock(
                hour as int,
                minute as int,
                second as int,
                microsecond as int,
            )),
        },
{
    let epoch = NaiveDate::from_ymd_opt(1970, 1, 1).unwrap().and_hms_opt(0, 0, 0).unwrap();
    let date = NaiveDate::from_ymd_opt(year, month, day)?;
    let moment = date.and_hms_micro_opt(hour, minute, second, microsecond)?;
    let duration = moment.signed_duration_since(epoch);
    Some((duration.num_microseconds(), duration.num_milliseconds()))
}

/// Microseconds from 1970-01-01T00:00:00 to the moment.
pub open spec fn moment_micros(
    year: int,
    month: int,
    day: int,
    hour: int,
    minute: int,
    second: int,
    microsecond: int,
) -> int {
    days_from_epoch(year, month, day) * MICROSECONDS_PER_DAY + clock_micros(
        hour,
        minute,
        second,
        microsecond,
    )
}

/// Every moment of the calendar lies within the span of microseconds that the
/// two bounds give, and so within a signed 64-bit count.
pub proof fn lemma_moment_micros_bounds(
    year: int,
    month: int,
    day: int,
    hour: int,
    minute: int,
    second: int,
    microsecond: int,
)
    requires
        valid_date(year, month, day),
        valid_clock(hour, minute, second, microsecond),
    ensures
        MIN_TIMESTAMP_MICROS <= moment_micros(year, month, day, hour, minute, second, microsecond)
            <= MAX_TIMESTAMP_MICROS,
{
    lemma_days_from_epoch_bounds(year, month, day);
}

impl ExDateTime {
    /// The fields name a day of the calendar and a time of that day, with at
    /// most six sub-second digits.
    pub open spec fn wf(self) -> bool {
        &&& valid_date(self.year as int, self.month as int, self.day as int)
        &&& valid_clock(
            self.hour as int,
            self.minute as int,
            self.second as int,
            self.microsecond.0 as int,
        )
    }

    /// Microseconds from 1970-01-01T00:00:00 to the moment.
    pub open spec fn spec_micros(self) -> int {
        moment_micros(
            self.year as int,
            self.month as int,
            self.day as int,
            self.hour as int,
            self.minute as int,
            self.second as int,
            self.microsecond.0 as int,
        )
    }

    /// The moment that lies `microseconds` from 1970-01-01T00:00:00. The
    /// count is split into whole seconds, rounded towards negative infinity,
    /// and a remainder that is never negative; the seconds are split into
    /// whole days and the second of the day in the same way.
    pub open spec fn spec_from_micros(microseconds: int) -> ExDateTime {
        let seconds = microseconds / 1_000_000;
        let civil = civil_of_days(seconds / 86_400);
        let second_of_day = seconds % 86_400;
        ExDateTime {
            calendar: Calendar::Iso,
            day: civil.2 as u32,
            month: civil.1 as u32,
            year: civil.0 as i32,
            hour: (second_of_day / 3_600) as u32,
            minute: ((second_of_day % 3_600) / 60) as u32,
            second: (second_of_day % 60) as u32,
            microsecond: ((microseconds % 1_000_000) as u32, MICROSECOND_PRECISION),
        }
    }

    /// What `to_micros` returns.
    pub open spec fn spec_to_micros(self) -> Result<i64, ExplorerError> {
        if !valid_date(self.year as int, self.month as int, self.day as int) {
            Err(ExplorerError::InvalidDate { year: self.year, month: self.month, day: self.day })
        } else if !self.wf() {
            Err(
                ExplorerError::InvalidTime {
                    hour: self.hour,
                    minute: self.minute,
                    second: self.second,
                    microsecond: self.microsecond.0,
                },
            )
        } else {
            Ok(self.spec_micros() as i64)
        }
    }

    /// Signed microseconds from 1970-01-01T00:00:00 to the moment. Fields
    /// that name no day of the calendar are turned down as a date, fields
    /// that name no time of day, or a sub-second value above 999,999, as a
    /// time.
    pub fn to_micros(&self) -> (micros: Result<i64, ExplorerError>)
        ensures
            micros == self.spec_to_micros(),
            self.wf() ==> micros == Ok::<i64, ExplorerError>(self.spec_micros() as i64)
                && MIN_TIMESTAMP_MICROS <= self.spec_micros() <= MAX_TIMESTAMP_MICROS,
            !self.wf() ==> micros is Err,
    {
        if days_from_civil(self.year, self.month, self.day).is_none() {
            return Err(
                ExplorerError::InvalidDate { year: self.year, month: self.month, day: self.day },
            );
        }
        let invalid = ExplorerError::InvalidTime {
            hour: self.hour,
            minute: self.minute,
            second: self.second,
            microsecond: self.microsecond.0,
        };
        if self.microsecond.0 > MAX_MICROSECOND {
            return Err(invalid);
        }
        match micros_from_civil(
            self.year,
            self.month,
            self.day,
            self.hour,
            self.minute,
            self.second,
            self.microsecond.0,
        ) {
            Some((micros, millis)) => {
                proof {
                    lemma_moment_micros_bounds(
                        self.year as int,
                        self.month as int,
                        self.day as int,
                        self.hour as int,
                        self.minute as int,
                        self.second as int,
                        self.microsecond.0 as int,
                    );
                }
                Ok(duration_micros(micros, millis))
            },
            None => Err(invalid),
        }
    }
}

/// The moment that lies `microseconds` from 1970-01-01T00:00:00, before it
/// where the count is negative. One microsecond before the epoch is
/// 1969-12-31T23:59:59.999999.
pub fn timestamp_to_datetime(microseconds: i64) -> (moment: ExDateTime)
    requires
        MIN_TIMESTAMP_MICROS <= microseconds <= MAX_TIMESTAMP_MICROS,
    ensures
        moment == ExDateTime::spec_from_micros(microseconds as int),
        moment.wf(),
        moment.spec_micros() == microseconds,
{
    let (seconds, remainder) = split_microseconds(microseconds);
    let nanoseconds: u32 = remainder * 1_000;
    let (year, month, day, hour, minute, second, fraction) = civil_from_timestamp(
        seconds,
        nanoseconds,
    );
    proof {
        lemma_civil_of_days_unique(year as int, month as int, day as int);
    }
    ExDateTime {
        calendar: Calendar::Iso,
        day,
        month,
        year,
        hour,
        minute,
        second,
        microsecond: (microseconds_six_digits(fraction), MICROSECOND_PRECISION),
    }
}

/// Days, there and back: every count of days within the calendar names a day
/// that exists, and the days of that day are the count.
pub proof fn law_days_round_trip(days: int)
    requires
        MIN_DAYS <= days <= MAX_DAYS,
    ensures
        ExDate::spec_from_days(days).wf(),
        ExDate::spec_from_days(days).spec_to_days() == Ok::<i32, ExplorerError>(days as i32),
{
    lemma_civil_of_days(days);
    assert(is_civil_of(civil_of_days(days), days));
}

/// Dates, there and back: the day named for the days of a day that exists is
/// that day.
pub proof fn law_date_round_trip(date: ExDate)
    requires
        date.wf(),
    ensures
        MIN_DAYS <= date.spec_days() <= MAX_DAYS,
        date.spec_to_days() == Ok::<i32, ExplorerError>(date.spec_days() as i32),
        ExDate::spec_from_days(date.spec_days()) == date,
{
    lemma_days_from_epoch_bounds(date.year as int, date.month as int, date.day as int);
    lemma_civil_of_days_unique(date.year as int, date.month as int, date.day as int);
}

/// Times of day, there and back: every count of microseconds within one day
/// names a time of day, and the microseconds of that time are the count.
pub proof fn law_time_micros_round_trip(microseconds: int)
    requires
        0 <= microseconds < MICROSECONDS_PER_DAY,
    ensures
        ExTime::spec_from_micros(microseconds).wf(),
        ExTime::spec_from_micros(microseconds).spec_to_micros() == Ok::<i64, ExplorerError>(
            microseconds as i64,
        ),
{
}

/// Times of day, there and back: the time named for the microseconds of a
/// time of day, written with six sub-second digits, is that time.
pub proof fn law_time_round_trip(time: ExTime)
    requires
        time.wf(),
        time.microsecond.1 == MICROSECOND_PRECISION,
    ensures
        0 <= time.spec_micros() < MICROSECONDS_PER_DAY,
        time.spec_to_micros() == Ok::<i64, ExplorerError>(time.spec_micros() as i64),
        ExTime::spec_from_micros(time.spec_micros()) == time,
{
    let micros = time.spec_micros();
    let hour = time.hour as int;
    let minute = time.minute as int;
    let second = time.second as int;
    let fraction = time.microsecond.0 as int;
    lemma_fundamental_div_mod_converse(
        micros,
        1_000_000,
        hour * 3_600 + minute * 60 + second,
        fraction,
    );
    lemma_fundamental_div_mod_converse(
        micros,
        60_000_000,
        hour * 60 + minute,
        second * 1_000_000 + fraction,
    );
    lemma_fundamental_div_mod_converse(
        micros,
        3_600_000_000,
        hour,
        minute * 60_000_000 + second * 1_000_000 + fraction,
    );
    lemma_fundamental_div_mod_converse(hour * 3_600 + minute * 60 + second, 60, hour * 60 + minute, second);
    lemma_fundamental_div_mod_converse(hour * 60 + minute, 60, hour, minute);
}

/// Moments, there and back: every count of microseconds within the calendar,
/// negative ones too, names a moment, and the microseconds of that moment are
/// the count.
pub proof fn law_datetime_micros_round_trip(microseconds: int)
    requires
        MIN_TIMESTAMP_MICROS <= microseconds <= MAX_TIMESTAMP_MICROS,
    ensures
        ExDateTime::spec_from_micros(microseconds).wf(),
        ExDateTime::spec_from_micros(microseconds).spec_to_micros() == Ok::<i64, ExplorerError>(
            microseconds as i64,
        ),
{
    let seconds = microseconds / 1_000_000;
    let days = seconds / 86_400;
    lemma_civil_of_days(days);
    assert(is_civil_of(civil_of_days(days), days));
}

/// Moments, there and back: the moment named for the microseconds of a
/// moment of the calendar, written with six sub-second digits, is that moment.
pub proof fn law_datetime_round_trip(moment: ExDateTime)
    requires
        moment.wf(),
        moment.microsecond.1 == MICROSECOND_PRECISION,
    ensures
        MIN_TIMESTAMP_MICROS <= moment.spec_micros() <= MAX_TIMESTAMP_MICROS,
        moment.spec_to_micros() == Ok::<i64, ExplorerError>(moment.spec_micros() as i64),
        ExDateTime::spec_from_micros(moment.spec_micros()) == moment,
{
    lemma_moment_micros_bounds(
        moment.year as int,
        moment.month as int,
        moment.day as int,
        moment.hour as int,
        moment.minute as int,
        moment.second as int,
        moment.microsecond.0 as int,
    );
    lemma_civil_of_days_unique(moment.year as int, moment.month as int, moment.day as int);
}

/// No sub-second value that leaves this module exceeds 999,999, and each is
/// written with six digits: what lies below a microsecond is cut off, not
/// rounded.
pub proof fn law_six_digit_precision(microseconds: int)
    ensures
        ExDateTime::spec_from_micros(microseconds).microsecond.0 <= MAX_MICROSECOND,
        ExDateTime::spec_from_micros(microseconds).microsecond.0 == microseconds % 1_000_000,
        ExDateTime::spec_from_micros(microseconds).microsecond.1 == MICROSECOND_PRECISION,
        ExTime::spec_from_micros(microseconds).microsecond.0 <= MAX_MICROSECOND,
        ExTime::spec_from_micros(microseconds).microsecond.1 == MICROSECOND_PRECISION,
{
}

} // verus!
