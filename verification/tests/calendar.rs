use explorer::calendar::{
    duration_micros, microseconds_six_digits, split_microseconds, timestamp_to_datetime, Calendar,
    ExDate, ExDateTime, ExTime, MAX_TIMESTAMP_MICROS, MICROSECONDS_PER_DAY, MIN_TIMESTAMP_MICROS,
};
use explorer::error::ExplorerError;
use explorer::gregorian::{MAX_DAYS, MIN_DAYS};

fn date(year: i32, month: u32, day: u32) -> ExDate {
    ExDate { calendar: Calendar::Iso, day, month, year }
}

fn time(hour: u32, minute: u32, second: u32, microsecond: u32) -> ExTime {
    ExTime { calendar: Calendar::Iso, hour, minute, second, microsecond: (microsecond, 6) }
}

fn moment(
    year: i32,
    month: u32,
    day: u32,
    hour: u32,
    minute: u32,
    second: u32,
    microsecond: u32,
) -> ExDateTime {
    ExDateTime {
        calendar: Calendar::Iso,
        day,
        month,
        year,
        hour,
        minute,
        second,
        microsecond: (microsecond, 6),
    }
}

#[test]
fn negative_timestamp_is_before_the_epoch() {
    assert_eq!(timestamp_to_datetime(-1), moment(1969, 12, 31, 23, 59, 59, 999_999));
}

#[test]
fn whole_negative_second_has_no_fraction() {
    assert_eq!(timestamp_to_datetime(-1_000_000), moment(1969, 12, 31, 23, 59, 59, 0));
    assert_eq!(timestamp_to_datetime(-1_000_001), moment(1969, 12, 31, 23, 59, 58, 999_999));
    assert_eq!(timestamp_to_datetime(-86_400_000_000), moment(1969, 12, 31, 0, 0, 0, 0));
}

#[test]
fn epoch_day_is_day_zero() {
    assert_eq!(ExDate::from_days(0), date(1970, 1, 1));
    assert_eq!(date(1970, 1, 1).to_days(), Ok(0));
}

#[test]
fn known_days_have_their_dates() {
    assert_eq!(ExDate::from_days(11_017), date(2000, 3, 1));
    assert_eq!(ExDate::from_days(-1), date(1969, 12, 31));
    assert_eq!(ExDate::from_days(-719_162), date(1, 1, 1));
    assert_eq!(ExDate::from_days(-719_163), date(0, 12, 31));
    assert_eq!(ExDate::from_days(19_782), date(2024, 2, 29));
    assert_eq!(date(2000, 3, 1).to_days(), Ok(11_017));
    assert_eq!(date(0, 12, 31).to_days(), Ok(-719_163));
    assert_eq!(date(-4, 2, 29).to_days(), Ok(-720_930));
}

#[test]
fn first_and_last_day_of_the_calendar() {
    assert_eq!(ExDate::from_days(MIN_DAYS), date(-262_143, 1, 1));
    assert_eq!(ExDate::from_days(MAX_DAYS), date(262_142, 12, 31));
    assert_eq!(date(-262_143, 1, 1).to_days(), Ok(MIN_DAYS));
    assert_eq!(date(262_142, 12, 31).to_days(), Ok(MAX_DAYS));
}

#[test]
fn days_go_there_and_back() {
    let counts = [MIN_DAYS, -1_000_000, -719_163, -366, -1, 0, 1, 58, 59, 60, 365, 11_016, 19_782, MAX_DAYS];
    for days in counts {
        assert_eq!(ExDate::from_days(days).to_days(), Ok(days));
    }
    let mut days = -800;
    while days <= 800 {
        assert_eq!(ExDate::from_days(days).to_days(), Ok(days));
        days += 1;
    }
}

#[test]
fn dates_go_there_and_back() {
    for value in [date(1970, 1, 1), date(2024, 2, 29), date(1900, 2, 28), date(-1, 6, 15)] {
        assert_eq!(ExDate::from_days(value.to_days().unwrap()), value);
    }
}

#[test]
fn days_that_do_not_exist_are_turned_down() {
    let invalid = |year, month, day| Err(ExplorerError::InvalidDate { year, month, day });
    assert_eq!(date(2023, 4, 31).to_days(), invalid(2023, 4, 31));
    assert_eq!(date(2023, 2, 29).to_days(), invalid(2023, 2, 29));
    assert_eq!(date(1900, 2, 29).to_days(), invalid(1900, 2, 29));
    assert_eq!(date(2023, 1, 32).to_days(), invalid(2023, 1, 32));
    assert_eq!(date(2023, 0, 1).to_days(), invalid(2023, 0, 1));
    assert_eq!(date(2023, 13, 1).to_days(), invalid(2023, 13, 1));
    assert_eq!(date(2023, 1, 0).to_days(), invalid(2023, 1, 0));
    assert_eq!(date(262_143, 1, 1).to_days(), invalid(262_143, 1, 1));
    assert_eq!(date(-262_144, 12, 31).to_days(), invalid(-262_144, 12, 31));
    assert_eq!(date(2000, 2, 29).to_days(), Ok(11_016));
}

#[test]
fn time_of_day_from_microseconds() {
    assert_eq!(ExTime::from_micros(0), time(0, 0, 0, 0));
    assert_eq!(ExTime::from_micros(1), time(0, 0, 0, 1));
    assert_eq!(ExTime::from_micros(3_723_000_004), time(1, 2, 3, 4));
    assert_eq!(ExTime::from_micros(MICROSECONDS_PER_DAY - 1), time(23, 59, 59, 999_999));
}

#[test]
fn times_go_there_and_back() {
    for micros in [0, 1, 999_999, 1_000_000, 59_999_999, 60_000_000, 3_600_000_000, 86_399_999_999] {
        assert_eq!(ExTime::from_micros(micros).to_micros(), Ok(micros));
    }
    for value in [time(0, 0, 0, 0), time(12, 30, 15, 250_000), time(23, 59, 59, 999_999)] {
        assert_eq!(ExTime::from_micros(value.to_micros().unwrap()), value);
    }
    assert_eq!(time(1, 2, 3, 4).to_micros(), Ok(3_723_000_004));
}

#[test]
fn times_that_do_not_exist_are_turned_down() {
    let invalid = |hour, minute, second, microsecond| {
        Err(ExplorerError::InvalidTime { hour, minute, second, microsecond })
    };
    assert_eq!(time(24, 0, 0, 0).to_micros(), invalid(24, 0, 0, 0));
    assert_eq!(time(0, 60, 0, 0).to_micros(), invalid(0, 60, 0, 0));
    assert_eq!(time(0, 0, 60, 0).to_micros(), invalid(0, 0, 60, 0));
    assert_eq!(time(0, 0, 0, 1_000_000).to_micros(), invalid(0, 0, 0, 1_000_000));
    assert_eq!(time(23, 59, 59, 1_500_000).to_micros(), invalid(23, 59, 59, 1_500_000));
}

#[test]
fn moments_from_microseconds() {
    assert_eq!(timestamp_to_datetime(0), moment(1970, 1, 1, 0, 0, 0, 0));
    assert_eq!(timestamp_to_datetime(1), moment(1970, 1, 1, 0, 0, 0, 1));
    assert_eq!(
        timestamp_to_datetime(1_700_000_000_123_456),
        moment(2023, 11, 14, 22, 13, 20, 123_456)
    );
    assert_eq!(timestamp_to_datetime(MIN_TIMESTAMP_MICROS), moment(-262_143, 1, 1, 0, 0, 0, 0));
    assert_eq!(
        timestamp_to_datetime(MAX_TIMESTAMP_MICROS),
        moment(262_142, 12, 31, 23, 59, 59, 999_999)
    );
}

#[test]
fn moments_go_there_and_back() {
    let counts = [
        MIN_TIMESTAMP_MICROS,
        -86_400_000_001,
        -86_400_000_000,
        -1_000_001,
        -1_000_000,
        -999_999,
        -1,
        0,
        1,
        999_999,
        1_000_000,
        1_700_000_000_123_456,
        MAX_TIMESTAMP_MICROS,
    ];
    for micros in counts {
        assert_eq!(timestamp_to_datetime(micros).to_micros(), Ok(micros));
    }
    for value in [moment(1969, 12, 31, 23, 59, 59, 999_999), moment(2024, 2, 29, 12, 0, 0, 5)] {
        assert_eq!(timestamp_to_datetime(value.to_micros().unwrap()), value);
    }
}

#[test]
fn moments_that_do_not_exist_are_turned_down() {
    assert_eq!(
        moment(2023, 4, 31, 0, 0, 0, 0).to_micros(),
        Err(ExplorerError::InvalidDate { year: 2023, month: 4, day: 31 })
    );
    assert_eq!(
        moment(2023, 4, 30, 24, 0, 0, 0).to_micros(),
        Err(ExplorerError::InvalidTime { hour: 24, minute: 0, second: 0, microsecond: 0 })
    );
    assert_eq!(
        moment(2023, 4, 30, 23, 59, 59, 1_000_000).to_micros(),
        Err(ExplorerError::InvalidTime { hour: 23, minute: 59, second: 59, microsecond: 1_000_000 })
    );
    assert_eq!(
        moment(2023, 2, 30, 25, 0, 0, 0).to_micros(),
        Err(ExplorerError::InvalidDate { year: 2023, month: 2, day: 30 })
    );
}

#[test]
fn sub_second_value_has_six_digits_at_most() {
    assert_eq!(microseconds_six_digits(0), 0);
    assert_eq!(microseconds_six_digits(999_999), 999_999);
    assert_eq!(microseconds_six_digits(1_000_000), 999_999);
    assert_eq!(microseconds_six_digits(1_999_999), 999_999);
    assert_eq!(microseconds_six_digits(u32::MAX), 999_999);
    assert_eq!(timestamp_to_datetime(-1).microsecond, (999_999, 6));
    assert_eq!(ExTime::from_micros(86_399_999_999).microsecond, (999_999, 6));
}

#[test]
fn microseconds_split_towards_negative_infinity() {
    assert_eq!(split_microseconds(0), (0, 0));
    assert_eq!(split_microseconds(1), (0, 1));
    assert_eq!(split_microseconds(1_000_000), (1, 0));
    assert_eq!(split_microseconds(1_999_999), (1, 999_999));
    assert_eq!(split_microseconds(-1), (-1, 999_999));
    assert_eq!(split_microseconds(-999_999), (-1, 1));
    assert_eq!(split_microseconds(-1_000_000), (-1, 0));
    assert_eq!(split_microseconds(-1_000_001), (-2, 999_999));
    assert_eq!(split_microseconds(i64::MAX), (9_223_372_036_854, 775_807));
    assert_eq!(split_microseconds(i64::MIN), (-9_223_372_036_855, 224_192));
}

#[test]
fn duration_falls_back_to_milliseconds() {
    assert_eq!(duration_micros(Some(5), 7), 5);
    assert_eq!(duration_micros(Some(-1_500), -1), -1_500);
    assert_eq!(duration_micros(None, 7), 7_000);
    assert_eq!(duration_micros(None, -9_223_372_036_854_775), -9_223_372_036_854_775_000);
}
