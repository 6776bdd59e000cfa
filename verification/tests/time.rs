use chrono::DateTime;
use hyle_indexer::narrow::{u32_to_i32, u64_to_i64, usize_to_i32, usize_to_i64};
use hyle_indexer::time::{date_time_of, into_utc_date_time, timestamp_or, TimestampError};

#[test]
fn a_timestamp_is_read_as_a_date_in_utc() {
    let read = into_utc_date_time(&1_000_000_000_555).unwrap();
    assert_eq!(read, DateTime::from_timestamp_millis(1_000_000_000_555).unwrap().naive_utc());
    assert_eq!(read.to_string(), "2001-09-09 01:46:40.555");
    assert_eq!(into_utc_date_time(&0).unwrap().to_string(), "1970-01-01 00:00:00");
}

#[test]
fn a_timestamp_beyond_the_signed_range_is_too_large() {
    assert_eq!(into_utc_date_time(&(i64::MAX as u64 + 1)), Err(TimestampError::TooLarge));
    assert_eq!(into_utc_date_time(&u64::MAX), Err(TimestampError::TooLarge));
}

#[test]
fn a_timestamp_beyond_the_calendar_is_out_of_range() {
    assert_eq!(into_utc_date_time(&(i64::MAX as u64)), Err(TimestampError::OutOfRange));
}

#[test]
fn a_missing_date_is_out_of_range() {
    assert_eq!(date_time_of(None), Err(TimestampError::OutOfRange));
    let made = DateTime::from_timestamp_millis(5).unwrap().naive_utc();
    assert_eq!(date_time_of(Some(made)), Ok(made));
}

#[test]
fn the_fallback_is_used_only_for_errors() {
    let own = DateTime::from_timestamp_millis(5).unwrap().naive_utc();
    let fallback = DateTime::from_timestamp_millis(9).unwrap().naive_utc();
    assert_eq!(timestamp_or(Ok(own), fallback), own);
    assert_eq!(timestamp_or(Err(TimestampError::TooLarge), fallback), fallback);
    assert_eq!(timestamp_or(Err(TimestampError::OutOfRange), fallback), fallback);
}

#[test]
fn numbers_that_fit_are_kept_and_others_become_zero() {
    assert_eq!(u64_to_i64(0), 0);
    assert_eq!(u64_to_i64(i64::MAX as u64), i64::MAX);
    assert_eq!(u64_to_i64(i64::MAX as u64 + 1), 0);
    assert_eq!(u32_to_i32(17), 17);
    assert_eq!(u32_to_i32(i32::MAX as u32), i32::MAX);
    assert_eq!(u32_to_i32(u32::MAX), 0);
    assert_eq!(usize_to_i32(17), 17);
    assert_eq!(usize_to_i32(i32::MAX as usize), i32::MAX);
    assert_eq!(usize_to_i32(i32::MAX as usize + 1), 0);
    assert_eq!(usize_to_i64(17), 17);
    assert_eq!(usize_to_i64(usize::MAX), 0);
}
