use crate::model::TimestampMs;
use vstd::prelude::*;

verus! {

/// chrono's date and time without a time zone, `chrono::NaiveDateTime`: the
/// library carries such values, read as UTC, and never looks inside them.
#[verifier::external_type_specification]
#[verifier::external_body]
pub struct ExNaiveDateTime(chrono::NaiveDateTime);

/// The UTC date and time that chrono makes of a number of milliseconds since
/// the Unix epoch, where it can represent it.
pub uninterp spec fn utc_from_millis(millis: i64) -> Option<chrono::NaiveDateTime>;

/// Why a timestamp of the ledger is no date and time.
#[derive(Clone, Copy, Debug, PartialEq, Eq, Structural)]
pub enum TimestampError {
    /// The number of milliseconds does not fit a signed 64-bit integer.
    TooLarge,
    /// The number of milliseconds is beyond the dates that can be represented.
    OutOfRange,
}

/// Calls `chrono::DateTime::from_timestamp_millis` and takes the date and
/// time, in UTC, out of the answer. The contract claims that the answer is a
/// function of `millis` alone, and no more: for which numbers there is a
/// date is chrono's to say.
#[verifier::external_body]
fn date_time_from_millis(millis: i64) -> (r: Option<chrono::NaiveDateTime>)
    ensures
        r == utc_from_millis(millis),
{
    match chrono::DateTime::from_timestamp_millis(millis) {
        Some(at) => Some(at.naive_utc()),
        None => None,
    }
}

/// The date and time of a timestamp of the ledger.
pub open spec fn utc_date_time(ts: TimestampMs) -> Result<chrono::NaiveDateTime, TimestampError> {
    if ts > i64::MAX {
        Err(TimestampError::TooLarge)
    } else {
        match utc_from_millis(ts as i64) {
            Some(at) => Ok(at),
            None => Err(TimestampError::OutOfRange),
        }
    }
}

/// Reads a timestamp of the ledger as a date and time in UTC.
pub fn into_utc_date_time(ts: &TimestampMs) -> (r: Result<chrono::NaiveDateTime, TimestampError>)
    ensures
        r == utc_date_time(*ts),
{
    if *ts > 0x7fff_ffff_ffff_ffff {
        return Err(TimestampError::TooLarge);
    }
    let millis: i64 = *ts as i64;
    date_time_of(date_time_from_millis(millis))
}

/// What a date and time that chrono made, or did not make, stands for.
pub fn date_time_of(made: Option<chrono::NaiveDateTime>) -> (r: Result<
    chrono::NaiveDateTime,
    TimestampError,
>)
    ensures
        r == match made {
            Some(at) => Ok::<chrono::NaiveDateTime, TimestampError>(at),
            None => Err(TimestampError::OutOfRange),
        },
{
    match made {
        Some(at) => Ok(at),
        None => Err(TimestampError::OutOfRange),
    }
}

/// The date and time to store for a block: its own where it has one, else
/// `fallback`.
pub open spec fn stored_time(
    read: Result<chrono::NaiveDateTime, TimestampError>,
    fallback: chrono::NaiveDateTime,
) -> chrono::NaiveDateTime {
    match read {
        Ok(at) => at,
        Err(_) => fallback,
    }
}

/// The date and time to store for a block: its own where it has one, else
/// `fallback`.
pub fn timestamp_or(
    read: Result<chrono::NaiveDateTime, TimestampError>,
    fallback: chrono::NaiveDateTime,
) -> (r: chrono::NaiveDateTime)
    ensures
        r == stored_time(read, fallback),
{
    match read {
        Ok(at) => at,
        Err(_) => fallback,
    }
}

} // verus!
