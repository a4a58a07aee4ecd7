//! The boot time stamp (eight BCD bytes, UTC) and the timezone offset.
use chrono::{FixedOffset, NaiveDate, NaiveTime};
use vstd::prelude::*;

verus! {

/// A calendar date and time of day in UTC, as decoded from the boot time stamp.
#[derive(Clone, Copy, Debug, PartialEq, Eq, Structural)]
pub struct BootDateTime {
    pub year: i32,
    pub month: u32,
    pub day: u32,
    pub hour: u32,
    pub minute: u32,
    pub second: u32,
    pub millisecond: u32,
}

/// Why a time stamp could not be decoded.
#[derive(Clone, Copy, Debug, PartialEq, Eq, Structural)]
pub enum DateTimeError {
    /// A byte is not two BCD digits, or the digits name no calendar instant.
    MalformedTimestamp,
}

/// An offset from UTC, in seconds east of Greenwich.
#[derive(Clone, Copy, Debug, PartialEq, Eq, Structural)]
pub struct UtcOffset {
    pub seconds_east: i32,
}

/// Both nibbles of `b` are decimal digits.
pub open spec fn is_bcd(b: u8) -> bool {
    b / 16 <= 9 && b % 16 <= 9
}

/// The number 0 to 99 that a BCD byte spells.
pub open spec fn bcd_value(b: u8) -> int {
    (b / 16) * 10 + b % 16
}

/// Leap years of the proleptic Gregorian calendar.
pub open spec fn is_leap_year(y: int) -> bool {
    (y % 4 == 0 && y % 100 != 0) || y % 400 == 0
}

/// Number of days in month `m` (1 to 12) of year `y`, proleptic Gregorian.
pub open spec fn days_in_month(y: int, m: int) -> int {
    if m == 2 {
        if is_leap_year(y) { 29 } else { 28 }
    } else if m == 4 || m == 6 || m == 9 || m == 11 {
        30
    } else {
        31
    }
}

/// Day `d` of month `m` exists in year `y`.
pub open spec fn calendar_date_valid(y: int, m: int, d: int) -> bool {
    1 <= m <= 12 && 1 <= d <= days_in_month(y, m)
}

/// Hours, minutes and seconds name a time of day (no leap second).
pub open spec fn time_of_day_valid(h: int, m: int, s: int) -> bool {
    0 <= h < 24 && 0 <= m < 60 && 0 <= s < 60
}

/// Every byte of the time stamp is BCD.
pub open spec fn all_bcd(raw: Seq<u8>) -> bool {
    forall|i: int| 0 <= i < raw.len() ==> #[trigger] is_bcd(raw[i])
}

/// The fields that the eight time stamp bytes spell: year from the first two
/// bytes, then month, day, hour, minute, second, and hundredths of a second
/// scaled to milliseconds.
pub open spec fn decoded_datetime(raw: Seq<u8>) -> BootDateTime {
    BootDateTime {
        year: (bcd_value(raw[0]) * 100 + bcd_value(raw[1])) as i32,
        month: bcd_value(raw[2]) as u32,
        day: bcd_value(raw[3]) as u32,
        hour: bcd_value(raw[4]) as u32,
        minute: bcd_value(raw[5]) as u32,
        second: bcd_value(raw[6]) as u32,
        millisecond: (bcd_value(raw[7]) * 10) as u32,
    }
}

/// The time stamp is BCD throughout and names an existing date and time of day.
pub open spec fn timestamp_well_formed(raw: Seq<u8>) -> bool {
    &&& raw.len() == 8
    &&& all_bcd(raw)
    &&& calendar_date_valid(
        bcd_value(raw[0]) * 100 + bcd_value(raw[1]),
        bcd_value(raw[2]),
        bcd_value(raw[3]),
    )
    &&& time_of_day_valid(bcd_value(raw[4]), bcd_value(raw[5]), bcd_value(raw[6]))
}

/// The offset, if any, that a timezone field of `minutes` east of UTC gives.
pub open spec fn offset_of_minutes(minutes: i16) -> Option<UtcOffset> {
    if -1440 < minutes < 1440 {
        Some(UtcOffset { seconds_east: (minutes * 60) as i32 })
    } else {
        None
    }
}

/// Relies on chrono's `NaiveDate::from_ymd_opt`: it gives a date exactly when
/// month and day are valid for the year in the proleptic Gregorian calendar
/// (years 0 to 9999 lie well inside chrono's range).
#[verifier::external_body]
fn date_exists(year: i32, month: u32, day: u32) -> (r: bool)
    requires
        0 <= year <= 9999,
    ensures
        r == calendar_date_valid(year as int, month as int, day as int),
{
    NaiveDate::from_ymd_opt(year, month, day).is_some()
}

/// Relies on chrono's `NaiveTime::from_hms_milli_opt`: below 1000 ms it gives a
/// time exactly when hour < 24, minute < 60 and second < 60.
#[verifier::external_body]
fn time_exists(hour: u32, minute: u32, second: u32, milli: u32) -> (r: bool)
    requires
        milli < 1000,
    ensures
        r == time_of_day_valid(hour as int, minute as int, second as int),
{
    NaiveTime::from_hms_milli_opt(hour, minute, second, milli).is_some()
}

/// Relies on chrono's `FixedOffset::east_opt`: it accepts an offset exactly
/// when it lies strictly between -86400 and 86400 seconds.
#[verifier::external_body]
fn offset_accepted(seconds: i32) -> (r: bool)
    ensures
        r == (-86400 < seconds < 86400),
{
    FixedOffset::east_opt(seconds).is_some()
}

/// The number a BCD byte spells, or `None` when a nibble is above 9.
pub fn bcd_to_number(b: u8) -> (r: Option<u32>)
    ensures
        r == (if is_bcd(b) { Some(bcd_value(b) as u32) } else { None::<u32> }),
        is_bcd(b) ==> 0 <= bcd_value(b) <= 99,
{
    let hi: u8 = b / 16;
    let lo: u8 = b % 16;
    if hi <= 9 && lo <= 9 {
        Some((hi as u32) * 10 + lo as u32)
    } else {
        None
    }
}

/// Decodes the eight BCD bytes of a boot time stamp into a UTC date and time.
/// Fails when a byte is not BCD or the digits name no existing instant.
pub fn decode_datetime(raw: [u8; 8]) -> (r: Result<BootDateTime, DateTimeError>)
    ensures
        r == (if timestamp_well_formed(raw@) {
            Ok::<BootDateTime, DateTimeError>(decoded_datetime(raw@))
        } else {
            Err::<BootDateTime, DateTimeError>(DateTimeError::MalformedTimestamp)
        }),
{
    let mut digits: Vec<u32> = Vec::new();
    let mut i: usize = 0;
    while i < 8
        invariant
            i <= 8,
            digits@.len() == i,
            forall|j: int| 0 <= j < i ==> is_bcd(#[trigger] raw@[j]),
            forall|j: int| 0 <= j < i ==> digits@[j] == bcd_value(#[trigger] raw@[j]),
            forall|j: int| 0 <= j < i ==> #[trigger] digits@[j] <= 99,
        decreases 8 - i,
    {
        match bcd_to_number(raw[i]) {
            Some(v) => {
                assert(v <= 99);
                digits.push(v);
            },
            None => {
                return Err(DateTimeError::MalformedTimestamp);
            },
        }
        i = i + 1;
    }
    assert(all_bcd(raw@));
    let year: i32 = (digits[0] * 100 + digits[1]) as i32;
    let month: u32 = digits[2];
    let day: u32 = digits[3];
    let hour: u32 = digits[4];
    let minute: u32 = digits[5];
    let second: u32 = digits[6];
    let millisecond: u32 = digits[7] * 10;
    if !date_exists(year, month, day) || !time_exists(hour, minute, second, millisecond) {
        return Err(DateTimeError::MalformedTimestamp);
    }
    Ok(BootDateTime { year, month, day, hour, minute, second, millisecond })
}

/// The offset east of UTC for a timezone field of `minutes`; `None` when the
/// field lies a full day or more away from UTC.
pub fn utc_offset_from_minutes(minutes: i16) -> (r: Option<UtcOffset>)
    ensures
        r == offset_of_minutes(minutes),
{
    let seconds: i32 = (minutes as i32) * 60;
    if offset_accepted(seconds) {
        Some(UtcOffset { seconds_east: seconds })
    } else {
        None
    }
}

} // verus!
