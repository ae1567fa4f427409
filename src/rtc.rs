//! Conversions between plain time values and the Unix time kept by a
//! real-time clock.
use vstd::prelude::*;

use crate::consts;
use crate::time::{
    doy_to_month_day, is_leap, is_leap_year, is_month_day,
    lemma_leap_years_before_nonneg, timestamp_of, unix_seconds, year_len, Timestamp, EPOCH_YEAR,
};
use crate::wwvb::RawFields;

verus! {

/// Seconds since the epoch at the start of the given minute. The result must
/// fit in a `u32`.
pub fn to_timestamp(year: u16, doy: u16, hour: u16, minute: u16) -> (r: u32)
    requires
        EPOCH_YEAR <= year,
        0 <= unix_seconds(year as int, doy as int, hour as int, minute as int, 0) <= u32::MAX,
    ensures
        r == unix_seconds(year as int, doy as int, hour as int, minute as int, 0),
{
    Timestamp::new(year, doy, hour, minute, 0).to_unix()
}

/// Year, day of year, hour, minute and second of the time `unix_ts` seconds
/// after the epoch.
pub fn from_timestamp(unix_ts: u32) -> (r: (u32, u32, u32, u32, u32))
    ensures
        ({
            let t = timestamp_of(unix_ts as int);
            r == (t.year as u32, t.doy as u32, t.hour as u32, t.minute as u32, t.seconds as u32)
        }),
        EPOCH_YEAR <= r.0,
        1 <= r.1 <= year_len(r.0 as int),
        r.2 < 24,
        r.3 < 60,
        r.4 < 60,
        unix_seconds(r.0 as int, r.1 as int, r.2 as int, r.3 as int, r.4 as int) == unix_ts,
{
    let t = Timestamp::from_unix(unix_ts);
    (t.year as u32, t.doy as u32, t.hour as u32, t.minute as u32, t.seconds as u32)
}

/// Year, month and day of day `doy` of `year`, by the Gregorian rule. `None`
/// when `doy` is not a day of that year.
pub fn to_date(year: u16, doy: u16) -> (r: Option<(u16, u16, u16)>)
    ensures
        r is None <==> (doy < 1 || doy > year_len(year as int)),
        r matches Some((y, m, d)) ==> y == year && is_month_day(
            doy as int,
            is_leap(year as int),
            m as int,
            d as int,
        ),
{
    let leap = is_leap_year(year);
    match doy_to_month_day(doy, leap) {
        Some((month, day)) => Some((year, month, day)),
        None => None,
    }
}

/// The Unix time to set the clock to once the frame with these fields has
/// been received: the start of the frame's minute, in the century
/// `consts::CENTURY`, plus `consts::FRAME_DELAY_SECS`, since the frame
/// describes the minute that has just ended.
pub fn frame_clock_time(fields: &RawFields) -> (r: u32)
    requires
        fields.minute < 60,
        fields.hour < 24,
        fields.doy < 367,
        fields.year < 99,
    ensures
        r == unix_seconds(
            consts::CENTURY + fields.year,
            fields.doy as int,
            fields.hour as int,
            fields.minute as int,
            0,
        ) + consts::FRAME_DELAY_SECS,
{
    let year = consts::CENTURY + fields.year;
    proof {
        lemma_leap_years_before_nonneg(year as int);
        lemma_leap_years_before_nonneg(2000);
    }
    let start = to_timestamp(year, fields.doy, fields.hour, fields.minute);
    start + consts::FRAME_DELAY_SECS
}

} // verus!
