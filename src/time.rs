//! Timestamps and calendar dates, and the arithmetic between them and Unix time.
use vstd::prelude::*;

verus! {

/// A point in time as year, day of year (1-based), hour, minute and second.
#[derive(Clone, Copy, Debug, PartialEq, Eq, Structural)]
pub struct Timestamp {
    pub year: u16,
    pub doy: u16,
    pub hour: u16,
    pub minute: u16,
    pub seconds: u16,
}

/// A calendar date; month and day are 1-based.
#[derive(Clone, Copy, Debug, PartialEq, Eq, Structural)]
pub struct Date {
    pub year: u16,
    pub month: u16,
    pub day: u16,
}

/// The year in which Unix time starts.
pub const EPOCH_YEAR: u16 = 1970;

/// The first leap year after the epoch.
pub const FIRST_LEAP_YEAR: u16 = 1972;

pub const SECS_PER_DAY: u32 = 86400;

pub const DAYS_PER_YEAR: u32 = 365;

/// The Gregorian rule: divisible by 4, and not by 100 unless by 400.
pub open spec fn is_leap(year: int) -> bool {
    year % 4 == 0 && (year % 100 != 0 || year % 400 == 0)
}

pub open spec fn year_len(year: int) -> int {
    if is_leap(year) {
        366
    } else {
        365
    }
}

/// Number of leap years in `[1972, year)`.
pub open spec fn leap_years_before(year: int) -> int
    decreases year - 1972,
{
    if year <= 1972 {
        0
    } else {
        leap_years_before(year - 1) + if is_leap(year - 1) {
            1int
        } else {
            0int
        }
    }
}

/// Days from the epoch to the first day of `year`.
pub open spec fn days_before_year(year: int) -> int {
    (year - 1970) * 365 + leap_years_before(year)
}

/// Seconds from the epoch to the given time, leap seconds not counted.
pub open spec fn unix_seconds(year: int, doy: int, hour: int, minute: int, seconds: int) -> int {
    (days_before_year(year) + doy - 1) * 86400 + hour * 3600 + minute * 60 + seconds
}

/// The unique well-formed timestamp whose Unix time is `u`.
pub open spec fn timestamp_of(u: int) -> Timestamp {
    choose|t: Timestamp| t.wf() && t.unix() == u
}

pub open spec fn month_len(month: int, leap: bool) -> int {
    if month == 2 {
        if leap {
            29
        } else {
            28
        }
    } else if month == 4 || month == 6 || month == 9 || month == 11 {
        30
    } else {
        31
    }
}

/// Days of the year that come before the first of `month`.
pub open spec fn days_before_month(month: int, leap: bool) -> int
    decreases month,
{
    if month <= 1 {
        0
    } else {
        days_before_month(month - 1, leap) + month_len(month - 1, leap)
    }
}

/// `doy` is day `day` of `month` in a year whose February has 29 days iff `leap`.
pub open spec fn is_month_day(doy: int, leap: bool, month: int, day: int) -> bool {
    &&& 1 <= month <= 12
    &&& 1 <= day <= month_len(month, leap)
    &&& doy == days_before_month(month, leap) + day
}

pub open spec fn days_in_year(leap: bool) -> int {
    if leap {
        366
    } else {
        365
    }
}

impl Timestamp {
    pub open spec fn unix(&self) -> int {
        unix_seconds(
            self.year as int,
            self.doy as int,
            self.hour as int,
            self.minute as int,
            self.seconds as int,
        )
    }

    /// A time at or after the epoch, with every field in its range.
    pub open spec fn wf(&self) -> bool {
        &&& 1970 <= self.year
        &&& 1 <= self.doy <= year_len(self.year as int)
        &&& self.hour < 24
        &&& self.minute < 60
        &&& self.seconds < 60
    }
}

pub(crate) proof fn lemma_leap_years_before_nonneg(year: int)
    ensures
        0 <= leap_years_before(year) <= if year <= 1972 {
            0
        } else {
            year - 1972
        },
    decreases year - 1972,
{
    if year > 1972 {
        lemma_leap_years_before_nonneg(year - 1);
    }
}

proof fn lemma_year_start_step(year: int)
    requires
        1970 <= year,
    ensures
        days_before_year(year + 1) == days_before_year(year) + year_len(year),
{
    if year + 1 > 1972 {
        assert(leap_years_before(year + 1) == leap_years_before(year) + if is_leap(year) {
            1int
        } else {
            0int
        });
    } else {
        assert(leap_years_before(year + 1) == 0);
        assert(leap_years_before(year) == 0);
    }
}

proof fn lemma_year_start_mono(a: int, b: int)
    requires
        1970 <= a <= b,
    ensures
        days_before_year(a) <= days_before_year(b),
    decreases b - a,
{
    if a < b {
        lemma_year_start_step(b - 1);
        lemma_year_start_mono(a, b - 1);
    }
}

proof fn lemma_month_start_mono(a: int, b: int, leap: bool)
    requires
        a <= b,
    ensures
        days_before_month(a, leap) <= days_before_month(b, leap),
    decreases b - a,
{
    if a < b {
        lemma_month_start_mono(a, b - 1, leap);
    }
}

proof fn lemma_months_fill_year(leap: bool)
    ensures
        days_before_month(13, leap) == days_in_year(leap),
{
    reveal_with_fuel(days_before_month, 13);
}

/// A day of the year falls on one month and day only.
pub proof fn lemma_month_day_unique(doy: int, leap: bool, m1: int, d1: int, m2: int, d2: int)
    requires
        is_month_day(doy, leap, m1, d1),
        is_month_day(doy, leap, m2, d2),
    ensures
        m1 == m2,
        d1 == d2,
{
    if m1 < m2 {
        lemma_month_start_mono(m1 + 1, m2, leap);
    } else if m2 < m1 {
        lemma_month_start_mono(m2 + 1, m1, leap);
    }
}

/// Two well-formed timestamps with the same Unix time are equal.
pub proof fn lemma_unix_unique(a: Timestamp, b: Timestamp)
    requires
        a.wf(),
        b.wf(),
        a.unix() == b.unix(),
    ensures
        a == b,
{
    let da = days_before_year(a.year as int) + a.doy - 1;
    let db = days_before_year(b.year as int) + b.doy - 1;
    let sa = a.hour * 3600 + a.minute * 60 + a.seconds;
    let sb = b.hour * 3600 + b.minute * 60 + b.seconds;
    assert(da == db && sa == sb);
    if a.year < b.year {
        lemma_year_start_step(a.year as int);
        lemma_year_start_mono(a.year + 1, b.year as int);
    } else if b.year < a.year {
        lemma_year_start_step(b.year as int);
        lemma_year_start_mono(b.year + 1, a.year as int);
    }
    assert(a.year == b.year);
}

/// Converting a well-formed timestamp to Unix time and back gives the same
/// timestamp.
pub proof fn lemma_unix_round_trip(t: Timestamp)
    requires
        t.wf(),
    ensures
        timestamp_of(t.unix()) == t,
{
    let c = timestamp_of(t.unix());
    assert(c.wf() && c.unix() == t.unix());
    lemma_unix_unique(c, t);
}

/// Whether `year` is a leap year of the Gregorian calendar.
pub fn is_leap_year(year: u16) -> (r: bool)
    ensures
        r == is_leap(year as int),
{
    (year % 400 == 0 || year % 100 != 0) && year % 4 == 0
}

/// Counts the leap years from 1972, the first after the epoch, up to but not
/// including `year`.
fn calc_num_leap_years(year: u16) -> (r: u32)
    ensures
        r == leap_years_before(year as int),
{
    let mut num_leaps: u32 = 0;
    if year <= FIRST_LEAP_YEAR {
        return 0;
    }
    let mut leap: u16 = FIRST_LEAP_YEAR;
    while leap < year
        invariant
            FIRST_LEAP_YEAR <= leap <= year,
            num_leaps == leap_years_before(leap as int),
            num_leaps <= leap - FIRST_LEAP_YEAR,
        decreases year - leap,
    {
        if is_leap_year(leap) {
            num_leaps += 1;
        }
        leap += 1;
    }
    num_leaps
}

/// Days from the epoch to the first day of `year`.
fn year_start_day(year: u16) -> (r: u32)
    requires
        EPOCH_YEAR <= year,
    ensures
        r == days_before_year(year as int),
{
    let leaps = calc_num_leap_years(year);
    proof {
        lemma_leap_years_before_nonneg(year as int);
    }
    (year - EPOCH_YEAR) as u32 * DAYS_PER_YEAR + leaps
}

/// Walks the month lengths of a year to find the month and day of day-of-year
/// `doy`; February has 29 days iff `leap`. `None` when `doy` is not a day of
/// such a year.
pub fn doy_to_month_day(doy: u16, leap: bool) -> (r: Option<(u16, u16)>)
    ensures
        r is None <==> (doy < 1 || doy > days_in_year(leap)),
        r matches Some((m, d)) ==> is_month_day(doy as int, leap, m as int, d as int),
{
    let mut days_in_month: [u16; 12] = [31, 28, 31, 30, 31, 30, 31, 31, 30, 31, 30, 31];
    if leap {
        days_in_month[1] = days_in_month[1] + 1;
    }
    proof {
        lemma_months_fill_year(leap);
    }
    if doy == 0 {
        return None;
    }
    let mut day: u16 = doy;
    let mut i: usize = 0;
    while i < 12
        invariant
            i <= 12,
            1 <= day,
            1 <= doy,
            day + days_before_month(i + 1, leap) == doy,
            days_before_month(13, leap) == days_in_year(leap),
            forall|k: int| 0 <= k < 12 ==> days_in_month[k] == month_len(k + 1, leap),
        decreases 12 - i,
    {
        if day > days_in_month[i] {
            day -= days_in_month[i];
            i += 1;
        } else {
            proof {
                assert(days_in_month[i as int] == month_len(i + 1, leap));
                assert(days_before_month(i + 2, leap) == days_before_month(i + 1, leap)
                    + month_len(i + 1, leap));
                lemma_month_start_mono(i + 2, 13, leap);
            }
            return Some(((i + 1) as u16, day));
        }
    }
    None
}

impl Timestamp {
    pub fn new(year: u16, doy: u16, hour: u16, minute: u16, seconds: u16) -> (r: Self)
        ensures
            r == (Timestamp { year, doy, hour, minute, seconds }),
    {
        Self { year, doy, hour, minute, seconds }
    }

    /// Seconds since the epoch. The result must fit in a `u32`.
    pub fn to_unix(&self) -> (r: u32)
        requires
            EPOCH_YEAR <= self.year,
            0 <= self.unix() <= u32::MAX,
        ensures
            r == self.unix(),
    {
        let days = year_start_day(self.year) as u64 + self.doy as u64;
        let total = days * 86400 + self.hour as u64 * 3600 + self.minute as u64 * 60
            + self.seconds as u64;
        (total - 86400) as u32
    }

    /// The timestamp `unix_ts` seconds after the epoch.
    pub fn from_unix(unix_ts: u32) -> (r: Self)
        ensures
            r.wf(),
            r.unix() == unix_ts,
            r == timestamp_of(unix_ts as int),
    {
        let days = unix_ts / SECS_PER_DAY;
        let secs = unix_ts % SECS_PER_DAY;
        proof {
            lemma_leap_years_before_nonneg(days / 365 + 1971);
        }
        // No year has fewer than 365 days, so this is the latest year that can
        // hold day `days`; step back until its first day is not after it.
        let mut year: u16 = (days / DAYS_PER_YEAR) as u16 + EPOCH_YEAR;
        while year_start_day(year) > days
            invariant
                EPOCH_YEAR <= year <= EPOCH_YEAR + days / 365,
                days_before_year(year + 1) > days,
            decreases year,
        {
            assert(leap_years_before(1970) == 0);
            year -= 1;
        }
        let start = year_start_day(year);
        proof {
            lemma_year_start_step(year as int);
        }
        let doy = (days - start + 1) as u16;
        let hour = (secs / 3600) as u16;
        let minute = (secs % 3600 / 60) as u16;
        let seconds = (secs % 60) as u16;
        let r = Self { year, doy, hour, minute, seconds };
        proof {
            lemma_unix_round_trip(r);
        }
        r
    }

    /// The calendar date of this timestamp, by the Gregorian rule for its year.
    /// `None` when `doy` is not a day of that year.
    pub fn to_date(&self) -> (r: Option<Date>)
        ensures
            r is None <==> (self.doy < 1 || self.doy > year_len(self.year as int)),
            r matches Some(d) ==> d.year == self.year && is_month_day(
                self.doy as int,
                is_leap(self.year as int),
                d.month as int,
                d.day as int,
            ),
    {
        let leap = is_leap_year(self.year);
        match doy_to_month_day(self.doy, leap) {
            Some((month, day)) => Some(Date { year: self.year, month, day }),
            None => None,
        }
    }
}

} // verus!
