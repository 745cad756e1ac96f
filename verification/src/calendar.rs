//! Civil (calendar) date and time: the proleptic Gregorian calendar, the
//! validity of a date, and the count of seconds from the Unix epoch.

use vstd::prelude::*;

verus! {

/// The earliest year a [`CivilTime`] may hold.
pub const MIN_YEAR: i32 = -262_143;

/// The latest year a [`CivilTime`] may hold.
pub const MAX_YEAR: i32 = 262_142;

/// The farthest that an instant may lie from the epoch, in seconds either
/// way, and still be sure of a civil time within the years above.
pub const MAX_INSTANT: i64 = 8_000_000_000_000;

/// A date and a time of day with no time zone attached.
///
/// `nano` counts nanoseconds within the second. A value of a thousand
/// million or more marks a leap second, shown as second 60, and comes
/// only with `second == 59`.
#[derive(Clone, Copy, Debug, PartialEq, Eq, Structural)]
pub struct CivilTime {
    pub year: i32,
    pub month: u32,
    pub day: u32,
    pub hour: u32,
    pub minute: u32,
    pub second: u32,
    pub nano: u32,
}

/// A clock face in some time zone: the civil time it shows, and how far it
/// is ahead of UTC, in seconds.
#[derive(Clone, Copy, Debug, PartialEq, Eq, Structural)]
pub struct LocalTime {
    pub civil: CivilTime,
    pub offset_secs: i32,
}

/// Whether year `y` has a 29th of February.
pub open spec fn is_leap_year(y: int) -> bool {
    y % 4 == 0 && (y % 100 != 0 || y % 400 == 0)
}

/// The number of days of month `m` in year `y`, for `1 <= m <= 12`.
pub open spec fn days_in_month(y: int, m: int) -> int {
    if m == 2 {
        if is_leap_year(y) {
            29
        } else {
            28
        }
    } else if m == 4 || m == 6 || m == 9 || m == 11 {
        30
    } else {
        31
    }
}

/// Whether `y`-`m`-`d` names a day of the calendar.
pub open spec fn valid_date(y: int, m: int, d: int) -> bool {
    &&& MIN_YEAR <= y <= MAX_YEAR
    &&& 1 <= m <= 12
    &&& 1 <= d <= days_in_month(y, m)
}

/// Whether `h`:`mi`:`s` and `nano` name a time of day.
pub open spec fn valid_time(h: int, mi: int, s: int, nano: int) -> bool {
    &&& 0 <= h < 24
    &&& 0 <= mi < 60
    &&& 0 <= s < 60
    &&& 0 <= nano < 2_000_000_000
    &&& (nano >= 1_000_000_000 ==> s == 59)
}

/// The number of leap years among the years `1..y`; for `y <= 0`, minus
/// the number of leap years among `y..=0`.
pub open spec fn leap_years_before(y: int) -> int {
    (y - 1) / 4 - (y - 1) / 100 + (y - 1) / 400
}

/// Days from 1970-01-01 to the first of January of year `y`.
pub open spec fn days_before_year(y: int) -> int {
    365 * (y - 1970) + leap_years_before(y) - leap_years_before(1970)
}

/// Days from the first of January of year `y` to the first of month `m`.
pub open spec fn days_before_month(y: int, m: int) -> int
    decreases m,
{
    if m <= 1 {
        0
    } else {
        days_before_month(y, m - 1) + days_in_month(y, m - 1)
    }
}

/// Days from 1970-01-01 to `y`-`m`-`d`; negative before 1970.
pub open spec fn days_since_epoch(y: int, m: int, d: int) -> int {
    days_before_year(y) + days_before_month(y, m) + d - 1
}

impl CivilTime {
    /// The value names a real day and a real time of day.
    pub open spec fn wf(&self) -> bool {
        &&& valid_date(self.year as int, self.month as int, self.day as int)
        &&& valid_time(self.hour as int, self.minute as int, self.second as int, self.nano as int)
    }

    /// Seconds from 1970-01-01 00:00:00 to this time, both read on the same
    /// clock face; leap seconds are not counted.
    pub open spec fn epoch_seconds(&self) -> int {
        days_since_epoch(self.year as int, self.month as int, self.day as int) * 86_400
            + self.hour * 3600 + self.minute * 60 + self.second
    }

    /// The second as it is shown: 60 during a leap second.
    pub open spec fn shown_second(&self) -> int {
        self.second + self.nano / 1_000_000_000
    }

    /// Builds a value from its fields, or `None` if they name no real
    /// date and time.
    pub fn new(
        year: i32,
        month: u32,
        day: u32,
        hour: u32,
        minute: u32,
        second: u32,
        nano: u32,
    ) -> (r: Option<CivilTime>)
        ensures
            r is Some <==> valid_date(year as int, month as int, day as int) && valid_time(
                hour as int,
                minute as int,
                second as int,
                nano as int,
            ),
            r matches Some(t) ==> t == (CivilTime { year, month, day, hour, minute, second, nano }),
    {
        if year < MIN_YEAR || year > MAX_YEAR || month < 1 || month > 12 || day < 1 {
            return None;
        }
        if day > month_length(year, month) {
            return None;
        }
        if hour >= 24 || minute >= 60 || second >= 60 || nano >= 2_000_000_000 {
            return None;
        }
        if nano >= 1_000_000_000 && second != 59 {
            return None;
        }
        Some(CivilTime { year, month, day, hour, minute, second, nano })
    }
}

impl LocalTime {
    /// The face shows the instant `secs` seconds after the epoch: a real
    /// civil time, ahead of UTC by an offset of less than a day.
    pub open spec fn shows(&self, secs: int) -> bool {
        &&& self.civil.wf()
        &&& -86_400 < self.offset_secs < 86_400
        &&& self.civil.epoch_seconds() == secs + self.offset_secs
    }
}

/// A month begins less than a year after the year does.
pub proof fn lemma_days_before_month_bound(y: int, m: int)
    requires
        1 <= m <= 12,
    ensures
        0 <= days_before_month(y, m) <= 335,
        days_before_month(y, m) + days_in_month(y, m) <= 365 + (if is_leap_year(y) {
            1int
        } else {
            0int
        }),
{
    reveal_with_fuel(days_before_month, 13);
}

/// The seconds from the epoch to any real civil time fit easily in 64 bits.
pub proof fn lemma_epoch_seconds_bound(t: CivilTime)
    requires
        t.wf(),
    ensures
        -8_400_000_000_000 < t.epoch_seconds() < 8_400_000_000_000,
{
    lemma_days_before_month_bound(t.year as int, t.month as int);
}

/// A year is 365 days long, or 366 if it is a leap year.
pub proof fn lemma_year_length(y: int)
    ensures
        days_before_year(y + 1) == days_before_year(y) + 365 + (if is_leap_year(y) {
            1int
        } else {
            0int
        }),
{
}

/// A later year begins no earlier than the year after an earlier one.
pub proof fn lemma_years_in_order(y1: int, y2: int)
    requires
        y1 < y2,
    ensures
        days_before_year(y1 + 1) <= days_before_year(y2),
    decreases y2 - y1,
{
    if y1 + 1 < y2 {
        lemma_years_in_order(y1, y2 - 1);
        lemma_year_length(y2 - 1);
    }
}

/// Two real dates that lie equally many days from the epoch are the same
/// date.
pub proof fn lemma_days_since_epoch_injective(y1: int, m1: int, d1: int, y2: int, m2: int, d2: int)
    requires
        valid_date(y1, m1, d1),
        valid_date(y2, m2, d2),
        days_since_epoch(y1, m1, d1) == days_since_epoch(y2, m2, d2),
    ensures
        y1 == y2,
        m1 == m2,
        d1 == d2,
{
    lemma_days_before_month_bound(y1, m1);
    lemma_days_before_month_bound(y2, m2);
    lemma_year_length(y1);
    lemma_year_length(y2);
    if y1 < y2 {
        lemma_years_in_order(y1, y2);
    } else if y2 < y1 {
        lemma_years_in_order(y2, y1);
    } else {
        reveal_with_fuel(days_before_month, 13);
    }
}

/// Two real civil times that lie equally many seconds from the epoch agree
/// in everything but the fraction of the second.
pub proof fn lemma_epoch_seconds_injective(a: CivilTime, b: CivilTime)
    requires
        a.wf(),
        b.wf(),
        a.epoch_seconds() == b.epoch_seconds(),
    ensures
        a.year == b.year,
        a.month == b.month,
        a.day == b.day,
        a.hour == b.hour,
        a.minute == b.minute,
        a.second == b.second,
{
    let da = days_since_epoch(a.year as int, a.month as int, a.day as int);
    let db = days_since_epoch(b.year as int, b.month as int, b.day as int);
    let sa = a.hour * 3600 + a.minute * 60 + a.second;
    let sb = b.hour * 3600 + b.minute * 60 + b.second;
    assert(0 <= sa < 86_400 && 0 <= sb < 86_400);
    assert(da * 86_400 + sa == db * 86_400 + sb);
    assert(da == db);
    lemma_days_since_epoch_injective(
        a.year as int,
        a.month as int,
        a.day as int,
        b.year as int,
        b.month as int,
        b.day as int,
    );
}

/// Whether `year` is a leap year.
pub fn leap_year(year: i32) -> (r: bool)
    ensures
        r == is_leap_year(year as int),
{
    // Leap years repeat every 400 years, so the test may be made on a
    // non-negative year of the same place in the cycle.
    let shifted: u64 = (year as i64 + 4_000_000_000) as u64;
    shifted % 4 == 0 && (shifted % 100 != 0 || shifted % 400 == 0)
}

/// The number of days of `month` in `year`, for a month from 1 to 12.
pub fn month_length(year: i32, month: u32) -> (r: u32)
    ensures
        r == days_in_month(year as int, month as int),
{
    if month == 2 {
        if leap_year(year) {
            29
        } else {
            28
        }
    } else if month == 4 || month == 6 || month == 9 || month == 11 {
        30
    } else {
        31
    }
}

} // verus!
