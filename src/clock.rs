//! Calendar dates, times of day and local moments, as plain values.

use chrono::{Datelike, Timelike};
use vstd::prelude::*;

verus! {

/// Nanoseconds in one second.
pub const NANOS_PER_SEC: i128 = 1_000_000_000;

/// Seconds in one day.
pub const SECS_PER_DAY: u32 = 86_400;

/// The first year that a calendar date may carry.
pub const MIN_YEAR: i32 = -262_143;

/// The last year that a calendar date may carry.
pub const MAX_YEAR: i32 = 262_142;

/// A day of the week.
#[derive(Clone, Copy, Debug, PartialEq, Eq, Structural)]
pub enum Weekday {
    Mon,
    Tue,
    Wed,
    Thu,
    Fri,
    Sat,
    Sun,
}

/// The weekday that lies `n` days after Monday (`n < 7`).
pub open spec fn weekday_from_monday(n: int) -> Weekday {
    if n == 0 {
        Weekday::Mon
    } else if n == 1 {
        Weekday::Tue
    } else if n == 2 {
        Weekday::Wed
    } else if n == 3 {
        Weekday::Thu
    } else if n == 4 {
        Weekday::Fri
    } else if n == 5 {
        Weekday::Sat
    } else {
        Weekday::Sun
    }
}

/// Whether `year` is a leap year of the proleptic Gregorian calendar.
pub open spec fn is_leap_year(year: int) -> bool {
    (year % 4 == 0 && year % 100 != 0) || year % 400 == 0
}

/// The number of days in `month` (1 to 12) of `year`.
pub open spec fn days_in_month(year: int, month: int) -> int {
    if month == 2 {
        if is_leap_year(year) { 29 } else { 28 }
    } else if month == 4 || month == 6 || month == 9 || month == 11 {
        30
    } else {
        31
    }
}

/// Whether year, month and day name a date of the calendar that the clock supports.
pub open spec fn valid_ymd(year: int, month: int, day: int) -> bool {
    &&& MIN_YEAR <= year <= MAX_YEAR
    &&& 1 <= month <= 12
    &&& 1 <= day <= days_in_month(year, month)
}

/// The weekday of a valid date, counted in days from Monday.
pub uninterp spec fn weekday_number(year: int, month: int, day: int) -> int;

/// Relies on `chrono::NaiveDate::from_ymd_opt`, which accepts exactly the dates of the
/// proleptic Gregorian calendar from `MIN_YEAR` to `MAX_YEAR`, and on `Datelike::weekday`
/// with `Weekday::num_days_from_monday`, which give each such date its weekday.
#[verifier::external_body]
fn chrono_weekday(year: i32, month: u32, day: u32) -> (r: Option<u32>)
    ensures
        r is Some <==> valid_ymd(year as int, month as int, day as int),
        r matches Some(w) ==> w == weekday_number(year as int, month as int, day as int) && w < 7,
{
    match chrono::NaiveDate::from_ymd_opt(year, month, day) {
        Some(d) => Some(d.weekday().num_days_from_monday()),
        None => None,
    }
}

/// A calendar date.
#[derive(Clone, Copy, Debug, PartialEq, Eq, Structural)]
pub struct Date {
    pub year: i32,
    pub month: u32,
    pub day: u32,
}

impl Date {
    /// The date exists in the calendar.
    pub open spec fn wf(self) -> bool {
        valid_ymd(self.year as int, self.month as int, self.day as int)
    }

    /// The weekday of a valid date.
    pub open spec fn weekday_spec(self) -> Weekday {
        weekday_from_monday(weekday_number(self.year as int, self.month as int, self.day as int))
    }

    /// The date with the given year, month and day, if the calendar has it.
    pub fn from_ymd(year: i32, month: u32, day: u32) -> (r: Option<Date>)
        ensures
            r is Some <==> valid_ymd(year as int, month as int, day as int),
            r matches Some(d) ==> d.year == year && d.month == month && d.day == day,
    {
        match chrono_weekday(year, month, day) {
            Some(_) => Some(Date { year, month, day }),
            None => None,
        }
    }

    /// The day of the week on which this date falls.
    pub fn weekday(&self) -> (r: Weekday)
        requires
            self.wf(),
        ensures
            r == self.weekday_spec(),
    {
        match chrono_weekday(self.year, self.month, self.day) {
            Some(n) => Weekday::from_monday(n),
            None => Weekday::Mon,
        }
    }
}

impl Weekday {
    /// The weekday `n` days after Monday.
    pub fn from_monday(n: u32) -> (r: Weekday)
        requires
            n < 7,
        ensures
            r == weekday_from_monday(n as int),
    {
        if n == 0 {
            Weekday::Mon
        } else if n == 1 {
            Weekday::Tue
        } else if n == 2 {
            Weekday::Wed
        } else if n == 3 {
            Weekday::Thu
        } else if n == 4 {
            Weekday::Fri
        } else if n == 5 {
            Weekday::Sat
        } else {
            Weekday::Sun
        }
    }
}

/// A time of day, to the nanosecond.
#[derive(Clone, Copy, Debug, PartialEq, Eq, Structural)]
pub struct TimeOfDay {
    /// Whole seconds since midnight.
    pub secs: u32,
    /// Nanoseconds past `secs`.
    pub nanos: u32,
}

impl TimeOfDay {
    /// The time lies within one day, with fewer than a second's nanoseconds.
    pub open spec fn wf(self) -> bool {
        self.secs < SECS_PER_DAY && self.nanos < NANOS_PER_SEC
    }

    /// Nanoseconds since midnight.
    pub open spec fn nanos_of_day(self) -> int {
        self.secs * NANOS_PER_SEC + self.nanos
    }

    /// The time `hour:min:sec`, if it names a time of day.
    pub fn from_hms(hour: u32, min: u32, sec: u32) -> (r: Option<TimeOfDay>)
        ensures
            r is Some <==> (hour < 24 && min < 60 && sec < 60),
            r matches Some(t) ==> t.wf() && t.secs == hour * 3600 + min * 60 + sec && t.nanos == 0,
    {
        if hour < 24 && min < 60 && sec < 60 {
            Some(TimeOfDay { secs: hour * 3600 + min * 60 + sec, nanos: 0 })
        } else {
            None
        }
    }

    /// The time `secs` seconds and `nanos` nanoseconds after midnight, if it lies within the day.
    pub fn from_secs_nanos(secs: u32, nanos: u32) -> (r: Option<TimeOfDay>)
        ensures
            r is Some <==> (secs < SECS_PER_DAY && nanos < NANOS_PER_SEC),
            r matches Some(t) ==> t.secs == secs && t.nanos == nanos,
    {
        if secs < SECS_PER_DAY && nanos < 1_000_000_000 {
            Some(TimeOfDay { secs, nanos })
        } else {
            None
        }
    }

    /// The signed time from `other` to `self`, in nanoseconds.
    pub fn nanos_since(&self, other: &TimeOfDay) -> (r: i128)
        ensures
            r == self.nanos_of_day() - other.nanos_of_day(),
    {
        let a: i128 = self.secs as i128 * NANOS_PER_SEC + self.nanos as i128;
        let b: i128 = other.secs as i128 * NANOS_PER_SEC + other.nanos as i128;
        a - b
    }
}

/// A moment of local time: a date and a time of day.
#[derive(Clone, Copy, Debug, PartialEq, Eq, Structural)]
pub struct LocalDateTime {
    pub date: Date,
    pub time: TimeOfDay,
}

impl LocalDateTime {
    pub open spec fn wf(self) -> bool {
        self.date.wf() && self.time.wf()
    }

    /// The current local moment, read from the system clock.
    pub fn now() -> (r: LocalDateTime)
        ensures
            r.wf(),
    {
        local_now()
    }

    /// The moment at `time` on `date`.
    pub fn new(date: Date, time: TimeOfDay) -> (r: LocalDateTime)
        ensures
            r.date == date && r.time == time,
    {
        LocalDateTime { date, time }
    }
}

/// Relies on `chrono::Local::now`: the current local date and time, whose date is a
/// calendar date of the supported range and whose time has fewer than 86400 seconds and
/// (the system clock has no leap seconds) fewer than a second's nanoseconds.
#[verifier::external_body]
fn local_now() -> (r: LocalDateTime)
    ensures
        r.wf(),
{
    let n = chrono::Local::now().naive_local();
    LocalDateTime {
        date: Date { year: n.year(), month: n.month(), day: n.day() },
        time: TimeOfDay { secs: n.num_seconds_from_midnight(), nanos: n.nanosecond() },
    }
}

} // verus!
