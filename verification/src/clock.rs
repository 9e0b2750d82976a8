//! Times of day and the wait until their next occurrence.

use vstd::prelude::*;
use chrono::{Datelike, TimeZone, Timelike};
use crate::dates::{CalendarDate, is_calendar_date};

verus! {

/// Seconds in one calendar day of the reference clock.
pub const SECONDS_PER_DAY: u32 = 86_400;

/// Nanoseconds in one second.
pub const NANOS_PER_SECOND: u32 = 1_000_000_000;

/// Offset of the reference clock east of UTC, in seconds.
pub const REFERENCE_OFFSET_SECONDS: i32 = 7_200;

/// Nanoseconds in one calendar day of the reference clock.
pub open spec fn nanos_per_day() -> int {
    86_400_000_000_000int
}

/// A time of day at second granularity.
#[derive(Clone, Copy, Debug, PartialEq, Eq, Structural)]
pub struct ClockTime {
    hour: u32,
    minute: u32,
    second: u32,
}

impl ClockTime {
    /// Every component lies in its range.
    pub closed spec fn wf(&self) -> bool {
        self.hour < 24 && self.minute < 60 && self.second < 60
    }

    pub closed spec fn spec_hour(&self) -> nat {
        self.hour as nat
    }

    pub closed spec fn spec_minute(&self) -> nat {
        self.minute as nat
    }

    pub closed spec fn spec_second(&self) -> nat {
        self.second as nat
    }

    /// The time of day with these components.
    pub closed spec fn spec_new(hour: u32, minute: u32, second: u32) -> ClockTime {
        ClockTime { hour, minute, second }
    }

    /// Seconds from midnight to this time of day.
    pub open spec fn spec_seconds_of_day(&self) -> nat {
        self.spec_hour() * 3600 + self.spec_minute() * 60 + self.spec_second()
    }

    /// Builds a time of day. The components must lie in their ranges.
    pub fn new(hour: u32, minute: u32, second: u32) -> (t: Self)
        requires
            hour < 24,
            minute < 60,
            second < 60,
        ensures
            t == Self::spec_new(hour, minute, second),
            t.wf(),
            t.spec_hour() == hour,
            t.spec_minute() == minute,
            t.spec_second() == second,
    {
        Self { hour, minute, second }
    }

    /// The time of day built from components in range is valid and reads
    /// those components.
    pub proof fn lemma_spec_new(hour: u32, minute: u32, second: u32)
        requires
            hour < 24,
            minute < 60,
            second < 60,
        ensures
            Self::spec_new(hour, minute, second).wf(),
            Self::spec_new(hour, minute, second).spec_hour() == hour,
            Self::spec_new(hour, minute, second).spec_minute() == minute,
            Self::spec_new(hour, minute, second).spec_second() == second,
    {
    }

    /// Builds a time of day, or nothing where a component is out of range.
    pub fn checked_new(hour: u32, minute: u32, second: u32) -> (t: Option<Self>)
        ensures
            t.is_some() <==> hour < 24 && minute < 60 && second < 60,
            t.is_some() ==> t.unwrap().wf() && t.unwrap().spec_hour() == hour
                && t.unwrap().spec_minute() == minute && t.unwrap().spec_second() == second,
    {
        if hour < 24 && minute < 60 && second < 60 {
            Some(Self::new(hour, minute, second))
        } else {
            None
        }
    }

    pub fn hour(&self) -> (h: u32)
        ensures
            h == self.spec_hour(),
    {
        self.hour
    }

    pub fn minute(&self) -> (m: u32)
        ensures
            m == self.spec_minute(),
    {
        self.minute
    }

    pub fn second(&self) -> (s: u32)
        ensures
            s == self.spec_second(),
    {
        self.second
    }

    /// Seconds from midnight to this time of day.
    pub fn seconds_of_day(&self) -> (s: u32)
        requires
            self.wf(),
        ensures
            s == self.spec_seconds_of_day(),
            s < SECONDS_PER_DAY,
    {
        self.hour * 3600 + self.minute * 60 + self.second
    }

    /// A valid time of day keeps its components in range, and two valid
    /// times with the same components are the same value.
    pub proof fn lemma_components(self, other: Self)
        requires
            self.wf(),
            other.wf(),
        ensures
            self.spec_hour() < 24,
            self.spec_minute() < 60,
            self.spec_second() < 60,
            self.spec_seconds_of_day() < 86_400,
            self.spec_seconds_of_day() == other.spec_seconds_of_day() <==> self == other,
    {
    }
}

/// An instant of the reference clock, as its calendar date, weekday and
/// time of day read.
#[derive(Clone, Copy, Debug, PartialEq, Eq, Structural)]
pub struct ReferenceInstant {
    pub year: i32,
    pub month: u32,
    pub day: u32,
    /// Days since Monday: Monday is 0, Sunday is 6.
    pub weekday: u32,
    pub second_of_day: u32,
    pub nanosecond: u32,
}

impl ReferenceInstant {
    pub open spec fn wf(&self) -> bool {
        &&& is_calendar_date(self.year as int, self.month as int, self.day as int)
        &&& self.weekday < 7
        &&& self.second_of_day < SECONDS_PER_DAY
        &&& self.nanosecond < NANOS_PER_SECOND
    }

    /// Nanoseconds from midnight to this instant.
    pub open spec fn nanos_of_day(&self) -> int {
        self.second_of_day * 1_000_000_000 + self.nanosecond
    }

    /// Whether the fields are those of an existing date and time of day.
    pub fn is_valid(&self) -> (valid: bool)
        ensures
            valid == self.wf(),
    {
        CalendarDate::from_ymd(self.year, self.month, self.day).is_some() && self.weekday < 7
            && self.second_of_day < SECONDS_PER_DAY && self.nanosecond < NANOS_PER_SECOND
    }

    /// The calendar day of this instant.
    pub fn date(&self) -> (date: CalendarDate)
        ensures
            date == (CalendarDate { year: self.year, month: self.month, day: self.day }),
    {
        CalendarDate { year: self.year, month: self.month, day: self.day }
    }
}

/// A length of time to wait.
#[derive(Clone, Copy, Debug, PartialEq, Eq, Structural)]
pub struct Delay {
    pub seconds: u32,
    pub nanoseconds: u32,
}

impl Delay {
    pub open spec fn total_nanos(&self) -> int {
        self.seconds * 1_000_000_000 + self.nanoseconds
    }
}

/// Nanoseconds from `now` to the next instant, strictly after `now`, whose
/// time of day is `target` seconds after midnight.
pub open spec fn nanos_until(now: ReferenceInstant, target: ClockTime) -> int {
    let candidate = target.spec_seconds_of_day() * 1_000_000_000;
    if now.nanos_of_day() < candidate {
        candidate - now.nanos_of_day()
    } else {
        candidate + nanos_per_day() - now.nanos_of_day()
    }
}

/// How many calendar days after `now`'s day the instant `now + nanos` lies.
pub open spec fn landing_day(now: ReferenceInstant, nanos: int) -> int {
    (now.nanos_of_day() + nanos) / nanos_per_day()
}

/// Nanoseconds from midnight of its day to the instant `now + nanos`.
pub open spec fn landing_nanos_of_day(now: ReferenceInstant, nanos: int) -> int {
    (now.nanos_of_day() + nanos) % nanos_per_day()
}

/// The wait from `now` until the next occurrence of `target`.
pub fn next_occurrence(now: &ReferenceInstant, target: &ClockTime) -> (wait: Delay)
    requires
        now.wf(),
        target.wf(),
    ensures
        wait.nanoseconds < NANOS_PER_SECOND,
        wait.total_nanos() == nanos_until(*now, *target),
        0 < wait.total_nanos() <= nanos_per_day(),
{
    let day: u64 = 86_400_000_000_000;
    let candidate: u64 = (target.seconds_of_day() as u64) * 1_000_000_000;
    let current: u64 = (now.second_of_day as u64) * 1_000_000_000 + (now.nanosecond as u64);
    let gap: u64 = if current < candidate {
        candidate - current
    } else {
        candidate + day - current
    };
    let seconds: u64 = gap / 1_000_000_000;
    let nanoseconds: u64 = gap % 1_000_000_000;
    Delay { seconds: seconds as u32, nanoseconds: nanoseconds as u32 }
}

/// The wait is positive, and the instant it ends at reads exactly the
/// target's hour, minute and second, with no fraction of a second.
pub proof fn lemma_next_occurrence_hits_target(now: ReferenceInstant, target: ClockTime)
    requires
        now.wf(),
        target.wf(),
    ensures
        nanos_until(now, target) > 0,
        landing_nanos_of_day(now, nanos_until(now, target))
            == target.spec_seconds_of_day() * 1_000_000_000,
        landing_nanos_of_day(now, nanos_until(now, target)) % 1_000_000_000 == 0,
        landing_nanos_of_day(now, nanos_until(now, target)) / 1_000_000_000 / 3600
            == target.spec_hour(),
        landing_nanos_of_day(now, nanos_until(now, target)) / 1_000_000_000 / 60 % 60
            == target.spec_minute(),
        landing_nanos_of_day(now, nanos_until(now, target)) / 1_000_000_000 % 60
            == target.spec_second(),
{
    let candidate = target.spec_seconds_of_day() * 1_000_000_000;
    let sum = now.nanos_of_day() + nanos_until(now, target);
    if now.nanos_of_day() < candidate {
        assert(sum == candidate);
    } else {
        assert(sum == candidate + nanos_per_day());
    }
    assert(landing_nanos_of_day(now, nanos_until(now, target)) == candidate);
    assert(candidate / 1_000_000_000 == target.spec_seconds_of_day());
}

/// Where `now` reads a time of day strictly before the target, the wait
/// ends on `now`'s calendar day; otherwise it ends exactly one day later.
pub proof fn lemma_next_occurrence_day(now: ReferenceInstant, target: ClockTime)
    requires
        now.wf(),
        target.wf(),
    ensures
        now.nanos_of_day() < target.spec_seconds_of_day() * 1_000_000_000 ==> landing_day(
            now,
            nanos_until(now, target),
        ) == 0,
        now.nanos_of_day() >= target.spec_seconds_of_day() * 1_000_000_000 ==> landing_day(
            now,
            nanos_until(now, target),
        ) == 1,
{
    let candidate = target.spec_seconds_of_day() * 1_000_000_000;
    let sum = now.nanos_of_day() + nanos_until(now, target);
    if now.nanos_of_day() < candidate {
        assert(sum == candidate);
    } else {
        assert(sum == candidate + nanos_per_day());
    }
}

/// Reads the system clock through chrono and projects it into the zone that
/// lies `offset_seconds` east of UTC (`FixedOffset::east_opt`, `Utc::now`,
/// `TimeZone::from_utc_datetime`), then reads its fields with chrono's
/// accessors. Which instant comes is left open. What is claimed: the date
/// exists, the weekday counts from Monday as 0 to Sunday as 6, the seconds
/// stay below a day, and the nanoseconds stay below a second, since
/// `Utc::now` takes them from the system time and so never reports a leap
/// second.
#[verifier::external_body]
fn clock_reading(offset_seconds: i32) -> (now: ReferenceInstant)
    requires
        -86_400 < offset_seconds < 86_400,
    ensures
        now.wf(),
{
    let zone = chrono::FixedOffset::east_opt(offset_seconds).unwrap();
    let now = zone.from_utc_datetime(&chrono::Utc::now().naive_utc());
    ReferenceInstant {
        year: now.year(),
        month: now.month(),
        day: now.day(),
        weekday: now.weekday().num_days_from_monday(),
        second_of_day: now.num_seconds_from_midnight(),
        nanosecond: now.nanosecond(),
    }
}

/// The current instant of the reference clock.
pub fn reference_now() -> (now: ReferenceInstant)
    ensures
        now.wf(),
{
    clock_reading(REFERENCE_OFFSET_SECONDS)
}

/// The wait from the current instant of the reference clock until the next
/// occurrence of `target`, together with the instant that was read.
pub fn time_until(target: &ClockTime) -> (r: (ReferenceInstant, Delay))
    requires
        target.wf(),
    ensures
        r.0.wf(),
        r.1.nanoseconds < NANOS_PER_SECOND,
        r.1.total_nanos() == nanos_until(r.0, *target),
        0 < r.1.total_nanos() <= nanos_per_day(),
{
    let now = reference_now();
    let wait = next_occurrence(&now, target);
    (now, wait)
}

} // verus!
