//! Wall-clock timestamps and the few calendar questions the task model asks.
//!
//! A [`Timestamp`] is a reading of the local wall clock, held as plain
//! integers. Ordering, day boundaries and second arithmetic are verified here.
//! What only a calendar can answer (which day a written date names, the
//! year, month and day of a day number, its weekday) is asked of `chrono`
//! through trusted wrappers whose results are named by uninterpreted spec
//! functions.

use vstd::prelude::*;

verus! {

/// Seconds in one calendar day of the wall clock.
pub const SECONDS_PER_DAY: i64 = 86_400;

/// The last second of a day, counted from its midnight.
pub const LAST_SECOND_OF_DAY: i64 = 86_399;

/// A reading of the local wall clock: whole seconds since
/// 1970-01-01T00:00:00 on that clock, and nanoseconds into the second.
#[derive(Clone, Copy, Debug, PartialEq, Eq, Structural)]
pub struct Timestamp {
    pub secs: i64,
    pub nanos: u32,
}

/// The day, counted from 1970-01-01, of the date written in `text` under the
/// `strftime` pattern `format`; `None` where the text is no date under it.
pub uninterp spec fn parsed_epoch_day(text: Seq<char>, format: Seq<char>) -> Option<int>;

/// The day, counted from 1970-01-01, of the calendar date with this year,
/// month and day of month; `None` where the calendar has no such date.
pub uninterp spec fn epoch_day_of_civil(year: int, month: int, day: int) -> Option<int>;

/// Year, month and day of month of the day counted from 1970-01-01; `None`
/// where the day lies outside the calendar's range.
pub uninterp spec fn civil_of_epoch_day(day: int) -> Option<(int, int, int)>;

/// The weekday of the day counted from 1970-01-01, Monday being 1 and Sunday
/// 7; `None` where the day lies outside the calendar's range.
pub uninterp spec fn weekday_of_epoch_day(day: int) -> Option<int>;

/// An optional machine integer as an optional mathematical one.
pub open spec fn widen(value: Option<i32>) -> Option<int> {
    match value {
        Some(v) => Some(v as int),
        None => None,
    }
}

/// A year, month and day of machine integers as mathematical ones.
pub open spec fn widen_civil(value: Option<(i32, u32, u32)>) -> Option<(int, int, int)> {
    match value {
        Some(c) => Some((c.0 as int, c.1 as int, c.2 as int)),
        None => None,
    }
}

/// Reads the local wall clock.
///
/// Trusted: calls `chrono::Local::now`, takes its naive local date and time
/// and hands out the seconds and sub-second nanoseconds that
/// `NaiveDateTime::and_utc` followed by `DateTime::timestamp` and
/// `DateTime::timestamp_subsec_nanos` give. Nothing is claimed of a clock.
#[verifier::external_body]
pub(crate) fn clock_now() -> (now: Timestamp) {
    let reading = chrono::Local::now().naive_local().and_utc();
    Timestamp { secs: reading.timestamp(), nanos: reading.timestamp_subsec_nanos() }
}

/// Trusted: `chrono::NaiveDate::parse_from_str`, its date handed out by
/// `NaiveDate::to_epoch_days`. The contract only names the result.
#[verifier::external_body]
pub(crate) fn parse_epoch_day(text: &str, format: &str) -> (day: Option<i32>)
    ensures
        widen(day) == parsed_epoch_day(text@, format@),
{
    match chrono::NaiveDate::parse_from_str(text, format) {
        Ok(date) => Some(date.to_epoch_days()),
        Err(_) => None,
    }
}

/// Trusted: `chrono::NaiveDate::from_ymd_opt`, its date handed out by
/// `NaiveDate::to_epoch_days`. The contract only names the result.
#[verifier::external_body]
pub(crate) fn civil_to_epoch_day(year: i32, month: u32, day: u32) -> (r: Option<i32>)
    ensures
        widen(r) == epoch_day_of_civil(year as int, month as int, day as int),
{
    match chrono::NaiveDate::from_ymd_opt(year, month, day) {
        Some(date) => Some(date.to_epoch_days()),
        None => None,
    }
}

/// Trusted: `chrono::NaiveDate::from_epoch_days`, its date handed out by
/// `Datelike::year`, `Datelike::month` and `Datelike::day`. The contract only
/// names the result.
#[verifier::external_body]
pub(crate) fn epoch_day_to_civil(day: i32) -> (r: Option<(i32, u32, u32)>)
    ensures
        widen_civil(r) == civil_of_epoch_day(day as int),
{
    match chrono::NaiveDate::from_epoch_days(day) {
        Some(date) => Some(
            (
                chrono::Datelike::year(&date),
                chrono::Datelike::month(&date),
                chrono::Datelike::day(&date),
            ),
        ),
        None => None,
    }
}

/// Trusted: `chrono::NaiveDate::from_epoch_days`, then `Datelike::weekday`
/// and `Weekday::number_from_monday`, which is documented to lie between 1
/// (Monday) and 7 (Sunday).
#[verifier::external_body]
pub(crate) fn epoch_day_to_weekday(day: i32) -> (r: Option<u32>)
    ensures
        match r {
            Some(w) => weekday_of_epoch_day(day as int) == Some(w as int) && 1 <= w <= 7,
            None => weekday_of_epoch_day(day as int).is_none(),
        },
{
    match chrono::NaiveDate::from_epoch_days(day) {
        Some(date) => Some(chrono::Datelike::weekday(&date).number_from_monday()),
        None => None,
    }
}

impl Timestamp {
    /// The total order of readings: by second, then by nanosecond.
    pub open spec fn before(self, other: Timestamp) -> bool {
        self.secs < other.secs || (self.secs == other.secs && self.nanos < other.nanos)
    }

    /// `self` is not later than `other`.
    pub open spec fn at_most(self, other: Timestamp) -> bool {
        !other.before(self)
    }

    /// The day the reading falls on, counted from 1970-01-01.
    pub open spec fn epoch_day(self) -> int {
        self.secs as int / SECONDS_PER_DAY as int
    }

    /// Seconds since the midnight that started the reading's day.
    pub open spec fn second_of_day(self) -> int {
        self.secs as int % SECONDS_PER_DAY as int
    }

    /// Whole seconds from `start` to `self`, zero where `self` is earlier.
    pub open spec fn seconds_since(self, start: Timestamp) -> int {
        if self.before(start) {
            0
        } else if self.nanos < start.nanos {
            self.secs - start.secs - 1
        } else {
            self.secs - start.secs
        }
    }

    /// The last second of the day `day`, if the clock can show it.
    pub open spec fn end_of_day_spec(day: int) -> Option<Timestamp> {
        let secs = day * SECONDS_PER_DAY as int + LAST_SECOND_OF_DAY as int;
        if i64::MIN <= secs <= i64::MAX {
            Some(Timestamp { secs: secs as i64, nanos: 0 })
        } else {
            None
        }
    }

    /// The reading `days` days later at the same time of day, if the clock
    /// can show it.
    pub open spec fn plus_days_spec(self, days: int) -> Option<Timestamp> {
        let secs = self.secs + days * SECONDS_PER_DAY as int;
        if i64::MIN <= secs <= i64::MAX {
            Some(Timestamp { secs: secs as i64, nanos: self.nanos })
        } else {
            None
        }
    }

    /// The same time of day on the day `day`, if the clock can show it.
    pub open spec fn on_day_spec(self, day: int) -> Option<Timestamp> {
        let secs = day * SECONDS_PER_DAY as int + self.second_of_day();
        if i64::MIN <= secs <= i64::MAX {
            Some(Timestamp { secs: secs as i64, nanos: self.nanos })
        } else {
            None
        }
    }

    /// The reading in whole milliseconds since 1970-01-01T00:00:00 on the
    /// clock.
    pub open spec fn millis_spec(self) -> int {
        self.secs * 1000 + self.nanos as int / 1_000_000
    }

    /// The reading in whole milliseconds since 1970-01-01T00:00:00 on the
    /// clock.
    pub fn millis(&self) -> (ms: i128)
        ensures
            ms == self.millis_spec(),
    {
        self.secs as i128 * 1000 + (self.nanos / 1_000_000) as i128
    }

    /// The reading that shows the given date and time of day; `None` where
    /// the calendar has no such date, the time of day no such hour, minute
    /// or second, or the clock cannot show the reading.
    pub open spec fn from_civil_spec(
        year: int,
        month: int,
        day: int,
        hour: int,
        minute: int,
        second: int,
    ) -> Option<Timestamp> {
        if hour < 24 && minute < 60 && second < 60 {
            match epoch_day_of_civil(year, month, day) {
                Some(d) => {
                    let secs = d * SECONDS_PER_DAY as int + hour * 3600 + minute * 60 + second;
                    if i64::MIN <= secs <= i64::MAX {
                        Some(Timestamp { secs: secs as i64, nanos: 0 })
                    } else {
                        None
                    }
                },
                None => None,
            }
        } else {
            None
        }
    }

    /// Year, month and day of month of the day of the reading; `None`
    /// where the day lies outside the calendar's range.
    pub open spec fn civil_date_spec(self) -> Option<(int, int, int)> {
        if i32::MIN <= self.epoch_day() <= i32::MAX {
            civil_of_epoch_day(self.epoch_day())
        } else {
            None
        }
    }

    /// The reading that shows the given date and time of day.
    pub fn from_civil(year: i32, month: u32, day: u32, hour: u32, minute: u32, second: u32) -> (r:
        Option<Timestamp>)
        ensures
            r == Self::from_civil_spec(
                year as int,
                month as int,
                day as int,
                hour as int,
                minute as int,
                second as int,
            ),
    {
        if hour >= 24 || minute >= 60 || second >= 60 {
            return None;
        }
        match civil_to_epoch_day(year, month, day) {
            Some(d) => {
                let secs: i128 = d as i128 * 86_400 + hour as i128 * 3600 + minute as i128 * 60
                    + second as i128;
                if i64::MIN as i128 <= secs && secs <= i64::MAX as i128 {
                    Some(Timestamp { secs: secs as i64, nanos: 0 })
                } else {
                    None
                }
            },
            None => None,
        }
    }

    /// Year, month and day of month of the day of the reading.
    pub fn civil_date(&self) -> (date: Option<(i32, u32, u32)>)
        ensures
            widen_civil(date) == self.civil_date_spec(),
    {
        let day = self.day();
        if day < i32::MIN as i64 || day > i32::MAX as i64 {
            return None;
        }
        epoch_day_to_civil(day as i32)
    }

    /// Hour, minute and second of the time of day of the reading.
    pub fn time_of_day(&self) -> (time: (u32, u32, u32))
        ensures
            time.0 == self.second_of_day() / 3600,
            time.1 == (self.second_of_day() % 3600) / 60,
            time.2 == self.second_of_day() % 60,
            time.0 < 24,
            time.1 < 60,
            time.2 < 60,
    {
        let s = self.seconds_into_day();
        ((s / 3600) as u32, ((s % 3600) / 60) as u32, (s % 60) as u32)
    }

    /// A reading from its two parts.
    pub fn new(secs: i64, nanos: u32) -> (t: Timestamp)
        ensures
            t.secs == secs,
            t.nanos == nanos,
    {
        Timestamp { secs, nanos }
    }

    /// The current reading of the local wall clock.
    pub fn now() -> Timestamp {
        clock_now()
    }

    /// Whether `self` is strictly earlier than `other`.
    pub fn is_before(&self, other: &Timestamp) -> (r: bool)
        ensures
            r == self.before(*other),
    {
        self.secs < other.secs || (self.secs == other.secs && self.nanos < other.nanos)
    }

    /// Whether `self` is `other` or earlier.
    pub fn is_at_most(&self, other: &Timestamp) -> (r: bool)
        ensures
            r == self.at_most(*other),
    {
        !other.is_before(self)
    }

    /// The day the reading falls on, counted from 1970-01-01; readings
    /// before 1970 fall on negative days.
    pub fn day(&self) -> (d: i64)
        ensures
            d == self.epoch_day(),
    {
        if self.secs >= 0 {
            self.secs / SECONDS_PER_DAY
        } else {
            (self.secs + 1) / SECONDS_PER_DAY - 1
        }
    }

    /// Seconds since the midnight that started the reading's day.
    pub fn seconds_into_day(&self) -> (s: i64)
        ensures
            s == self.second_of_day(),
            0 <= s < SECONDS_PER_DAY,
    {
        if self.secs >= 0 {
            self.secs % SECONDS_PER_DAY
        } else {
            (self.secs + 1) % SECONDS_PER_DAY + LAST_SECOND_OF_DAY
        }
    }

    /// Whether two readings fall on the same day.
    pub fn same_day(&self, other: &Timestamp) -> (r: bool)
        ensures
            r == (self.epoch_day() == other.epoch_day()),
    {
        self.day() == other.day()
    }

    /// Whole seconds elapsed from `start` to `self`; zero where `self` is
    /// the earlier reading.
    pub fn whole_seconds_since(&self, start: &Timestamp) -> (elapsed: u64)
        ensures
            elapsed == self.seconds_since(*start),
    {
        if self.is_before(start) {
            0
        } else {
            let gap: i128 = self.secs as i128 - start.secs as i128;
            if self.nanos < start.nanos {
                (gap - 1) as u64
            } else {
                gap as u64
            }
        }
    }

    /// The last second of day `day`: 23:59:59 on the wall clock.
    pub fn end_of_day(day: i64) -> (r: Option<Timestamp>)
        ensures
            r == Self::end_of_day_spec(day as int),
    {
        let secs: i128 = day as i128 * 86_400 + 86_399;
        if i64::MIN as i128 <= secs && secs <= i64::MAX as i128 {
            Some(Timestamp { secs: secs as i64, nanos: 0 })
        } else {
            None
        }
    }

    /// The reading `days` days later, at the same time of day.
    pub fn plus_days(&self, days: i64) -> (r: Option<Timestamp>)
        ensures
            r == self.plus_days_spec(days as int),
    {
        let secs: i128 = self.secs as i128 + days as i128 * 86_400;
        if i64::MIN as i128 <= secs && secs <= i64::MAX as i128 {
            Some(Timestamp { secs: secs as i64, nanos: self.nanos })
        } else {
            None
        }
    }

    /// The same time of day on another day.
    pub fn on_day(&self, day: i64) -> (r: Option<Timestamp>)
        ensures
            r == self.on_day_spec(day as int),
    {
        let into = self.seconds_into_day();
        let secs: i128 = day as i128 * 86_400 + into as i128;
        if i64::MIN as i128 <= secs && secs <= i64::MAX as i128 {
            Some(Timestamp { secs: secs as i64, nanos: self.nanos })
        } else {
            None
        }
    }
}

} // verus!
