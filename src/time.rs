//! Local calendar time, day-parts and clock text.

use chrono::{Datelike, Timelike};
use crate::text::{decimal, decimal_text, signed_decimal, signed_decimal_text, two_digit_text, two_digits};
use vstd::prelude::*;

verus! {

/// Seconds in a day.
pub const SECONDS_PER_DAY: i64 = 86400;

/// The largest distance from the epoch, in seconds, for which a calendar
/// time is always available.
pub const MAX_TIMESTAMP: i64 = 1000000000000;

/// A calendar date and wall-clock time, already shifted to some time zone.
#[derive(Clone, Copy, Debug, PartialEq, Eq)]
pub struct LocalTime {
    pub year: i32,
    pub month: u32,
    pub day: u32,
    pub hour: u32,
    pub minute: u32,
    pub second: u32,
}

impl LocalTime {
    /// Each field lies in its calendar range.
    pub open spec fn wf(&self) -> bool {
        &&& 1 <= self.month <= 12
        &&& 1 <= self.day <= 31
        &&& self.hour < 24
        &&& self.minute < 60
        &&& self.second < 60
    }

    /// The clock fields are those of `secs` seconds after midnight of day zero.
    pub open spec fn has_clock_of(&self, secs: int) -> bool {
        &&& self.hour == (secs % 86400) / 3600
        &&& self.minute == (secs % 3600) / 60
        &&& self.second == secs % 60
    }
}

/// The proleptic Gregorian (year, month, day) of the day that lies
/// `days_since_epoch` days after 1970-01-01. Days are counted in 400-year
/// eras of 146097 days, each era's years starting on 1 March so that the
/// leap day falls last.
pub open spec fn civil_date(days_since_epoch: int) -> (int, int, int) {
    let z = days_since_epoch + 719468;
    let era = z / 146097;
    let doe = z % 146097;
    let yoe = (doe - doe / 1460 + doe / 36524 - doe / 146096) / 365;
    let doy = doe - (365 * yoe + yoe / 4 - yoe / 100);
    let mp = (5 * doy + 2) / 153;
    let day = doy - (153 * mp + 2) / 5 + 1;
    let month = if mp < 10 { mp + 3 } else { mp - 9 };
    let year = yoe + era * 400 + if month <= 2 { 1int } else { 0int };
    (year, month, day)
}

/// The calendar time `secs` seconds after the epoch, in the zone those
/// seconds are counted in.
pub open spec fn local_time_at(secs: int) -> LocalTime {
    let date = civil_date(secs / 86400);
    LocalTime {
        year: date.0 as i32,
        month: date.1 as u32,
        day: date.2 as u32,
        hour: ((secs % 86400) / 3600) as u32,
        minute: ((secs % 3600) / 60) as u32,
        second: (secs % 60) as u32,
    }
}

/// Relies on chrono's `DateTime::from_timestamp(secs, 0)`: it fails only for
/// a date outside chrono's year range (about 262,000 years either side of
/// the epoch), it splits the timestamp at the Euclidean quotient and
/// remainder by one day, and the day count names a proleptic Gregorian date.
/// The date is read back with the `Datelike` getters (month 1 to 12, day 1
/// to 31) and the clock with the `Timelike` ones.
#[verifier::external_body]
fn calendar_time(secs: i64) -> (r: Option<LocalTime>)
    ensures
        -MAX_TIMESTAMP <= secs <= MAX_TIMESTAMP ==> r is Some,
        r matches Some(t) ==> {
            &&& t.wf()
            &&& t == local_time_at(secs as int)
            &&& civil_date(secs as int / 86400) == (t.year as int, t.month as int, t.day as int)
        },
{
    let t = chrono::DateTime::from_timestamp(secs, 0)?;
    Some(LocalTime {
        year: t.year(),
        month: t.month(),
        day: t.day(),
        hour: t.hour(),
        minute: t.minute(),
        second: t.second(),
    })
}

/// A UTC offset is usable when it is strictly less than a day either way.
pub open spec fn valid_offset(offset_seconds: int) -> bool {
    -86400 < offset_seconds < 86400
}

/// Timestamps, in seconds since the epoch, for which local times are given:
/// within `MAX_TIMESTAMP` of the epoch, less a day for the zone offset.
pub open spec fn supported_timestamp(timestamp: int) -> bool {
    -MAX_TIMESTAMP + SECONDS_PER_DAY <= timestamp <= MAX_TIMESTAMP - SECONDS_PER_DAY
}

/// The calendar time at `timestamp` in a zone `offset_seconds` east of UTC,
/// if the offset is valid and the timestamp supported.
pub open spec fn local_time_spec(timestamp: int, offset_seconds: int) -> Option<LocalTime> {
    if valid_offset(offset_seconds) && supported_timestamp(timestamp) {
        Some(local_time_at(timestamp + offset_seconds))
    } else {
        None
    }
}

/// The calendar time at `timestamp` (seconds since the epoch, UTC) in a zone
/// `offset_seconds` east of UTC; `None` for an offset of a day or more and
/// for an unsupported timestamp.
pub fn local_time(timestamp: i64, offset_seconds: i32) -> (r: Option<LocalTime>)
    ensures
        r == local_time_spec(timestamp as int, offset_seconds as int),
        r matches Some(t) ==> t.wf() && t.has_clock_of(timestamp as int + offset_seconds as int),
{
    if offset_seconds <= -86400 || offset_seconds >= 86400 {
        return None;
    }
    if timestamp < -MAX_TIMESTAMP + SECONDS_PER_DAY || timestamp > MAX_TIMESTAMP - SECONDS_PER_DAY {
        return None;
    }
    calendar_time(timestamp + offset_seconds as i64)
}

/// A coarse part of the local day, used to pick icons.
#[derive(Clone, Copy, Debug, PartialEq, Eq, Structural)]
pub enum DayPart {
    Evening,
    Day,
    Night,
}

/// Day is 09:00 to 19:59, evening 06:00 to 08:59, night every other hour.
pub open spec fn day_part_of(hour: int) -> DayPart {
    if 9 <= hour < 20 {
        DayPart::Day
    } else if 6 <= hour < 9 {
        DayPart::Evening
    } else {
        DayPart::Night
    }
}

/// The day-part at a timestamp in a zone, where the local time is known.
pub open spec fn day_part_at(timestamp: int, offset_seconds: int) -> Option<DayPart> {
    match local_time_spec(timestamp, offset_seconds) {
        Some(t) => Some(day_part_of(t.hour as int)),
        None => None,
    }
}

impl DayPart {
    /// The day-part of a local hour.
    pub fn classify(hour: u32) -> (r: DayPart)
        ensures
            r == day_part_of(hour as int),
    {
        if hour >= 9 && hour < 20 {
            DayPart::Day
        } else if hour < 9 && hour > 5 {
            DayPart::Evening
        } else {
            DayPart::Night
        }
    }

    /// The day-part at `timestamp` in a zone `offset_seconds` east of UTC;
    /// the same pair always gives the same answer.
    pub fn at(timestamp: i64, offset_seconds: i32) -> (r: Option<DayPart>)
        ensures
            r == day_part_at(timestamp as int, offset_seconds as int),
    {
        match local_time(timestamp, offset_seconds) {
            Some(t) => Some(DayPart::classify(t.hour)),
            None => None,
        }
    }
}

/// Every hour of the day has exactly one day-part: day for 9 to 19, evening
/// for 6 to 8 and night for the rest, with no gaps or overlaps.
pub proof fn day_parts_partition(hour: int)
    requires
        0 <= hour < 24,
    ensures
        (day_part_of(hour) == DayPart::Day) <==> (9 <= hour < 20),
        (day_part_of(hour) == DayPart::Evening) <==> (6 <= hour < 9),
        (day_part_of(hour) == DayPart::Night) <==> (hour < 6 || 20 <= hour),
{
}

/// How a `Time` is written.
#[derive(Clone, Copy, Debug, PartialEq, Eq, Structural)]
pub enum DisplayMode {
    /// HH:MM
    TimeDefault,
    /// H:MM:SS
    TimeWithSeconds,
    /// dd.mm.yyyy H:MM
    TimeDate,
    /// dd.mm.yyyy H:MM:SS
    TimeWithSecondsDate,
}

impl Default for DisplayMode {
    fn default() -> (r: DisplayMode)
        ensures
            r == DisplayMode::TimeDefault,
    {
        DisplayMode::TimeDefault
    }
}

/// `dd.mm.yyyy `: the date part of the dated modes, with its trailing space.
pub open spec fn date_text(t: LocalTime) -> Seq<char> {
    two_digits(t.day as nat) + seq!['.'] + two_digits(t.month as nat) + seq!['.'] + signed_decimal(
        t.year as int,
    ) + seq![' ']
}

/// The text of `t` in `mode`. Only `TimeDefault` pads the hour.
pub open spec fn clock_text(t: LocalTime, mode: DisplayMode) -> Seq<char> {
    let minutes = seq![':'] + two_digits(t.minute as nat);
    let seconds = seq![':'] + two_digits(t.second as nat);
    let hour = decimal(t.hour as nat);
    match mode {
        DisplayMode::TimeDefault => two_digits(t.hour as nat) + minutes,
        DisplayMode::TimeWithSeconds => hour + minutes + seconds,
        DisplayMode::TimeDate => date_text(t) + hour + minutes,
        DisplayMode::TimeWithSecondsDate => date_text(t) + hour + minutes + seconds,
    }
}

/// A local time together with the way it is to be written.
#[derive(Clone, Copy, Debug)]
pub struct Time {
    time: LocalTime,
    display_mode: DisplayMode,
}

impl Time {
    pub closed spec fn time(&self) -> LocalTime {
        self.time
    }

    pub closed spec fn display_mode(&self) -> DisplayMode {
        self.display_mode
    }

    /// A time written in the default mode, `HH:MM`.
    pub fn new(time: LocalTime) -> (r: Time)
        ensures
            r.time() == time,
            r.display_mode() == DisplayMode::TimeDefault,
    {
        Time { time, display_mode: DisplayMode::TimeDefault }
    }

    pub fn set_display_mode(self, mode: DisplayMode) -> (r: Time)
        ensures
            r.time() == self.time(),
            r.display_mode() == mode,
    {
        Time { time: self.time, display_mode: mode }
    }

    /// The text of the time in its display mode.
    pub fn to_string(&self) -> (r: String)
        ensures
            r@ == clock_text(self.time(), self.display_mode()),
    {
        proof {
            reveal_strlit(":");
            reveal_strlit(".");
            reveal_strlit(" ");
        }
        let t = self.time;
        let mut r = String::new();
        let dated = match self.display_mode {
            DisplayMode::TimeDate | DisplayMode::TimeWithSecondsDate => true,
            _ => false,
        };
        if dated {
            r.append(two_digit_text(t.day as u64).as_str());
            r.append(".");
            r.append(two_digit_text(t.month as u64).as_str());
            r.append(".");
            r.append(signed_decimal_text(t.year as i64).as_str());
            r.append(" ");
            assert(r@ =~= date_text(t));
        }
        let hour = match self.display_mode {
            DisplayMode::TimeDefault => two_digit_text(t.hour as u64),
            _ => decimal_text(t.hour as u64),
        };
        r.append(hour.as_str());
        r.append(":");
        r.append(two_digit_text(t.minute as u64).as_str());
        let with_seconds = match self.display_mode {
            DisplayMode::TimeWithSeconds | DisplayMode::TimeWithSecondsDate => true,
            _ => false,
        };
        if with_seconds {
            r.append(":");
            r.append(two_digit_text(t.second as u64).as_str());
        }
        assert(r@ =~= clock_text(t, self.display_mode));
        r
    }
}

} // verus!
