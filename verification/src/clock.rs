//! The clock engine: an instant seen from a time zone, the date and time to
//! display for it, and the seconds that remain of its local day.

use crate::instant::{instant_in_range, Instant};
use crate::text::{push_three_digits, push_two_digits, three_digits, two_digits};
use crate::timezone::{known_zone, TimezoneId};
use chrono::{Datelike, Offset, Timelike};
use vstd::prelude::*;

verus! {

/// The daily allowance: the number of seconds in one day.
pub const SECONDS_PER_DAY: u32 = 86_400;

/// Number of nanoseconds in one millisecond.
pub const NANOS_PER_MILLI: u32 = 1_000_000;

/// The second of the local day at which a zone's wall clock stands, `seconds`
/// seconds after the Unix epoch, while the zone is `utc_offset` seconds ahead
/// of UTC.
pub open spec fn second_of_day(seconds: int, utc_offset: int) -> int {
    (seconds + utc_offset) % 86_400
}

/// The calendar date and wall-clock time of an instant in a time zone, as
/// mathematical values.
pub ghost struct LocalTime {
    pub year: int,
    pub month: int,
    pub day: int,
    pub weekday: int,
    pub hour: int,
    pub minute: int,
    pub second: int,
    pub nanosecond: int,
    pub utc_offset: int,
    pub abbreviation: Seq<char>,
}

impl LocalTime {
    /// Every field lies in the range of a calendar date and a time of day.
    pub open spec fn is_valid(self) -> bool {
        &&& 1 <= self.month <= 12
        &&& 1 <= self.day <= 31
        &&& 0 <= self.weekday <= 6
        &&& 0 <= self.hour <= 23
        &&& 0 <= self.minute <= 59
        &&& 0 <= self.second <= 59
        &&& 0 <= self.nanosecond < 1_000_000_000
        &&& -86_400 < self.utc_offset < 86_400
    }

    /// Whether this is how a zone shows the instant at `nanos` nanoseconds
    /// after `seconds` seconds since the Unix epoch: the wall clock stands at
    /// the instant's second of the day in UTC, moved by the offset, and the
    /// fraction of a second is the instant's own.
    pub open spec fn shows(self, seconds: int, nanos: int) -> bool {
        &&& self.is_valid()
        &&& self.nanosecond == nanos
        &&& seconds_elapsed(self) == second_of_day(seconds, self.utc_offset)
    }
}

/// An instant projected into a time zone: its calendar date, its wall-clock
/// time, and the abbreviation of the zone's offset in effect at that instant.
#[derive(Debug, PartialEq, Eq)]
pub struct LocalizedInstant {
    /// Year of the proleptic Gregorian calendar.
    pub year: i32,
    /// Month of the year, from 1 for January to 12.
    pub month: u32,
    /// Day of the month, from 1.
    pub day: u32,
    /// Day of the week as days since Monday, from 0 for Monday to 6.
    pub weekday: u32,
    /// Hour of the day, from 0 to 23.
    pub hour: u32,
    /// Minute of the hour, from 0 to 59.
    pub minute: u32,
    /// Second of the minute, from 0 to 59.
    pub second: u32,
    /// Nanoseconds since the last whole second.
    pub nanosecond: u32,
    /// Seconds that local time is ahead of UTC; negative west of Greenwich.
    pub utc_offset_seconds: i32,
    /// Abbreviation of the offset in effect, such as `CEST`.
    pub abbreviation: String,
}

impl View for LocalizedInstant {
    type V = LocalTime;

    open spec fn view(&self) -> LocalTime {
        LocalTime {
            year: self.year as int,
            month: self.month as int,
            day: self.day as int,
            weekday: self.weekday as int,
            hour: self.hour as int,
            minute: self.minute as int,
            second: self.second as int,
            nanosecond: self.nanosecond as int,
            utc_offset: self.utc_offset_seconds as int,
            abbreviation: self.abbreviation@,
        }
    }
}

impl Clone for LocalizedInstant {
    fn clone(&self) -> (copy: LocalizedInstant)
        ensures
            copy@ == self@,
    {
        LocalizedInstant {
            year: self.year,
            month: self.month,
            day: self.day,
            weekday: self.weekday,
            hour: self.hour,
            minute: self.minute,
            second: self.second,
            nanosecond: self.nanosecond,
            utc_offset_seconds: self.utc_offset_seconds,
            abbreviation: self.abbreviation.clone(),
        }
    }
}

impl LocalizedInstant {
    /// Tells whether every field lies in its range.
    pub fn is_valid(&self) -> (valid: bool)
        ensures
            valid == self@.is_valid(),
    {
        let date = 1 <= self.month && self.month <= 12 && 1 <= self.day && self.day <= 31
            && self.weekday <= 6;
        let time = self.hour <= 23 && self.minute <= 59 && self.second <= 59 && self.nanosecond
            < 1_000_000_000;
        let offset = -86_400 < self.utc_offset_seconds && self.utc_offset_seconds < 86_400;
        date && time && offset
    }
}

/// What the time zone database and the calendar make of an instant: the
/// local date and time in the zone `zone` at `nanos` nanoseconds after
/// `seconds` seconds since the Unix epoch, with the offset in effect then.
pub uninterp spec fn local_time(zone: Seq<char>, seconds: int, nanos: int) -> LocalTime;

/// Calls `chrono::DateTime::from_timestamp` and `DateTime::with_timezone` with
/// the `chrono_tz::Tz` that `zone` parses to, and reads the local fields with
/// `Datelike`, `Timelike`, `Weekday::num_days_from_monday`,
/// `FixedOffset::local_minus_utc` and the `%Z` item of `DateTime::format`.
/// Trusted: the fields are what `local_time` stands for; each lies in the
/// range that chrono documents for it; the fraction of a second is that of
/// the instant, since offsets are whole seconds; and the wall clock is the
/// second of the day in UTC moved by the offset, which is what chrono means
/// by local time.
#[verifier::external_body]
fn project(zone: &str, seconds: i64, nanos: u32) -> (local: LocalizedInstant)
    requires
        known_zone(zone@),
        instant_in_range(seconds as int, nanos as int),
    ensures
        local@ == local_time(zone@, seconds as int, nanos as int),
        local@.is_valid(),
        local.nanosecond == nanos,
        seconds_elapsed(local@) == second_of_day(seconds as int, local.utc_offset_seconds as int),
{
    let tz: chrono_tz::Tz = zone.parse().unwrap();
    let at = chrono::DateTime::from_timestamp(seconds, nanos).unwrap().with_timezone(&tz);
    LocalizedInstant {
        year: at.year(),
        month: at.month(),
        day: at.day(),
        weekday: at.weekday().num_days_from_monday(),
        hour: at.hour(),
        minute: at.minute(),
        second: at.second(),
        nanosecond: at.nanosecond(),
        utc_offset_seconds: at.offset().fix().local_minus_utc(),
        abbreviation: at.format("%Z").to_string(),
    }
}

/// Projects `instant` into the zone `tz`, with the offset that is in effect
/// in that zone at that instant.
pub fn localize(instant: Instant, tz: &TimezoneId) -> (local: LocalizedInstant)
    ensures
        local@ == local_time(tz@, instant.unix_seconds(), instant.subsec_nanos()),
        local@.shows(instant.unix_seconds(), instant.subsec_nanos()),
{
    let seconds: i64 = instant.seconds();
    let nanos: u32 = instant.nanos();
    project(tz.name(), seconds, nanos)
}

/// The English name of the day of the week that lies `weekday` days after a
/// Monday.
pub open spec fn weekday_name(weekday: int) -> Seq<char> {
    if weekday == 0 {
        "Monday"@
    } else if weekday == 1 {
        "Tuesday"@
    } else if weekday == 2 {
        "Wednesday"@
    } else if weekday == 3 {
        "Thursday"@
    } else if weekday == 4 {
        "Friday"@
    } else if weekday == 5 {
        "Saturday"@
    } else {
        "Sunday"@
    }
}

/// The English name of the month with the number `month`, from 1.
pub open spec fn month_name(month: int) -> Seq<char> {
    if month == 1 {
        "January"@
    } else if month == 2 {
        "February"@
    } else if month == 3 {
        "March"@
    } else if month == 4 {
        "April"@
    } else if month == 5 {
        "May"@
    } else if month == 6 {
        "June"@
    } else if month == 7 {
        "July"@
    } else if month == 8 {
        "August"@
    } else if month == 9 {
        "September"@
    } else if month == 10 {
        "October"@
    } else if month == 11 {
        "November"@
    } else {
        "December"@
    }
}

/// The date as displayed: full weekday name, two-digit day, full month
/// name, separated by single spaces.
pub open spec fn date_text(local: LocalTime) -> Seq<char> {
    weekday_name(local.weekday) + seq![' '] + two_digits(local.day) + seq![' '] + month_name(
        local.month,
    )
}

/// The time as displayed: `HH:MM:SS.mmm` on the 24-hour clock, the
/// milliseconds truncated, then a space and the zone's abbreviation.
pub open spec fn time_text(local: LocalTime) -> Seq<char> {
    two_digits(local.hour) + seq![':'] + two_digits(local.minute) + seq![':'] + two_digits(
        local.second,
    ) + seq!['.'] + three_digits(local.nanosecond / (NANOS_PER_MILLI as int)) + seq![' ']
        + local.abbreviation
}

/// Whole seconds from local midnight to the local wall-clock time.
pub open spec fn seconds_elapsed(local: LocalTime) -> int {
    local.hour * 3600 + local.minute * 60 + local.second
}

/// What is left of the daily allowance at the local wall-clock time.
pub open spec fn seconds_remaining(local: LocalTime) -> int {
    SECONDS_PER_DAY - seconds_elapsed(local)
}

fn weekday_text(weekday: u32) -> (text: &'static str)
    requires
        weekday <= 6,
    ensures
        text@ == weekday_name(weekday as int),
{
    match weekday {
        0 => "Monday",
        1 => "Tuesday",
        2 => "Wednesday",
        3 => "Thursday",
        4 => "Friday",
        5 => "Saturday",
        _ => "Sunday",
    }
}

fn month_text(month: u32) -> (text: &'static str)
    requires
        1 <= month <= 12,
    ensures
        text@ == month_name(month as int),
{
    match month {
        1 => "January",
        2 => "February",
        3 => "March",
        4 => "April",
        5 => "May",
        6 => "June",
        7 => "July",
        8 => "August",
        9 => "September",
        10 => "October",
        11 => "November",
        _ => "December",
    }
}

/// Formats the date of `local` for display, such as `Tuesday 14 May`.
pub fn format_date(local: &LocalizedInstant) -> (text: String)
    requires
        local@.is_valid(),
    ensures
        text@ == date_text(local@),
{
    proof {
        reveal_strlit(" ");
    }
    let mut text = String::new();
    text.append(weekday_text(local.weekday));
    text.append(" ");
    push_two_digits(&mut text, local.day);
    text.append(" ");
    text.append(month_text(local.month));
    assert(text@ =~= date_text(local@));
    text
}

/// Formats the time of `local` for display, such as `14:03:07.512 CEST`.
pub fn format_time(local: &LocalizedInstant) -> (text: String)
    requires
        local@.is_valid(),
    ensures
        text@ == time_text(local@),
{
    proof {
        reveal_strlit(":");
        reveal_strlit(".");
        reveal_strlit(" ");
    }
    let mut text = String::new();
    push_two_digits(&mut text, local.hour);
    text.append(":");
    push_two_digits(&mut text, local.minute);
    text.append(":");
    push_two_digits(&mut text, local.second);
    text.append(".");
    push_three_digits(&mut text, local.nanosecond / NANOS_PER_MILLI);
    text.append(" ");
    text.append(local.abbreviation.as_str());
    assert(text@ =~= time_text(local@));
    text
}

/// The balance of the day: the daily allowance less the whole seconds that
/// have passed on the local wall clock since local midnight.
pub fn seconds_remaining_today(local: &LocalizedInstant) -> (remaining: u32)
    requires
        local@.is_valid(),
    ensures
        remaining == seconds_remaining(local@),
        1 <= remaining <= SECONDS_PER_DAY,
{
    let elapsed: u32 = local.hour * 3600 + local.minute * 60 + local.second;
    SECONDS_PER_DAY - elapsed
}

/// One reading of the time bank, as mathematical values.
pub ghost struct BalanceReading {
    pub formatted_date: Seq<char>,
    pub formatted_time: Seq<char>,
    pub seconds_remaining_today: int,
}

/// One reading of the time bank: the local date and time to display and the
/// seconds that remain until local midnight.
#[derive(Debug, PartialEq, Eq)]
pub struct DailyBalanceSnapshot {
    /// The local date, such as `Tuesday 14 May`.
    pub formatted_date: String,
    /// The local time, such as `14:03:07.512 CEST`.
    pub formatted_time: String,
    /// The daily allowance less the seconds elapsed since local midnight.
    pub seconds_remaining_today: u32,
}

impl View for DailyBalanceSnapshot {
    type V = BalanceReading;

    open spec fn view(&self) -> BalanceReading {
        BalanceReading {
            formatted_date: self.formatted_date@,
            formatted_time: self.formatted_time@,
            seconds_remaining_today: self.seconds_remaining_today as int,
        }
    }
}

impl Clone for DailyBalanceSnapshot {
    fn clone(&self) -> (copy: DailyBalanceSnapshot)
        ensures
            copy@ == self@,
    {
        DailyBalanceSnapshot {
            formatted_date: self.formatted_date.clone(),
            formatted_time: self.formatted_time.clone(),
            seconds_remaining_today: self.seconds_remaining_today,
        }
    }
}

/// The reading that a local date and time gives.
pub open spec fn snapshot_of(local: LocalTime) -> BalanceReading {
    BalanceReading {
        formatted_date: date_text(local),
        formatted_time: time_text(local),
        seconds_remaining_today: seconds_remaining(local),
    }
}

/// The reading at an instant in a zone.
pub open spec fn reading(zone: Seq<char>, seconds: int, nanos: int) -> BalanceReading {
    snapshot_of(local_time(zone, seconds, nanos))
}

/// Derives the reading from a local date and time.
pub fn snapshot(local: &LocalizedInstant) -> (snap: DailyBalanceSnapshot)
    requires
        local@.is_valid(),
    ensures
        snap@ == snapshot_of(local@),
{
    DailyBalanceSnapshot {
        formatted_date: format_date(local),
        formatted_time: format_time(local),
        seconds_remaining_today: seconds_remaining_today(local),
    }
}

/// Evaluates the time bank at `instant` in the zone `tz`: projects the
/// instant into the zone and derives the reading from the local date and
/// time. The result depends on the two arguments alone.
pub fn evaluate(instant: Instant, tz: &TimezoneId) -> (snap: DailyBalanceSnapshot)
    ensures
        snap@ == reading(tz@, instant.unix_seconds(), instant.subsec_nanos()),
        1 <= snap.seconds_remaining_today <= SECONDS_PER_DAY,
        local_time(tz@, instant.unix_seconds(), instant.subsec_nanos()).shows(
            instant.unix_seconds(),
            instant.subsec_nanos(),
        ),
{
    let local = localize(instant, tz);
    snapshot(&local)
}

/// The balance never exceeds the daily allowance and never falls below
/// zero: it is the allowance less the seconds elapsed, and while the local
/// time is a time of day at least one second remains.
pub proof fn balance_within_allowance(local: LocalTime)
    requires
        local.is_valid(),
    ensures
        0 <= snapshot_of(local).seconds_remaining_today <= SECONDS_PER_DAY,
        snapshot_of(local).seconds_remaining_today == SECONDS_PER_DAY - seconds_elapsed(local),
        0 <= seconds_elapsed(local) < SECONDS_PER_DAY,
        snapshot_of(local).seconds_remaining_today >= 1,
{
}

/// At local midnight the whole allowance remains, and in the last second
/// before the next local midnight one second remains.
pub proof fn balance_at_the_edges_of_the_day(local: LocalTime)
    ensures
        local.hour == 0 && local.minute == 0 && local.second == 0 ==> snapshot_of(
            local,
        ).seconds_remaining_today == SECONDS_PER_DAY,
        local.hour == 23 && local.minute == 59 && local.second == 59 ==> snapshot_of(
            local,
        ).seconds_remaining_today == 1,
{
}

/// The wall clock of a local time that shows an instant is fixed by the
/// instant and the offset: hour, minute and second are the parts of the
/// instant's second of the day in UTC, moved by the offset.
pub proof fn wall_clock_follows_the_offset(local: LocalTime, seconds: int, nanos: int)
    requires
        local.shows(seconds, nanos),
    ensures
        local.hour == second_of_day(seconds, local.utc_offset) / 3600,
        local.minute == (second_of_day(seconds, local.utc_offset) / 60) % 60,
        local.second == second_of_day(seconds, local.utc_offset) % 60,
        snapshot_of(local).seconds_remaining_today == SECONDS_PER_DAY - second_of_day(
            seconds,
            local.utc_offset,
        ),
{
}

/// The instant at which a day begins on the local wall clock has the whole
/// allowance, and the instant one second before the next day begins has one
/// second left.
pub proof fn balance_at_local_midnight(local: LocalTime, seconds: int, nanos: int)
    requires
        local.shows(seconds, nanos),
    ensures
        second_of_day(seconds, local.utc_offset) == 0 ==> snapshot_of(
            local,
        ).seconds_remaining_today == SECONDS_PER_DAY,
        second_of_day(seconds, local.utc_offset) == SECONDS_PER_DAY - 1 ==> snapshot_of(
            local,
        ).seconds_remaining_today == 1,
{
}

proof fn lemma_next_second_of_day(second: int)
    ensures
        (second + 1) % 86_400 == if second % 86_400 == 86_399 {
            0
        } else {
            second % 86_400 + 1
        },
{
}

/// While the offset stays the same the balance decays by one with every
/// second, and it is the whole allowance again when the next day begins.
pub proof fn balance_decays_by_the_second(
    now: LocalTime,
    next: LocalTime,
    seconds: int,
    nanos: int,
    next_nanos: int,
)
    requires
        now.shows(seconds, nanos),
        next.shows(seconds + 1, next_nanos),
        now.utc_offset == next.utc_offset,
    ensures
        snapshot_of(next).seconds_remaining_today == if snapshot_of(now).seconds_remaining_today
            == 1 {
            SECONDS_PER_DAY as int
        } else {
            snapshot_of(now).seconds_remaining_today - 1
        },
{
    lemma_next_second_of_day(seconds + now.utc_offset);
    assert(seconds + 1 + next.utc_offset == (seconds + now.utc_offset) + 1);
}

/// The fraction of a second changes the displayed milliseconds only: two
/// local times that differ in nothing but the fraction have the same
/// balance.
pub proof fn fraction_does_not_touch_the_balance(first: LocalTime, second: LocalTime)
    requires
        first.hour == second.hour,
        first.minute == second.minute,
        first.second == second.second,
    ensures
        snapshot_of(first).seconds_remaining_today == snapshot_of(second).seconds_remaining_today,
{
}

/// Evaluation is a function of the instant and the zone: two readings that
/// were taken at the same instant in the same zone agree in every field.
pub proof fn readings_agree(
    zone: Seq<char>,
    seconds: int,
    nanos: int,
    first: BalanceReading,
    second: BalanceReading,
)
    requires
        first == reading(zone, seconds, nanos),
        second == reading(zone, seconds, nanos),
    ensures
        first.formatted_date == second.formatted_date,
        first.formatted_time == second.formatted_time,
        first.seconds_remaining_today == second.seconds_remaining_today,
{
}

} // verus!
