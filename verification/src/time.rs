//! Calendar time.
//!
//! A point in time is counted in milliseconds from the start of 1970 and
//! shown as a date and a time of day in the Gregorian calendar. Reading a
//! clock is left to the caller: the functions here turn a count into a date
//! and move a date on by a count.

use vstd::prelude::*;
use crate::text::push_char;

verus! {

/// A count of milliseconds within a second.
pub type Millis = u16;

/// A count of seconds within a minute.
pub type Second = u8;

/// A count of minutes within an hour.
pub type Minute = u8;

/// A count of hours within a day.
pub type Hour = u8;

/// The number of a day within its month.
pub type Day = u8;

/// The number of a year.
pub type Year = u32;

/// A month of the year.
#[derive(Clone, Copy, Debug, PartialEq, Eq, Structural)]
pub enum Month {
    January,
    February,
    March,
    April,
    May,
    June,
    July,
    August,
    September,
    October,
    November,
    December,
}

/// The ways in which a date is written.
#[derive(Clone, Copy, Debug, PartialEq, Eq, Structural)]
pub enum DisplayMode {
    /// Year, month, day and time with milliseconds, in figures of fixed width.
    ISO8601,
    /// Month, day and time.
    Simple,
    /// Year, month by name, day and time, as the figures come.
    Debug,
}

/// A date and a time of day.
#[derive(Clone, Copy, Debug, PartialEq, Eq, Structural)]
pub struct DateMillis {
    pub display_mode: DisplayMode,
    pub milliseconds: Millis,
    pub seconds: Second,
    pub minutes: Minute,
    pub hours: Hour,
    pub day: Day,
    pub month: Month,
    pub year: Year,
}

/// The number of milliseconds in a day.
pub const DAY: u64 = 86_400_000;

/// The number of days in 400 years of the calendar.
pub const QUAD_CENTURY_DAYS: u64 = 146_097;

/// The year is a leap year: it is divisible by 4, and not by 100 unless by 400.
pub open spec fn leap(year: int) -> bool {
    year % 4 == 0 && (year % 100 != 0 || year % 400 == 0)
}

/// The number of days of a year.
pub open spec fn year_days(year: int) -> int {
    if leap(year) {
        366
    } else {
        365
    }
}

/// The number of days from the start of 1970 to the start of the year.
pub open spec fn days_before_year(year: int) -> int
    decreases year - 1970,
{
    if year <= 1970 {
        0
    } else {
        days_before_year(year - 1) + year_days(year - 1)
    }
}

/// The number of leap years among the years 1 to `year - 1`.
pub open spec fn leaps_before(year: int) -> int {
    (year - 1) / 4 - (year - 1) / 100 + (year - 1) / 400
}

/// The days before a year, counted without going through the years: 365
/// for each year since 1970, and one more for each leap year among them.
#[verifier::rlimit(30)]
pub proof fn lemma_days_before_year(year: int)
    requires
        year >= 1970,
    ensures
        days_before_year(year) == 365 * (year - 1970) + leaps_before(year) - 477,
        days_before_year(year + 400) == days_before_year(year) + 146_097,
    decreases year - 1970,
{
    if year > 1970 {
        lemma_days_before_year(year - 1);
    }
    lemma_closed(year + 400);
    lemma_closed(year);
}

#[verifier::rlimit(30)]
proof fn lemma_closed(year: int)
    requires
        year >= 1970,
    ensures
        days_before_year(year) == 365 * (year - 1970) + leaps_before(year) - 477,
    decreases year - 1970,
{
    if year > 1970 {
        lemma_closed(year - 1);
    }
}

impl Month {
    /// The month's number, 1 for January and 12 for December.
    #[verifier::allow_in_spec]
    pub fn number(&self) -> u8
        returns
            (match self {
                Month::January => 1u8,
                Month::February => 2u8,
                Month::March => 3u8,
                Month::April => 4u8,
                Month::May => 5u8,
                Month::June => 6u8,
                Month::July => 7u8,
                Month::August => 8u8,
                Month::September => 9u8,
                Month::October => 10u8,
                Month::November => 11u8,
                Month::December => 12u8,
            }),
    {
        match self {
            Month::January => 1,
            Month::February => 2,
            Month::March => 3,
            Month::April => 4,
            Month::May => 5,
            Month::June => 6,
            Month::July => 7,
            Month::August => 8,
            Month::September => 9,
            Month::October => 10,
            Month::November => 11,
            Month::December => 12,
        }
    }

    /// The month's name.
    pub fn name(&self) -> (s: &'static str)
        ensures
            s@ == self.name_of(),
    {
        match self {
            Month::January => "January",
            Month::February => "February",
            Month::March => "March",
            Month::April => "April",
            Month::May => "May",
            Month::June => "June",
            Month::July => "July",
            Month::August => "August",
            Month::September => "September",
            Month::October => "October",
            Month::November => "November",
            Month::December => "December",
        }
    }

    /// The month's name, as characters.
    pub open spec fn name_of(self) -> Seq<char> {
        match self {
            Month::January => "January"@,
            Month::February => "February"@,
            Month::March => "March"@,
            Month::April => "April"@,
            Month::May => "May"@,
            Month::June => "June"@,
            Month::July => "July"@,
            Month::August => "August"@,
            Month::September => "September"@,
            Month::October => "October"@,
            Month::November => "November"@,
            Month::December => "December"@,
        }
    }

    /// The number of days of the month, in a leap year or in another.
    pub open spec fn days(self, is_leap_year: bool) -> int {
        match self {
            Month::February => if is_leap_year {
                29
            } else {
                28
            },
            Month::April | Month::June | Month::September | Month::November => 30,
            _ => 31,
        }
    }

    /// The number of days of the year that lie before the month.
    pub open spec fn days_before(self, is_leap_year: bool) -> int {
        let extra: int = if is_leap_year {
            1
        } else {
            0
        };
        match self {
            Month::January => 0,
            Month::February => 31,
            Month::March => 59 + extra,
            Month::April => 90 + extra,
            Month::May => 120 + extra,
            Month::June => 151 + extra,
            Month::July => 181 + extra,
            Month::August => 212 + extra,
            Month::September => 243 + extra,
            Month::October => 273 + extra,
            Month::November => 304 + extra,
            Month::December => 334 + extra,
        }
    }
}

/// The number of days of the year.
pub fn days_in_year(year: Year) -> (days: u64)
    ensures
        days == year_days(year as int),
{
    if is_leap_year(year) {
        366
    } else {
        365
    }
}

/// Whether the year is a leap year.
pub fn is_leap_year(year: Year) -> (r: bool)
    ensures
        r == leap(year as int),
{
    (year % 4 == 0) && ((year % 100 != 0) || (year % 400 == 0))
}

impl DateMillis {
    /// The date is one of the calendar, from 1970 on, and the time is one
    /// of the day.
    pub open spec fn wf(self) -> bool {
        &&& self.year >= 1970
        &&& 1 <= self.day <= self.month.days(leap(self.year as int))
        &&& self.hours < 24
        &&& self.minutes < 60
        &&& self.seconds < 60
        &&& self.milliseconds < 1000
    }

    /// The number of whole days from the start of 1970 to the date.
    pub open spec fn unix_days(self) -> int {
        days_before_year(self.year as int) + self.month.days_before(leap(self.year as int))
            + self.day - 1
    }

    /// The number of milliseconds from the start of 1970 to the date and time.
    pub open spec fn unix_millis(self) -> int {
        self.unix_days() * 86_400_000 + self.hours * 3_600_000 + self.minutes * 60_000
            + self.seconds * 1000 + self.milliseconds
    }

    /// The number of days of a month.
    pub fn days_in_month(month: Month, is_leap_year: bool) -> (days: Day)
        ensures
            days == month.days(is_leap_year),
    {
        match month {
            Month::January => 31,
            Month::February => if is_leap_year {
                29
            } else {
                28
            },
            Month::March => 31,
            Month::April => 30,
            Month::May => 31,
            Month::June => 30,
            Month::July => 31,
            Month::August => 31,
            Month::September => 30,
            Month::October => 31,
            Month::November => 30,
            Month::December => 31,
        }
    }

    /// The month in which a day of the year lies, counted from 0, and the
    /// number of days of the year before that month. A day beyond the end
    /// of the year is placed in December.
    pub fn day_to_day_before_month_pair(day: u16, is_leap_year: bool) -> (r: (Month, u16))
        ensures
            r.1 == r.0.days_before(is_leap_year),
            r.1 <= day,
            day < year_days_of(is_leap_year) ==> day < r.1 + r.0.days(is_leap_year),
            day >= year_days_of(is_leap_year) ==> r.0 == Month::December,
    {
        let extra: u16 = if is_leap_year {
            1
        } else {
            0
        };
        if day < 31 {
            (Month::January, 0)
        } else if day < 59 + extra {
            (Month::February, 31)
        } else if day < 90 + extra {
            (Month::March, 59 + extra)
        } else if day < 120 + extra {
            (Month::April, 90 + extra)
        } else if day < 151 + extra {
            (Month::May, 120 + extra)
        } else if day < 181 + extra {
            (Month::June, 151 + extra)
        } else if day < 212 + extra {
            (Month::July, 181 + extra)
        } else if day < 243 + extra {
            (Month::August, 212 + extra)
        } else if day < 273 + extra {
            (Month::September, 243 + extra)
        } else if day < 304 + extra {
            (Month::October, 273 + extra)
        } else if day < 334 + extra {
            (Month::November, 304 + extra)
        } else {
            (Month::December, 334 + extra)
        }
    }

    /// The year in which a day lies, counted in days from the start of
    /// 1970, and the day's place in that year, counted from 0.
    #[verifier::rlimit(30)]
    pub fn year_of_day(total_days: u64) -> (r: (Year, u16))
        requires
            total_days <= 213_503_982_334,
        ensures
            r.0 >= 1970,
            r.1 < year_days(r.0 as int),
            days_before_year(r.0 as int) + r.1 == total_days,
    {
        let blocks: u64 = total_days / QUAD_CENTURY_DAYS;
        let mut days: u64 = total_days % QUAD_CENTURY_DAYS;
        let first: u64 = 1970 + 400 * blocks;
        let mut year: Year = first as u32;
        proof {
            lemma_blocks(blocks as int);
        }
        while days >= days_in_year(year)
            invariant
                first == 1970 + 400 * blocks,
                blocks <= 1_461_385,
                first <= year,
                365 * (year - first) + days <= 146_097,
                days_before_year(year as int) + days == total_days,
            decreases days,
        {
            days = days - days_in_year(year);
            year = year + 1;
        }
        (year, days as u16)
    }

    /// The hour, minute, second and millisecond of a time of day counted
    /// in milliseconds.
    pub fn time_of_day(rest: u64) -> (r: (Hour, Minute, Second, Millis))
        requires
            rest < 86_400_000,
        ensures
            r.0 < 24,
            r.1 < 60,
            r.2 < 60,
            r.3 < 1000,
            r.0 * 3_600_000 + r.1 * 60_000 + r.2 * 1000 + r.3 == rest,
    {
        let hours = rest / 3_600_000;
        let in_hour = rest % 3_600_000;
        let minutes = in_hour / 60_000;
        let in_minute = in_hour % 60_000;
        let seconds = in_minute / 1000;
        let milliseconds = in_minute % 1000;
        (hours as u8, minutes as u8, seconds as u8, milliseconds as u16)
    }

    /// The date and time that lie the given number of milliseconds after
    /// the start of 1970, to be written in the ISO 8601 way.
    #[verifier::rlimit(30)]
    pub fn new(unix_millis: u64) -> (date: DateMillis)
        ensures
            date.wf(),
            date.unix_millis() == unix_millis,
            date.display_mode == DisplayMode::ISO8601,
    {
        let total_days: u64 = unix_millis / DAY;
        let rest: u64 = unix_millis % DAY;
        let (year, day_of_year) = DateMillis::year_of_day(total_days);
        let (month, days_before_month) = DateMillis::day_to_day_before_month_pair(
            day_of_year,
            is_leap_year(year),
        );
        let (hours, minutes, seconds, milliseconds) = DateMillis::time_of_day(rest);
        let date = DateMillis {
            display_mode: DisplayMode::ISO8601,
            milliseconds,
            seconds,
            minutes,
            hours,
            day: (day_of_year - days_before_month + 1) as u8,
            month,
            year,
        };
        assert(date.unix_days() == total_days);
        date
    }

    /// The number of milliseconds from the start of 1970 to the date and
    /// time, which has to fit into 64 bits.
    #[verifier::rlimit(30)]
    pub fn to_unix_millis(&self) -> (millis: u64)
        requires
            self.wf(),
            self.unix_millis() <= u64::MAX,
        ensures
            millis == self.unix_millis(),
    {
        proof {
            lemma_days_before_year(self.year as int);
        }
        let y: u64 = self.year as u64;
        let before_year: u64 = 365 * (y - 1970) + ((y - 1) / 4 - (y - 1) / 100 + (y - 1) / 400)
            - 477;
        let is_leap = is_leap_year(self.year);
        let extra: u64 = if is_leap {
            1
        } else {
            0
        };
        let before_month: u64 = match self.month {
            Month::January => 0,
            Month::February => 31,
            Month::March => 59 + extra,
            Month::April => 90 + extra,
            Month::May => 120 + extra,
            Month::June => 151 + extra,
            Month::July => 181 + extra,
            Month::August => 212 + extra,
            Month::September => 243 + extra,
            Month::October => 273 + extra,
            Month::November => 304 + extra,
            Month::December => 334 + extra,
        };
        let days: u64 = before_year + before_month + (self.day as u64 - 1);
        assert(days == self.unix_days());
        days * DAY + self.hours as u64 * 3_600_000 + self.minutes as u64 * 60_000
            + self.seconds as u64 * 1000 + self.milliseconds as u64
    }

    /// Moves the date and time on by the given number of milliseconds. The
    /// way in which the date is written stays.
    pub fn update(&mut self, elapsed_millis: u64)
        requires
            old(self).wf(),
            old(self).unix_millis() + elapsed_millis <= u64::MAX,
        ensures
            final(self).wf(),
            final(self).unix_millis() == old(self).unix_millis() + elapsed_millis,
            final(self).display_mode == old(self).display_mode,
    {
        let display_mode = self.display_mode;
        let now = self.to_unix_millis() + elapsed_millis;
        *self = DateMillis::new(now);
        self.display_mode = display_mode;
    }

    /// Sets the way in which the date is written.
    pub fn set_display_mode(&mut self, display_mode: DisplayMode)
        ensures
            *final(self) == (DateMillis { display_mode, ..*old(self) }),
    {
        self.display_mode = display_mode;
    }
}

/// The number of days of a leap year or of another.
pub open spec fn year_days_of(is_leap_year: bool) -> int {
    if is_leap_year {
        366
    } else {
        365
    }
}

/// Later years start later: the days before a year grow with the year.
pub proof fn lemma_years_grow(a: int, b: int)
    requires
        1970 <= a < b,
    ensures
        days_before_year(a) + year_days(a) <= days_before_year(b),
    decreases b - a,
{
    if a + 1 < b {
        lemma_years_grow(a, b - 1);
    }
}

impl DateMillis {
    /// A date and time is known by its count of milliseconds: two that
    /// have the same count are the same, but for the way of writing them.
    #[verifier::rlimit(30)]
    pub proof fn lemma_date_determined(self, other: DateMillis)
        requires
            self.wf(),
            other.wf(),
            self.unix_millis() == other.unix_millis(),
        ensures
            self == (DateMillis { display_mode: self.display_mode, ..other }),
    {
        let a = self.hours * 3_600_000 + self.minutes * 60_000 + self.seconds * 1000
            + self.milliseconds;
        let b = other.hours * 3_600_000 + other.minutes * 60_000 + other.seconds * 1000
            + other.milliseconds;
        assert(0 <= a < 86_400_000 && 0 <= b < 86_400_000);
        assert(self.unix_days() == other.unix_days());
        assert(a == b);
        if self.year < other.year {
            lemma_years_grow(self.year as int, other.year as int);
        } else if other.year < self.year {
            lemma_years_grow(other.year as int, self.year as int);
        }
        assert(self.year == other.year);
    }
}

/// Every 400 years of the calendar have the same number of days.
proof fn lemma_blocks(blocks: int)
    requires
        blocks >= 0,
    ensures
        days_before_year(1970 + 400 * blocks) == 146_097 * blocks,
    decreases blocks,
{
    if blocks > 0 {
        lemma_blocks(blocks - 1);
        lemma_days_before_year(1970 + 400 * (blocks - 1));
    }
}

/// The figure for a number below 10.
pub open spec fn figure(d: nat) -> char {
    if d == 0 {
        '0'
    } else if d == 1 {
        '1'
    } else if d == 2 {
        '2'
    } else if d == 3 {
        '3'
    } else if d == 4 {
        '4'
    } else if d == 5 {
        '5'
    } else if d == 6 {
        '6'
    } else if d == 7 {
        '7'
    } else if d == 8 {
        '8'
    } else {
        '9'
    }
}

/// A number in decimal figures, without leading zeros.
pub open spec fn decimal(n: nat) -> Seq<char>
    decreases n,
{
    if n < 10 {
        seq![figure(n)]
    } else {
        decimal(n / 10).push(figure(n % 10))
    }
}

/// `count` zeros.
pub open spec fn zeros(count: int) -> Seq<char> {
    Seq::new(
        if count > 0 {
            count as nat
        } else {
            0
        },
        |i: int| '0',
    )
}

/// A number in decimal figures, with zeros before it up to the given width.
pub open spec fn padded(n: nat, width: nat) -> Seq<char> {
    zeros(width - decimal(n).len()) + decimal(n)
}

fn figure_of(d: u32) -> (c: char)
    requires
        d < 10,
    ensures
        c == figure(d as nat),
{
    match d {
        0 => '0',
        1 => '1',
        2 => '2',
        3 => '3',
        4 => '4',
        5 => '5',
        6 => '6',
        7 => '7',
        8 => '8',
        _ => '9',
    }
}

/// The number of decimal figures of a number.
fn figures(n: u32) -> (count: u8)
    ensures
        count == decimal(n as nat).len(),
        1 <= count <= 10,
        n < 10 ==> count <= 1,
        n < 100 ==> count <= 2,
        n < 1_000 ==> count <= 3,
        n < 10_000 ==> count <= 4,
        n < 100_000 ==> count <= 5,
        n < 1_000_000 ==> count <= 6,
        n < 10_000_000 ==> count <= 7,
        n < 100_000_000 ==> count <= 8,
        n < 1_000_000_000 ==> count <= 9,
    decreases n,
{
    if n < 10 {
        1
    } else {
        1 + figures(n / 10)
    }
}

/// Writes a number in decimal figures at the end of a text.
fn write_decimal(text: &mut String, n: u32)
    ensures
        final(text)@ == old(text)@ + decimal(n as nat),
    decreases n,
{
    if n >= 10 {
        write_decimal(text, n / 10);
    }
    push_char(text, figure_of(n % 10));
    assert(text@ =~= old(text)@ + decimal(n as nat));
}

/// Writes a number at the end of a text, with zeros before it up to the
/// given width.
fn write_padded(text: &mut String, n: u32, width: u8)
    ensures
        final(text)@ == old(text)@ + padded(n as nat, width as nat),
{
    let count = figures(n);
    let mut written: u8 = 0;
    while written < width && width - written > count
        invariant
            count == decimal(n as nat).len(),
            text@ == old(text)@ + zeros(written as int),
            written <= width,
            written as int <= (if width > count { width - count } else { 0int }),
        decreases width - written,
    {
        push_char(text, '0');
        written = written + 1;
        assert(text@ =~= old(text)@ + zeros(written as int));
    }
    assert(zeros(written as int) =~= zeros(width - count));
    write_decimal(text, n);
    assert(text@ =~= old(text)@ + padded(n as nat, width as nat));
}

impl DateMillis {
    /// The time of day in figures of fixed width: hours, minutes and
    /// seconds with colons between them.
    pub open spec fn time_text(self) -> Seq<char> {
        padded(self.hours as nat, 2) + seq![':'] + padded(self.minutes as nat, 2) + seq![':']
            + padded(self.seconds as nat, 2)
    }

    /// The date and time as text, in the way that the date asks for.
    /// `ISO8601` writes `2024-02-29 12:34:56.789`, `Simple` writes
    /// `02-29 12:34:56`, and `Debug` writes `2024/February/29 12:34:56.789`
    /// with every number as it comes, without leading zeros.
    pub open spec fn text(self) -> Seq<char> {
        match self.display_mode {
            DisplayMode::ISO8601 => padded(self.year as nat, 4) + seq!['-'] + padded(
                self.month.number() as nat,
                2,
            ) + seq!['-'] + padded(self.day as nat, 2) + seq![' '] + self.time_text() + seq!['.']
                + padded(self.milliseconds as nat, 3),
            DisplayMode::Simple => padded(self.month.number() as nat, 2) + seq!['-'] + padded(
                self.day as nat,
                2,
            ) + seq![' '] + self.time_text(),
            DisplayMode::Debug => decimal(self.year as nat) + seq!['/'] + self.month.name_of()
                + seq!['/'] + decimal(self.day as nat) + seq![' '] + decimal(self.hours as nat)
                + seq![':'] + decimal(self.minutes as nat) + seq![':'] + decimal(
                self.seconds as nat,
            ) + seq!['.'] + decimal(self.milliseconds as nat),
        }
    }

    fn write_time(&self, text: &mut String)
        ensures
            final(text)@ == old(text)@ + self.time_text(),
    {
        write_padded(text, self.hours as u32, 2);
        push_char(text, ':');
        write_padded(text, self.minutes as u32, 2);
        push_char(text, ':');
        write_padded(text, self.seconds as u32, 2);
        assert(text@ =~= old(text)@ + self.time_text());
    }

    /// The date and time as text, in the way that the date asks for.
    pub fn to_string(&self) -> (text: String)
        ensures
            text@ == self.text(),
    {
        let mut text = String::new();
        match self.display_mode {
            DisplayMode::ISO8601 => {
                write_padded(&mut text, self.year, 4);
                push_char(&mut text, '-');
                write_padded(&mut text, self.month.number() as u32, 2);
                push_char(&mut text, '-');
                write_padded(&mut text, self.day as u32, 2);
                push_char(&mut text, ' ');
                self.write_time(&mut text);
                push_char(&mut text, '.');
                write_padded(&mut text, self.milliseconds as u32, 3);
                assert(text@ =~= self.text());
            },
            DisplayMode::Simple => {
                write_padded(&mut text, self.month.number() as u32, 2);
                push_char(&mut text, '-');
                write_padded(&mut text, self.day as u32, 2);
                push_char(&mut text, ' ');
                self.write_time(&mut text);
                assert(text@ =~= self.text());
            },
            DisplayMode::Debug => {
                write_decimal(&mut text, self.year);
                push_char(&mut text, '/');
                text.append(self.month.name());
                push_char(&mut text, '/');
                write_decimal(&mut text, self.day as u32);
                push_char(&mut text, ' ');
                write_decimal(&mut text, self.hours as u32);
                push_char(&mut text, ':');
                write_decimal(&mut text, self.minutes as u32);
                push_char(&mut text, ':');
                write_decimal(&mut text, self.seconds as u32);
                push_char(&mut text, '.');
                write_decimal(&mut text, self.milliseconds as u32);
                assert(text@ =~= self.text());
            },
        }
        text
    }
}

} // verus!
