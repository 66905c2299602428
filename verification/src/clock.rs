//! Wall-clock timestamps and the two texts derived from them.

use vstd::prelude::*;
use crate::text::{four_digits, two_digits};

verus! {

/// A calendar date and a time of day, as plain numbers.
pub struct CivilTime {
    pub year: int,
    pub month: int,
    pub day: int,
    pub hour: int,
    pub minute: int,
    pub second: int,
}

/// Gregorian leap-year rule.
pub open spec fn is_leap_year(year: int) -> bool {
    year % 4 == 0 && (year % 100 != 0 || year % 400 == 0)
}

/// Number of days of `month` (1 to 12) in `year`.
pub open spec fn days_in_month(year: int, month: int) -> int {
    if month == 2 {
        if is_leap_year(year) {
            29
        } else {
            28
        }
    } else if month == 4 || month == 6 || month == 9 || month == 11 {
        30
    } else {
        31
    }
}

impl CivilTime {
    /// The day exists in the Gregorian calendar, the year is written with
    /// four digits, and the time of day is one of the 86400 seconds of a day.
    pub open spec fn is_valid(self) -> bool {
        &&& 0 <= self.year <= 9999
        &&& 1 <= self.month <= 12
        &&& 1 <= self.day <= days_in_month(self.year, self.month)
        &&& 0 <= self.hour < 24
        &&& 0 <= self.minute < 60
        &&& 0 <= self.second < 60
    }
}

/// `YYYY-MM-DD HH:MM:SS`, every field zero-padded.
pub open spec fn stamp_text(t: CivilTime) -> Seq<char> {
    four_digits(t.year) + seq!['-'] + two_digits(t.month) + seq!['-'] + two_digits(t.day)
        + seq![' '] + two_digits(t.hour) + seq![':'] + two_digits(t.minute) + seq![':']
        + two_digits(t.second)
}

/// `HHMMSS`, every field zero-padded.
pub open spec fn label_text(t: CivilTime) -> Seq<char> {
    two_digits(t.hour) + two_digits(t.minute) + two_digits(t.second)
}

/// A valid calendar date and time of day.
#[derive(Clone, Copy, Debug, PartialEq, Eq)]
pub struct Timestamp {
    year: i32,
    month: u32,
    day: u32,
    hour: u32,
    minute: u32,
    second: u32,
}

impl View for Timestamp {
    type V = CivilTime;

    closed spec fn view(&self) -> CivilTime {
        CivilTime {
            year: self.year as int,
            month: self.month as int,
            day: self.day as int,
            hour: self.hour as int,
            minute: self.minute as int,
            second: self.second as int,
        }
    }
}

fn month_length(year: i32, month: u32) -> (n: u32)
    requires
        0 <= year <= 9999,
    ensures
        n == days_in_month(year as int, month as int),
{
    if month == 2 {
        if year % 4 == 0 && (year % 100 != 0 || year % 400 == 0) {
            29
        } else {
            28
        }
    } else if month == 4 || month == 6 || month == 9 || month == 11 {
        30
    } else {
        31
    }
}

/// What `chrono::NaiveDateTime::format` writes for the date and time `t`,
/// turned into a `String` by `to_string`. The date is built with
/// `NaiveDate::from_ymd_opt` and `and_hms_opt`, which accept every valid
/// `t`. Claimed for the two patterns this crate uses: `%Y` writes a year
/// from 0 to 9999 as four zero-padded digits, `%m`, `%d`, `%H`, `%M` and
/// `%S` write two zero-padded digits, and every other character of these
/// patterns is copied.
#[verifier::external_body]
fn format_civil(t: &Timestamp, pattern: &str) -> (s: String)
    requires
        t@.is_valid(),
        pattern@ == "%Y-%m-%d %H:%M:%S"@ || pattern@ == "%H%M%S"@,
    ensures
        pattern@ == "%Y-%m-%d %H:%M:%S"@ ==> s@ == stamp_text(t@),
        pattern@ == "%H%M%S"@ ==> s@ == label_text(t@),
{
    chrono::NaiveDate::from_ymd_opt(t.year, t.month, t.day)
        .unwrap()
        .and_hms_opt(t.hour, t.minute, t.second)
        .unwrap()
        .format(pattern)
        .to_string()
}

/// Date and time fields as a clock reports them, not yet checked.
#[derive(Clone, Copy, Debug, PartialEq, Eq)]
pub struct ClockFields {
    pub year: i32,
    pub month: u32,
    pub day: u32,
    pub hour: u32,
    pub minute: u32,
    pub second: u32,
}

impl ClockFields {
    /// The fields as plain numbers.
    pub open spec fn civil(self) -> CivilTime {
        CivilTime {
            year: self.year as int,
            month: self.month as int,
            day: self.day as int,
            hour: self.hour as int,
            minute: self.minute as int,
            second: self.second as int,
        }
    }
}

/// The fields of `chrono::Local::now()`, read with the accessors of
/// `Datelike` and `Timelike`. The result depends on the machine's clock and
/// time zone; claimed are only the ranges that chrono documents for these
/// accessors: months 1 to 12, days 1 to 31, hours 0 to 23, minutes and
/// seconds 0 to 59. Nothing is claimed of the year.
#[verifier::external_body]
fn local_clock() -> (fields: ClockFields)
    ensures
        1 <= fields.month <= 12,
        1 <= fields.day <= 31,
        fields.hour <= 23,
        fields.minute <= 59,
        fields.second <= 59,
{
    let now = chrono::Local::now();
    ClockFields {
        year: chrono::Datelike::year(&now),
        month: chrono::Datelike::month(&now),
        day: chrono::Datelike::day(&now),
        hour: chrono::Timelike::hour(&now),
        minute: chrono::Timelike::minute(&now),
        second: chrono::Timelike::second(&now),
    }
}

impl Timestamp {
    #[verifier::type_invariant]
    spec fn well_formed(self) -> bool {
        self@.is_valid()
    }

    /// The timestamp with the given fields, if they name a valid date and
    /// time of day.
    pub fn from_fields(fields: ClockFields) -> (r: Option<Timestamp>)
        ensures
            r is Some <==> fields.civil().is_valid(),
            r matches Some(t) ==> t@ == fields.civil(),
    {
        if fields.year < 0 || fields.year > 9999 || fields.month < 1 || fields.month > 12
            || fields.hour >= 24 || fields.minute >= 60 || fields.second >= 60 {
            return None;
        }
        if fields.day < 1 || fields.day > month_length(fields.year, fields.month) {
            return None;
        }
        Some(
            Timestamp {
                year: fields.year,
                month: fields.month,
                day: fields.day,
                hour: fields.hour,
                minute: fields.minute,
                second: fields.second,
            },
        )
    }

    /// The timestamp with the given fields, if they name a valid date and
    /// time of day.
    pub fn new(year: i32, month: u32, day: u32, hour: u32, minute: u32, second: u32) -> (r: Option<
        Timestamp,
    >)
        ensures
            r is Some <==> (ClockFields { year, month, day, hour, minute, second }).civil().is_valid(),
            r matches Some(t) ==> t@ == (ClockFields {
                year,
                month,
                day,
                hour,
                minute,
                second,
            }).civil(),
    {
        Timestamp::from_fields(ClockFields { year, month, day, hour, minute, second })
    }

    /// The local date and time of the machine's clock, if it can be written
    /// as a timestamp.
    pub fn now() -> (r: Option<Timestamp>)
        ensures
            r matches Some(t) ==> t@.is_valid(),
    {
        Timestamp::from_fields(local_clock())
    }

    /// The fields of this timestamp. Every timestamp is a valid date and
    /// time of day.
    pub fn fields(&self) -> (fields: ClockFields)
        ensures
            fields.civil() == self@,
            self@.is_valid(),
    {
        proof {
            use_type_invariant(self);
        }
        ClockFields {
            year: self.year,
            month: self.month,
            day: self.day,
            hour: self.hour,
            minute: self.minute,
            second: self.second,
        }
    }

    /// The log stamp of this time: `YYYY-MM-DD HH:MM:SS`.
    pub fn stamp(&self) -> (s: String)
        ensures
            s@ == stamp_text(self@),
    {
        proof {
            use_type_invariant(self);
        }
        format_civil(self, "%Y-%m-%d %H:%M:%S")
    }

    /// The bar label of this time: `HHMMSS`.
    pub fn label(&self) -> (s: String)
        ensures
            s@ == label_text(self@),
    {
        proof {
            use_type_invariant(self);
        }
        format_civil(self, "%H%M%S")
    }
}

} // verus!
