//! Points in UTC time, to the second, and the calls into chrono that read a
//! date or a time of day, or the clock.

use vstd::prelude::*;

verus! {

/// A UTC date and time of day, to the second.
#[derive(Clone, Copy, Debug, PartialEq, Eq, Structural)]
pub struct UtcDateTime {
    pub year: i32,
    pub month: u32,
    pub day: u32,
    pub hour: u32,
    pub minute: u32,
    pub second: u32,
}

impl UtcDateTime {
    /// Every field lies in its calendar or clock range.
    pub open spec fn wf(self) -> bool {
        &&& 1 <= self.month <= 12
        &&& 1 <= self.day <= 31
        &&& self.hour < 24
        &&& self.minute < 60
        &&& self.second < 60
    }

    /// Joins a calendar date and a time of day.
    pub fn new(date: (i32, u32, u32), time: (u32, u32, u32)) -> (r: UtcDateTime)
        ensures
            r == (UtcDateTime {
                year: date.0,
                month: date.1,
                day: date.2,
                hour: time.0,
                minute: time.1,
                second: time.2,
            }),
    {
        UtcDateTime {
            year: date.0,
            month: date.1,
            day: date.2,
            hour: time.0,
            minute: time.1,
            second: time.2,
        }
    }
}

/// The calendar date that `s` spells in the layout `fmt`, as chrono reads it.
pub uninterp spec fn parsed_date(s: Seq<char>, fmt: Seq<char>) -> Option<(i32, u32, u32)>;

/// The time of day that `s` spells in the layout `fmt`, as chrono reads it.
pub uninterp spec fn parsed_time(s: Seq<char>, fmt: Seq<char>) -> Option<(u32, u32, u32)>;

/// Relies on chrono::NaiveDate::parse_from_str: the date that `s` spells in
/// the layout `fmt`, or none; a date it returns has its month from 1 to 12 and
/// its day from 1 to 31 (chrono's `Datelike::month` and `Datelike::day`).
#[verifier::external_body]
pub(crate) fn parse_date(s: &str, fmt: &str) -> (r: Option<(i32, u32, u32)>)
    ensures
        r == parsed_date(s@, fmt@),
        r matches Some((y, m, d)) ==> 1 <= m <= 12 && 1 <= d <= 31,
{
    match chrono::NaiveDate::parse_from_str(s, fmt) {
        Ok(d) => Some(
            (chrono::Datelike::year(&d), chrono::Datelike::month(&d), chrono::Datelike::day(&d)),
        ),
        Err(_) => None,
    }
}

/// Relies on chrono::NaiveTime::parse_from_str: the time of day that `s`
/// spells in the layout `fmt`, or none; a time it returns has its hour below
/// 24 and its minute and second below 60 (chrono's `Timelike` accessors).
#[verifier::external_body]
pub(crate) fn parse_time(s: &str, fmt: &str) -> (r: Option<(u32, u32, u32)>)
    ensures
        r == parsed_time(s@, fmt@),
        r matches Some((h, m, sec)) ==> h < 24 && m < 60 && sec < 60,
{
    match chrono::NaiveTime::parse_from_str(s, fmt) {
        Ok(t) => Some(
            (chrono::Timelike::hour(&t), chrono::Timelike::minute(&t), chrono::Timelike::second(&t)),
        ),
        Err(_) => None,
    }
}

/// Relies on chrono::Utc::now: the current UTC time, truncated to the second.
/// Nothing is known of its value but that its fields are in range.
#[verifier::external_body]
pub(crate) fn current_time() -> (r: UtcDateTime)
    ensures
        r.wf(),
{
    let t = chrono::Utc::now();
    UtcDateTime {
        year: chrono::Datelike::year(&t),
        month: chrono::Datelike::month(&t),
        day: chrono::Datelike::day(&t),
        hour: chrono::Timelike::hour(&t),
        minute: chrono::Timelike::minute(&t),
        second: chrono::Timelike::second(&t),
    }
}

} // verus!
