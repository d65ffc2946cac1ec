//! Times of day, and reading the stored `HH:MM:SS` texts of shift plans.

use vstd::prelude::*;
use chrono::Timelike;

verus! {

/// Number of seconds in one day; every valid time of day lies below it.
pub const SECONDS_PER_DAY: u32 = 86400;

/// A wall-clock time of day at one-second resolution, held as seconds past midnight.
#[derive(Clone, Copy, Debug, PartialEq, Eq, Structural)]
pub struct TimeOfDay {
    pub secs: u32,
}

/// What chrono makes of a stored `HH:MM:SS` text: the seconds past midnight, or nothing
/// when the text does not parse.
pub uninterp spec fn clock_text_seconds(s: Seq<char>) -> Option<u32>;

/// Relies on chrono's `NaiveTime::parse_from_str` with the pattern `%H:%M:%S`, and on
/// `Timelike::num_seconds_from_midnight`, which maps every time it can hold into 0..86399.
#[verifier::external_body]
fn parse_clock_text(s: &str) -> (r: Option<u32>)
    ensures
        r == clock_text_seconds(s@),
        r matches Some(x) ==> x < SECONDS_PER_DAY,
{
    chrono::NaiveTime::parse_from_str(s, "%H:%M:%S").ok().map(|t| t.num_seconds_from_midnight())
}

/// The time of day a parse result stands for, if any.
pub open spec fn time_of(o: Option<u32>) -> Option<TimeOfDay> {
    match o {
        Some(x) => Some(TimeOfDay { secs: x }),
        None => None,
    }
}

impl TimeOfDay {
    /// A valid time of day lies before midnight of the next day.
    pub open spec fn wf(self) -> bool {
        self.secs < SECONDS_PER_DAY
    }

    /// Builds the time `hour:minute:second`, or nothing when a component is out of range.
    pub fn from_hms(hour: u32, minute: u32, second: u32) -> (r: Option<TimeOfDay>)
        ensures
            r is Some <==> (hour < 24 && minute < 60 && second < 60),
            r matches Some(t) ==> t.secs == hour * 3600 + minute * 60 + second && t.wf(),
    {
        if hour < 24 && minute < 60 && second < 60 {
            Some(TimeOfDay { secs: hour * 3600 + minute * 60 + second })
        } else {
            None
        }
    }

    /// The hour, 0 to 23 for a valid time.
    pub fn hour(&self) -> (r: u32)
        ensures
            r == self.secs / 3600,
    {
        self.secs / 3600
    }

    /// The minute within the hour.
    pub fn minute(&self) -> (r: u32)
        ensures
            r == (self.secs % 3600) / 60,
    {
        (self.secs % 3600) / 60
    }

    /// The second within the minute.
    pub fn second(&self) -> (r: u32)
        ensures
            r == self.secs % 60,
    {
        self.secs % 60
    }

    /// Reads a stored `HH:MM:SS` text; nothing when it does not parse.
    pub fn parse(s: &str) -> (r: Option<TimeOfDay>)
        ensures
            r == time_of(clock_text_seconds(s@)),
            r matches Some(t) ==> t.wf(),
    {
        match parse_clock_text(s) {
            Some(x) => Some(TimeOfDay { secs: x }),
            None => None,
        }
    }
}

} // verus!
