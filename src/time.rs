//! Wall-clock moments in the reference time zone, and their renderings.

use vstd::prelude::*;
use chrono::Timelike;
use crate::text::{dec, pad_left, padded};

verus! {

/// A moment of the reference time zone, held as its calendar fields.
#[derive(Clone, Copy, Debug, PartialEq, Eq, Structural)]
pub struct Moment {
    pub year: u32,
    pub month: u32,
    pub day: u32,
    pub hour: u32,
    pub minute: u32,
    pub second: u32,
    /// The day of the year, from 1.
    pub ordinal: u32,
}

impl Moment {
    pub open spec fn wf(&self) -> bool {
        self.year <= 9999 && 1 <= self.month <= 12 && 1 <= self.day <= 31 && self.hour < 24
            && self.minute < 60 && self.second < 61 && 1 <= self.ordinal <= 366
    }

    /// Whether every field is in its range.
    pub fn is_valid(&self) -> (r: bool)
        ensures
            r == self.wf(),
    {
        self.year <= 9999 && 1 <= self.month && self.month <= 12 && 1 <= self.day && self.day <= 31
            && self.hour < 24 && self.minute < 60 && self.second < 61 && 1 <= self.ordinal
            && self.ordinal <= 366
    }
}

/// `n` in decimal, zero-padded to `w` digits.
pub open spec fn field(n: u32, w: nat) -> Seq<char> {
    pad_left(dec(n as nat), w)
}

/// `YYYYmmdd_HHMMSS`.
pub open spec fn compact_stamp(m: Moment) -> Seq<char> {
    field(m.year, 4) + field(m.month, 2) + field(m.day, 2) + "_"@ + field(m.hour, 2) + field(m.minute, 2)
        + field(m.second, 2)
}

/// `YYYY-mm-dd`.
pub open spec fn date_stamp(m: Moment) -> Seq<char> {
    field(m.year, 4) + "-"@ + field(m.month, 2) + "-"@ + field(m.day, 2)
}

/// `YYYY-mm-dd HH:MM`.
pub open spec fn minute_stamp(m: Moment) -> Seq<char> {
    date_stamp(m) + " "@ + field(m.hour, 2) + ":"@ + field(m.minute, 2)
}

/// `YYYY-mm-dd HH:MM:SS`.
pub open spec fn second_stamp(m: Moment) -> Seq<char> {
    minute_stamp(m) + ":"@ + field(m.second, 2)
}

fn field_text(n: u32, w: usize) -> (r: String)
    ensures
        r@ == field(n, w as nat),
{
    padded(n as u64, w)
}

/// Renders `m` as `YYYYmmdd_HHMMSS`, the form used in directory names.
pub fn compact(m: &Moment) -> (r: String)
    ensures
        r@ == compact_stamp(*m),
{
    let mut s = field_text(m.year, 4);
    s.append(field_text(m.month, 2).as_str());
    s.append(field_text(m.day, 2).as_str());
    s.append("_");
    s.append(field_text(m.hour, 2).as_str());
    s.append(field_text(m.minute, 2).as_str());
    s.append(field_text(m.second, 2).as_str());
    s
}

/// Renders `m` as `YYYY-mm-dd HH:MM`.
pub fn minute_text(m: &Moment) -> (r: String)
    ensures
        r@ == minute_stamp(*m),
{
    let mut s = field_text(m.year, 4);
    s.append("-");
    s.append(field_text(m.month, 2).as_str());
    s.append("-");
    s.append(field_text(m.day, 2).as_str());
    s.append(" ");
    s.append(field_text(m.hour, 2).as_str());
    s.append(":");
    s.append(field_text(m.minute, 2).as_str());
    s
}

/// Renders `m` as `YYYY-mm-dd HH:MM:SS`.
pub fn second_text(m: &Moment) -> (r: String)
    ensures
        r@ == second_stamp(*m),
{
    let mut s = minute_text(m);
    s.append(":");
    s.append(field_text(m.second, 2).as_str());
    s
}

/// The hour and minute that chrono reads from `s` in the form `%H:%M`, if any.
pub uninterp spec fn clock_of(s: Seq<char>) -> Option<(u32, u32)>;

/// Relies on chrono's `NaiveTime::parse_from_str` with the format `%H:%M`:
/// a parsed time is a valid time of day.
#[verifier::external_body]
fn parse_clock(s: &str) -> (r: Option<(u32, u32)>)
    ensures
        r == clock_of(s@),
        r matches Some((h, m)) ==> h < 24 && m < 60,
{
    match chrono::NaiveTime::parse_from_str(s, "%H:%M") {
        Ok(t) => Some((t.hour(), t.minute())),
        Err(_) => None,
    }
}

/// Reads a configured time of day, `HH:MM` in 24-hour form.
pub fn time_of_day(s: &str) -> (r: Option<(u32, u32)>)
    ensures
        r == clock_of(s@),
        r matches Some((h, m)) ==> h < 24 && m < 60,
{
    parse_clock(s)
}

} // verus!
