//! The daemon's scheduling decision: fire at the configured minute, at most
//! once per calendar day.

use vstd::prelude::*;
use crate::time::{clock_of, time_of_day, Moment};

verus! {

/// Seconds to sleep after a poll that fired the pipeline.
pub const AFTER_FIRE_SECS: u64 = 60;

/// Seconds to sleep after a poll that did not.
pub const POLL_SECS: u64 = 30;

/// Whether a run is due at `now`, for the time of day `at`, when the last
/// successful run fell on day `last`.
pub open spec fn due(at: Option<(u32, u32)>, now: Moment, last: u32) -> bool {
    match at {
        Some((h, m)) => now.hour == h && now.minute == m && now.ordinal != last,
        None => false,
    }
}

/// The scheduler's state between polls.
pub struct Scheduler {
    /// The day of the year of the last successful run; 0 before any.
    pub last_fired_day: u32,
}

impl Scheduler {
    /// A scheduler that has never fired.
    pub fn new() -> (r: Scheduler)
        ensures
            r.last_fired_day == 0,
    {
        Scheduler { last_fired_day: 0 }
    }

    /// Whether a run is due at `now` for the time of day `at`.
    pub fn is_due(&self, at: Option<(u32, u32)>, now: &Moment) -> (r: bool)
        ensures
            r == due(at, *now, self.last_fired_day),
    {
        match at {
            Some((h, m)) => now.hour == h && now.minute == m && now.ordinal != self.last_fired_day,
            None => false,
        }
    }

    /// Whether a run is due at `now` for the configured time of day, if one
    /// is configured and reads as a time.
    pub fn should_fire(&self, backup_time: &Option<String>, now: &Moment) -> (r: bool)
        ensures
            backup_time is None ==> !r,
            backup_time matches Some(t) ==> r == due(clock_of(t@), *now, self.last_fired_day),
    {
        match backup_time {
            Some(t) => {
                let at = time_of_day(t.as_str());
                self.is_due(at, now)
            },
            None => false,
        }
    }

    /// Records how a run fired on day `day` ended: only a success moves the
    /// last day.
    pub fn record_run(&mut self, day: u32, succeeded: bool)
        ensures
            final(self).last_fired_day == (if succeeded { day } else { old(self).last_fired_day }),
    {
        if succeeded {
            self.last_fired_day = day;
        }
    }
}

/// How long to sleep after a poll.
pub fn pause_secs(fired: bool) -> (r: u64)
    ensures
        r == (if fired { AFTER_FIRE_SECS } else { POLL_SECS }),
{
    if fired {
        AFTER_FIRE_SECS
    } else {
        POLL_SECS
    }
}

/// After a successful run on a day, no later poll on that day is due.
pub proof fn lemma_at_most_once_per_day(at: Option<(u32, u32)>, fired: Moment, later: Moment, last: u32)
    requires
        due(at, fired, last),
        later.ordinal == fired.ordinal,
    ensures
        !due(at, later, fired.ordinal),
{
}

} // verus!
