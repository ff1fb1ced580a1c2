use obt::schedule::{pause_secs, Scheduler};
use obt::time::Moment;

fn at(ordinal: u32, hour: u32, minute: u32, second: u32) -> Moment {
    Moment { year: 2024, month: 4, day: 9, hour, minute, second, ordinal }
}

#[test]
fn daily_run_fires_once_per_day() {
    let mut s = Scheduler { last_fired_day: 99 };
    let time = Some("14:30".to_string());
    let now = at(100, 14, 30, 0);
    assert!(s.should_fire(&time, &now));
    s.record_run(now.ordinal, true);
    assert_eq!(s.last_fired_day, 100);
    assert_eq!(pause_secs(true), 60);
    assert!(!s.should_fire(&time, &at(100, 14, 30, 30)));
}

#[test]
fn failed_run_keeps_last_day() {
    let mut s = Scheduler::new();
    let time = Some("14:30".to_string());
    assert!(s.should_fire(&time, &at(5, 14, 30, 0)));
    s.record_run(5, false);
    assert_eq!(s.last_fired_day, 0);
    assert!(s.should_fire(&time, &at(5, 14, 30, 40)));
}

#[test]
fn no_fire_off_the_minute_or_without_time() {
    let s = Scheduler::new();
    assert!(!s.should_fire(&Some("14:30".to_string()), &at(5, 14, 31, 0)));
    assert!(!s.should_fire(&Some("14:30".to_string()), &at(5, 13, 30, 0)));
    assert!(!s.should_fire(&None, &at(5, 14, 30, 0)));
    assert!(!s.should_fire(&Some("bad".to_string()), &at(5, 14, 30, 0)));
    assert_eq!(pause_secs(false), 30);
}

#[test]
fn next_day_fires_again() {
    let mut s = Scheduler::new();
    s.record_run(100, true);
    assert!(s.is_due(Some((14, 30)), &at(101, 14, 30, 0)));
    assert!(!s.is_due(Some((14, 30)), &at(100, 14, 30, 0)));
}
