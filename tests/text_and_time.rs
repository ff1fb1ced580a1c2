use obt::text::{contains_text, decimal, padded};
use obt::time::{compact, minute_text, second_text, time_of_day, Moment};

fn moment() -> Moment {
    Moment { year: 2024, month: 3, day: 7, hour: 14, minute: 5, second: 9, ordinal: 67 }
}

#[test]
fn decimal_renders_without_leading_zeros() {
    assert_eq!(decimal(0), "0");
    assert_eq!(decimal(7), "7");
    assert_eq!(decimal(1050), "1050");
    assert_eq!(decimal(u64::MAX), "18446744073709551615");
}

#[test]
fn padded_fills_with_zeros() {
    assert_eq!(padded(5, 2), "05");
    assert_eq!(padded(42, 2), "42");
    assert_eq!(padded(123, 2), "123");
    assert_eq!(padded(7, 4), "0007");
}

#[test]
fn contains_text_finds_infixes() {
    assert!(contains_text("cd /tmp/x && git pull origin main", "git pull"));
    assert!(!contains_text("cd /tmp/x && git push origin main", "git pull"));
    assert!(contains_text("abc", ""));
    assert!(!contains_text("ab", "abc"));
}

#[test]
fn stamps_render_fields() {
    let m = moment();
    assert_eq!(compact(&m), "20240307_140509");
    assert_eq!(minute_text(&m), "2024-03-07 14:05");
    assert_eq!(second_text(&m), "2024-03-07 14:05:09");
}

#[test]
fn time_of_day_parses_clock_times() {
    assert_eq!(time_of_day("14:30"), Some((14, 30)));
    assert_eq!(time_of_day("02:00"), Some((2, 0)));
    assert_eq!(time_of_day("25:00"), None);
    assert_eq!(time_of_day("14:60"), None);
    assert_eq!(time_of_day("noon"), None);
}
