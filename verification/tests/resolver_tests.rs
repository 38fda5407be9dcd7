use caltui::app::AppState;
use caltui::date::Date;
use caltui::range::{resolve, timestamp_of};
use caltui::timeofday::TimeOfDay;

fn d(year: u32, month: u32, day: u32) -> Date {
    Date { year, month, day }
}

fn midnight() -> TimeOfDay {
    TimeOfDay { minutes: 0 }
}

#[test]
fn timestamp_of_epoch_is_zero() {
    assert_eq!(timestamp_of(d(1970, 1, 1), midnight()), 0);
}

#[test]
fn timestamp_of_known_instants() {
    assert_eq!(timestamp_of(d(2024, 1, 1), midnight()), 1704067200);
    assert_eq!(timestamp_of(d(2024, 3, 4), TimeOfDay { minutes: 540 }), 1709542800);
    assert_eq!(timestamp_of(d(1969, 12, 31), midnight()), -86400);
}

#[test]
fn day_resolution_is_whole_day() {
    let (s, e) = resolve(AppState::Day, d(2024, 6, 15));
    assert_eq!(s, timestamp_of(d(2024, 6, 15), midnight()));
    assert_eq!(e, s + 86400);
}

#[test]
fn week_resolution_starts_on_monday() {
    // 2024-06-15 is a Saturday; its ISO week starts Monday 2024-06-10.
    let (s, e) = resolve(AppState::Week, d(2024, 6, 15));
    assert_eq!(s, timestamp_of(d(2024, 6, 10), midnight()));
    assert_eq!(e, s + 7 * 86400);
}

#[test]
fn week_resolution_of_a_monday_starts_there() {
    let (s, e) = resolve(AppState::Week, d(2024, 3, 4));
    assert_eq!(s, 1709510400);
    assert_eq!(e, s + 604800);
}

#[test]
fn month_resolution_covers_the_month() {
    let (s, e) = resolve(AppState::Month, d(2024, 6, 15));
    assert_eq!(s, timestamp_of(d(2024, 6, 1), midnight()));
    assert_eq!(e, timestamp_of(d(2024, 7, 1), midnight()));
}

#[test]
fn month_resolution_handles_december_rollover() {
    let (s, e) = resolve(AppState::Month, d(2024, 12, 15));
    assert_eq!(s, 1733011200); // 2024-12-01T00:00
    assert_eq!(e, 1735689600); // 2025-01-01T00:00
}

#[test]
fn month_resolution_of_leap_february() {
    let (s, e) = resolve(AppState::Month, d(2024, 2, 10));
    assert_eq!(e - s, 29 * 86400);
    let (s, e) = resolve(AppState::Month, d(2023, 2, 10));
    assert_eq!(e - s, 28 * 86400);
}

#[test]
fn year_resolution_covers_the_year() {
    let (s, e) = resolve(AppState::Year, d(2024, 5, 20));
    assert_eq!(s, timestamp_of(d(2024, 1, 1), midnight()));
    assert_eq!(e, timestamp_of(d(2025, 1, 1), midnight()));
    assert_eq!(e - s, 366 * 86400);
}

#[test]
fn all_resolutions_are_proper_intervals() {
    let dates = [d(2024, 1, 1), d(2024, 2, 29), d(2024, 12, 31), d(1999, 7, 4), d(1970, 1, 1)];
    let views = [AppState::Year, AppState::Month, AppState::Week, AppState::Day];
    for date in dates {
        for view in views {
            let (s, e) = resolve(view, date);
            assert!(s < e, "resolve must yield start < end");
        }
    }
}
