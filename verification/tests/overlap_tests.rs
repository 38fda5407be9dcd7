use caltui::app::AppState;
use caltui::date::Date;
use caltui::event::{Event, events_in_range, intersects, slot_representative};
use caltui::range::{resolve, timestamp_of};
use caltui::timeofday::TimeOfDay;

fn ev(id: i64, start: i64, end: i64) -> Event {
    Event {
        id: Some(id),
        title: format!("event {}", id),
        description: None,
        start_datetime: start,
        end_datetime: end,
        location: None,
        created_at: 0,
        updated_at: 0,
    }
}

fn ts(year: u32, month: u32, day: u32, minutes: u32) -> i64 {
    timestamp_of(Date { year, month, day }, TimeOfDay { minutes })
}

#[test]
fn intersects_is_strict_half_open() {
    // An event [2024-01-01T23:00, 2024-01-02T00:00) intersects the first
    // day but not the second.
    let e = ev(1, ts(2024, 1, 1, 23 * 60), ts(2024, 1, 2, 0));
    let (d1s, d1e) = resolve(AppState::Day, Date { year: 2024, month: 1, day: 1 });
    let (d2s, d2e) = resolve(AppState::Day, Date { year: 2024, month: 1, day: 2 });
    assert!(intersects(&e, d1s, d1e));
    assert!(!intersects(&e, d2s, d2e));
}

#[test]
fn intersects_excludes_touching_start() {
    // An event ending exactly at the range start does not intersect.
    let e = ev(1, 100, 200);
    assert!(!intersects(&e, 200, 300));
    assert!(intersects(&e, 199, 300));
}

#[test]
fn intersects_needs_no_containment() {
    // Touching the range is enough; the event need not lie inside it.
    let e = ev(1, 0, 1000);
    assert!(intersects(&e, 400, 500));
}

#[test]
fn representative_prefers_earlier_start() {
    let events = vec![ev(1, 150, 300), ev(2, 100, 300), ev(3, 200, 300)];
    assert_eq!(slot_representative(&events, 0, 1000), Some(1));
}

#[test]
fn representative_breaks_ties_by_lowest_id() {
    let events = vec![ev(9, 100, 300), ev(2, 100, 300), ev(5, 100, 300)];
    assert_eq!(slot_representative(&events, 0, 1000), Some(1));
}

#[test]
fn representative_is_order_independent() {
    let a = vec![ev(9, 100, 300), ev(2, 100, 300)];
    let b = vec![ev(2, 100, 300), ev(9, 100, 300)];
    let ra = slot_representative(&a, 0, 1000).map(|i| a[i].id);
    let rb = slot_representative(&b, 0, 1000).map(|i| b[i].id);
    assert_eq!(ra, Some(Some(2)));
    assert_eq!(ra, rb);
}

#[test]
fn representative_ignores_events_outside_the_slot() {
    let events = vec![ev(1, 0, 100), ev(2, 500, 600)];
    assert_eq!(slot_representative(&events, 100, 500), None);
}

#[test]
fn events_in_range_keeps_exactly_the_intersecting_ones() {
    let events = vec![ev(1, 0, 100), ev(2, 50, 150), ev(3, 100, 200), ev(4, 300, 400)];
    let hits = events_in_range(&events, 100, 300);
    let ids: Vec<Option<i64>> = hits.iter().map(|e| e.id).collect();
    assert_eq!(ids, vec![Some(2), Some(3)]);
}

#[test]
fn events_in_range_of_empty_list_is_empty() {
    let events: Vec<Event> = vec![];
    assert!(events_in_range(&events, 0, 100).is_empty());
}
