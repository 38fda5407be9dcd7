use caltui::app::{App, AppState, InteractionMode};
use caltui::date::Date;
use caltui::event::{Event, events_in_range};
use caltui::input::{Effect, Input, SlotAction, handle_input, handle_slot_events};
use caltui::range::{resolve, timestamp_of};
use caltui::timeofday::TimeOfDay;

fn app_at(state: AppState, date: Date, minutes: u32) -> App {
    App {
        state,
        mode: InteractionMode::Navigation,
        event_form_state: None,
        selected_event_id: None,
        selected_date: date,
        selected_time: TimeOfDay { minutes },
        selection_start: None,
        events: Vec::new(),
        visible_start_hour: 6,
        visible_end_hour: 18,
        slot_minutes: 30,
    }
}

fn d(year: u32, month: u32, day: u32) -> Date {
    Date { year, month, day }
}

#[test]
fn cycle_view_advances_in_fixed_order() {
    let mut app = app_at(AppState::Year, d(2024, 3, 4), 540);
    for expected in [AppState::Month, AppState::Week, AppState::Day, AppState::Year] {
        let eff = handle_input(Input::CycleView, &mut app, 0);
        assert!(eff.is_none());
        assert_eq!(app.state, expected);
    }
}

#[test]
fn cycle_view_preserves_mode_and_anchor() {
    let mut app = app_at(AppState::Week, d(2024, 3, 4), 540);
    handle_input(Input::Activate, &mut app, 0);
    handle_input(Input::Activate, &mut app, 0);
    assert_eq!(app.mode, InteractionMode::TimeSlot);
    handle_input(Input::CycleView, &mut app, 0);
    assert_eq!(app.state, AppState::Day);
    assert_eq!(app.mode, InteractionMode::TimeSlot);
    assert_eq!(app.selection_start, Some(TimeOfDay { minutes: 540 }));
}

#[test]
fn year_view_left_from_january_rolls_year() {
    let mut app = app_at(AppState::Year, d(2024, 1, 31), 0);
    handle_input(Input::Left, &mut app, 0);
    assert_eq!(app.selected_date, d(2023, 12, 31));
}

#[test]
fn year_view_left_clamps_missing_day_to_adjacent_year() {
    // March 31 has no counterpart in February; the move rolls to the same
    // day in December of the previous year.
    let mut app = app_at(AppState::Year, d(2024, 3, 31), 0);
    handle_input(Input::Left, &mut app, 0);
    assert_eq!(app.selected_date, d(2023, 12, 31));
}

#[test]
fn year_view_right_from_december_rolls_year() {
    let mut app = app_at(AppState::Year, d(2024, 12, 15), 0);
    handle_input(Input::Right, &mut app, 0);
    assert_eq!(app.selected_date, d(2025, 1, 15));
}

#[test]
fn year_view_up_skips_invalid_leap_day() {
    let mut app = app_at(AppState::Year, d(2024, 2, 29), 0);
    handle_input(Input::Up, &mut app, 0);
    assert_eq!(app.selected_date, d(2024, 2, 29));
}

#[test]
fn month_view_left_crosses_month_boundary() {
    let mut app = app_at(AppState::Month, d(2024, 3, 1), 0);
    handle_input(Input::Left, &mut app, 0);
    assert_eq!(app.selected_date, d(2024, 2, 29));
}

#[test]
fn month_view_up_moves_a_week_back() {
    let mut app = app_at(AppState::Month, d(2024, 1, 3), 0);
    handle_input(Input::Up, &mut app, 0);
    assert_eq!(app.selected_date, d(2023, 12, 27));
}

#[test]
fn week_view_down_moves_one_slot() {
    let mut app = app_at(AppState::Week, d(2024, 3, 4), 540);
    handle_input(Input::Down, &mut app, 0);
    assert_eq!(app.selected_time, TimeOfDay { minutes: 570 });
}

#[test]
fn time_wraps_at_midnight_without_changing_date() {
    let mut app = app_at(AppState::Day, d(2024, 3, 4), 0);
    handle_input(Input::Up, &mut app, 0);
    assert_eq!(app.selected_time, TimeOfDay { minutes: 1410 });
    assert_eq!(app.selected_date, d(2024, 3, 4));
    handle_input(Input::Down, &mut app, 0);
    assert_eq!(app.selected_time, TimeOfDay { minutes: 0 });
}

#[test]
fn timeslot_cancel_clears_anchor() {
    let mut app = app_at(AppState::Week, d(2024, 3, 4), 540);
    handle_input(Input::Activate, &mut app, 0);
    handle_input(Input::Activate, &mut app, 0);
    assert_eq!(app.selection_start, Some(TimeOfDay { minutes: 540 }));
    handle_input(Input::Cancel, &mut app, 0);
    assert_eq!(app.mode, InteractionMode::Selection);
    assert_eq!(app.selection_start, None);
}

#[test]
fn selection_drills_from_year_to_month_and_month_to_day() {
    let mut app = app_at(AppState::Year, d(2024, 3, 4), 0);
    handle_input(Input::Activate, &mut app, 0);
    handle_input(Input::Activate, &mut app, 0);
    assert_eq!(app.state, AppState::Month);
    assert_eq!(app.mode, InteractionMode::Navigation);
    handle_input(Input::Activate, &mut app, 0);
    handle_input(Input::Activate, &mut app, 0);
    assert_eq!(app.state, AppState::Day);
    assert_eq!(app.mode, InteractionMode::Navigation);
}

#[test]
fn create_event_end_to_end() {
    // Anchor 09:00, extend to 09:30, activate, type the title, submit: the
    // resulting event covers [09:00, 09:30) on 2024-03-04, appears in that
    // day's query and not in the next day's.
    let date = d(2024, 3, 4);
    let mut app = app_at(AppState::Week, date, 540);
    handle_input(Input::Activate, &mut app, 0); // navigation -> selection
    handle_input(Input::Activate, &mut app, 0); // selection -> timeslot, anchor 09:00
    handle_input(Input::Down, &mut app, 0); // extend to 09:30
    handle_input(Input::Activate, &mut app, 0); // open the form
    assert_eq!(app.mode, InteractionMode::EventForm);
    for c in "Standup".chars() {
        handle_input(Input::Text(c), &mut app, 0);
    }
    let eff = handle_input(Input::Activate, &mut app, 1709545000);
    let event = match eff {
        Some(Effect::CreateEvent { event }) => event,
        other => panic!("expected a creation effect, got {:?}", other.is_some()),
    };
    assert_eq!(event.id, None);
    assert_eq!(event.title, "Standup");
    assert_eq!(event.start_datetime, timestamp_of(date, TimeOfDay { minutes: 540 }));
    assert_eq!(event.end_datetime, timestamp_of(date, TimeOfDay { minutes: 570 }));
    assert_eq!(app.mode, InteractionMode::Navigation);
    assert!(app.event_form_state.is_none());

    // The store assigns an id; the day queries follow the resolver.
    let stored = Event { id: Some(1), ..event };
    let store = vec![stored];
    let (s1, e1) = resolve(AppState::Day, date);
    assert_eq!(events_in_range(&store, s1, e1).len(), 1);
    let (s2, e2) = resolve(AppState::Day, d(2024, 3, 5));
    assert_eq!(events_in_range(&store, s2, e2).len(), 0);
}

#[test]
fn created_event_carries_all_three_fields() {
    let mut app = app_at(AppState::Day, d(2024, 3, 4), 540);
    handle_input(Input::Activate, &mut app, 0);
    handle_input(Input::Activate, &mut app, 0);
    handle_input(Input::Activate, &mut app, 0);
    handle_input(Input::Text('t'), &mut app, 0);
    handle_input(Input::NextField, &mut app, 0);
    handle_input(Input::Text('d'), &mut app, 0);
    handle_input(Input::NextField, &mut app, 0);
    handle_input(Input::Text('l'), &mut app, 0);
    let eff = handle_input(Input::Activate, &mut app, 42);
    let event = match eff {
        Some(Effect::CreateEvent { event }) => event,
        _ => panic!("expected a creation effect"),
    };
    assert_eq!(event.title, "t");
    assert_eq!(event.description.as_deref(), Some("d"));
    assert_eq!(event.location.as_deref(), Some("l"));
    assert_eq!(event.created_at, 42);
    assert_eq!(event.updated_at, 42);
}

#[test]
fn anchor_without_movement_creates_one_slot_event() {
    let date = d(2024, 3, 4);
    let mut app = app_at(AppState::Day, date, 540);
    handle_input(Input::Activate, &mut app, 0);
    handle_input(Input::Activate, &mut app, 0);
    handle_input(Input::Activate, &mut app, 0);
    let form = app.event_form_state.as_ref().expect("form must be open");
    assert_eq!(form.end_datetime - form.start_datetime, 30 * 60);
}

#[test]
fn edit_and_resubmit_updates_without_duplicating() {
    // Editing an existing event and resubmitting yields an update with the
    // same id, an unchanged creation instant, and an advanced update instant.
    let date = d(2024, 3, 4);
    let slot_start = timestamp_of(date, TimeOfDay { minutes: 540 });
    let existing = Event {
        id: Some(7),
        title: "Standup".to_string(),
        description: Some("daily".to_string()),
        start_datetime: slot_start,
        end_datetime: slot_start + 1800,
        location: Some("room 1".to_string()),
        created_at: 100,
        updated_at: 100,
    };
    let mut app = app_at(AppState::Week, date, 540);
    handle_input(Input::Activate, &mut app, 0); // selection mode
    let eff = handle_input(Input::EditKey, &mut app, 0);
    let (qs, qe, action) = match eff {
        Some(Effect::SlotLookup { start, end, action }) => (start, end, action),
        _ => panic!("expected a slot lookup"),
    };
    assert_eq!(action, SlotAction::Edit);
    assert_eq!(qs, slot_start);
    assert_eq!(qe, slot_start + 1800);

    let queried = vec![existing];
    let eff = handle_slot_events(&mut app, action, &queried, qs, qe);
    assert!(eff.is_none());
    assert_eq!(app.mode, InteractionMode::EventForm);
    assert_eq!(app.selected_event_id, Some(7));
    {
        let form = app.event_form_state.as_ref().expect("form must be open");
        assert_eq!(form.title, "Standup");
        assert_eq!(form.description, "daily");
        assert_eq!(form.created_at, Some(100));
    }
    handle_input(Input::Text('!'), &mut app, 0);
    let eff = handle_input(Input::Activate, &mut app, 200);
    let updated = match eff {
        Some(Effect::UpdateEvent { event }) => event,
        _ => panic!("an edited event must be updated, not created"),
    };
    assert_eq!(updated.id, Some(7));
    assert_eq!(updated.title, "Standup!");
    assert_eq!(updated.created_at, 100);
    assert_eq!(updated.updated_at, 200);
}

#[test]
fn delete_key_deletes_the_representative_by_id() {
    let date = d(2024, 3, 4);
    let slot_start = timestamp_of(date, TimeOfDay { minutes: 540 });
    let event = Event {
        id: Some(11),
        title: "gone".to_string(),
        description: None,
        start_datetime: slot_start,
        end_datetime: slot_start + 1800,
        location: None,
        created_at: 0,
        updated_at: 0,
    };
    let mut app = app_at(AppState::Day, date, 540);
    handle_input(Input::Activate, &mut app, 0);
    let eff = handle_input(Input::DeleteKey, &mut app, 0);
    let (qs, qe, action) = match eff {
        Some(Effect::SlotLookup { start, end, action }) => (start, end, action),
        _ => panic!("expected a slot lookup"),
    };
    assert_eq!(action, SlotAction::Remove);
    let eff = handle_slot_events(&mut app, action, &vec![event], qs, qe);
    match eff {
        Some(Effect::DeleteEvent { id }) => assert_eq!(id, 11),
        _ => panic!("expected a deletion effect"),
    }
    assert_eq!(app.mode, InteractionMode::Selection);
}

#[test]
fn slot_lookup_with_no_events_does_nothing() {
    let mut app = app_at(AppState::Day, d(2024, 3, 4), 540);
    handle_input(Input::Activate, &mut app, 0);
    let eff = handle_input(Input::EditKey, &mut app, 0);
    let (qs, qe, action) = match eff {
        Some(Effect::SlotLookup { start, end, action }) => (start, end, action),
        _ => panic!("expected a slot lookup"),
    };
    let eff = handle_slot_events(&mut app, action, &Vec::new(), qs, qe);
    assert!(eff.is_none());
    assert_eq!(app.mode, InteractionMode::Selection);
    assert!(app.event_form_state.is_none());
}

#[test]
fn form_tab_cycles_focus_and_routes_text() {
    let mut app = app_at(AppState::Day, d(2024, 3, 4), 540);
    handle_input(Input::Activate, &mut app, 0);
    handle_input(Input::Activate, &mut app, 0);
    handle_input(Input::Activate, &mut app, 0);
    handle_input(Input::Text('t'), &mut app, 0);
    handle_input(Input::NextField, &mut app, 0);
    handle_input(Input::Text('d'), &mut app, 0);
    handle_input(Input::NextField, &mut app, 0);
    handle_input(Input::Text('l'), &mut app, 0);
    handle_input(Input::Text('x'), &mut app, 0);
    handle_input(Input::Backspace, &mut app, 0);
    handle_input(Input::NextField, &mut app, 0);
    handle_input(Input::Text('t'), &mut app, 0);
    let form = app.event_form_state.as_ref().expect("form must be open");
    assert_eq!(form.focused_field, 0);
    assert_eq!(form.title, "tt");
    assert_eq!(form.description, "d");
    assert_eq!(form.location, "l");
}

#[test]
fn form_cancel_discards_the_session() {
    let mut app = app_at(AppState::Day, d(2024, 3, 4), 540);
    handle_input(Input::Activate, &mut app, 0);
    handle_input(Input::Activate, &mut app, 0);
    handle_input(Input::Activate, &mut app, 0);
    assert_eq!(app.mode, InteractionMode::EventForm);
    let eff = handle_input(Input::Cancel, &mut app, 0);
    assert!(eff.is_none());
    assert_eq!(app.mode, InteractionMode::Navigation);
    assert!(app.event_form_state.is_none());
}
