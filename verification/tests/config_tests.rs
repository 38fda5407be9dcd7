use caltui::app::{App, AppState, InteractionMode};
use caltui::config::{
    CalendarConfig, Config, UiConfig, default_calendar, default_ui, parse_hour, slot_minutes,
    view_for_name, visible_hours,
};
use caltui::date::Date;
use caltui::timeofday::TimeOfDay;

fn config_with(view: &str, start: &str, end: &str, slot: u32) -> Config {
    Config {
        ui: UiConfig {
            default_view: view.to_string(),
            week_start_day: "monday".to_string(),
            time_format: "24h".to_string(),
        },
        calendar: CalendarConfig {
            visible_hours_start: start.to_string(),
            visible_hours_end: end.to_string(),
            slot_interval_minutes: slot,
        },
    }
}

#[test]
fn defaults_are_the_documented_ones() {
    let ui = default_ui();
    assert_eq!(ui.default_view, "month");
    assert_eq!(ui.week_start_day, "monday");
    assert_eq!(ui.time_format, "24h");
    let cal = default_calendar();
    assert_eq!(cal.visible_hours_start, "06:00");
    assert_eq!(cal.visible_hours_end, "18:00");
    assert_eq!(cal.slot_interval_minutes, 30);
    let whole = Config::default();
    assert_eq!(whole.ui.default_view, "month");
    assert_eq!(whole.calendar.slot_interval_minutes, 30);
}

#[test]
fn view_names_map_to_views() {
    assert_eq!(view_for_name(&"year".to_string()), AppState::Year);
    assert_eq!(view_for_name(&"month".to_string()), AppState::Month);
    assert_eq!(view_for_name(&"week".to_string()), AppState::Week);
    assert_eq!(view_for_name(&"day".to_string()), AppState::Day);
}

#[test]
fn unknown_view_name_falls_back_to_month() {
    assert_eq!(view_for_name(&"fortnight".to_string()), AppState::Month);
    assert_eq!(view_for_name(&"".to_string()), AppState::Month);
}

#[test]
fn parse_hour_accepts_clock_texts() {
    assert_eq!(parse_hour(&"06:00".to_string()), Some(6));
    assert_eq!(parse_hour(&"18:00".to_string()), Some(18));
    assert_eq!(parse_hour(&"6:30".to_string()), Some(6));
    assert_eq!(parse_hour(&"6".to_string()), Some(6));
    assert_eq!(parse_hour(&"23".to_string()), Some(23));
}

#[test]
fn parse_hour_rejects_malformed_texts() {
    assert_eq!(parse_hour(&"".to_string()), None);
    assert_eq!(parse_hour(&"noon".to_string()), None);
    assert_eq!(parse_hour(&"123".to_string()), None);
    assert_eq!(parse_hour(&"1x:00".to_string()), None);
    assert_eq!(parse_hour(&":30".to_string()), None);
}

#[test]
fn visible_hours_keeps_a_valid_window() {
    assert_eq!(visible_hours(&"08:00".to_string(), &"20:00".to_string()), (8, 20));
    assert_eq!(visible_hours(&"0".to_string(), &"24".to_string()), (0, 24));
}

#[test]
fn visible_hours_falls_back_when_malformed_or_out_of_range() {
    assert_eq!(visible_hours(&"junk".to_string(), &"20:00".to_string()), (6, 18));
    assert_eq!(visible_hours(&"08:00".to_string(), &"25:00".to_string()), (6, 18));
    assert_eq!(visible_hours(&"12:00".to_string(), &"09:00".to_string()), (6, 18));
    assert_eq!(visible_hours(&"10:00".to_string(), &"10:00".to_string()), (6, 18));
}

#[test]
fn slot_granularity_falls_back_when_out_of_range() {
    assert_eq!(slot_minutes(30), 30);
    assert_eq!(slot_minutes(15), 15);
    assert_eq!(slot_minutes(0), 30);
    assert_eq!(slot_minutes(100000), 30);
}

#[test]
fn app_new_reads_the_configuration() {
    let cfg = config_with("week", "08:00", "20:00", 15);
    let app = App::new(&cfg, Date { year: 2024, month: 3, day: 4 }, TimeOfDay { minutes: 540 });
    assert_eq!(app.state, AppState::Week);
    assert_eq!(app.mode, InteractionMode::Navigation);
    assert_eq!((app.visible_start_hour, app.visible_end_hour), (8, 20));
    assert_eq!(app.slot_minutes, 15);
    assert_eq!(app.selected_date, Date { year: 2024, month: 3, day: 4 });
    assert_eq!(app.selected_time, TimeOfDay { minutes: 540 });
    assert!(app.events.is_empty());
    assert!(app.event_form_state.is_none());
}

#[test]
fn app_new_falls_back_on_bad_configuration() {
    let cfg = config_with("hourly", "bad", "worse", 0);
    let app = App::new(&cfg, Date { year: 2024, month: 3, day: 4 }, TimeOfDay { minutes: 0 });
    assert_eq!(app.state, AppState::Month);
    assert_eq!((app.visible_start_hour, app.visible_end_hour), (6, 18));
    assert_eq!(app.slot_minutes, 30);
}
