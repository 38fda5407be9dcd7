//! Startup configuration and its validation: the default view name, the
//! visible-hour window and the slot granularity, each falling back to a
//! documented default when a supplied value is malformed or out of range.

use vstd::prelude::*;
use vstd::string::StrSliceExecFns;

use crate::app::AppState;

verus! {

/// User-interface configuration as read from the configuration source.
pub struct UiConfig {
    pub default_view: String,
    pub week_start_day: String,
    pub time_format: String,
}

/// Calendar configuration as read from the configuration source.
pub struct CalendarConfig {
    pub visible_hours_start: String,
    pub visible_hours_end: String,
    pub slot_interval_minutes: u32,
}

/// Application configuration: interface and calendar sections.
pub struct Config {
    pub ui: UiConfig,
    pub calendar: CalendarConfig,
}

/// The default interface configuration: month view, weeks starting Monday,
/// 24-hour times.
pub fn default_ui() -> (r: UiConfig)
    ensures
        r.default_view@ == "month"@,
        r.week_start_day@ == "monday"@,
        r.time_format@ == "24h"@,
{
    UiConfig {
        default_view: "month".to_owned(),
        week_start_day: "monday".to_owned(),
        time_format: "24h".to_owned(),
    }
}

/// The default calendar configuration: hours 06:00 to 18:00 visible, 30
/// minute slots.
pub fn default_calendar() -> (r: CalendarConfig)
    ensures
        r.visible_hours_start@ == "06:00"@,
        r.visible_hours_end@ == "18:00"@,
        r.slot_interval_minutes == 30,
{
    CalendarConfig {
        visible_hours_start: "06:00".to_owned(),
        visible_hours_end: "18:00".to_owned(),
        slot_interval_minutes: 30,
    }
}

impl Default for Config {
    /// The whole default configuration.
    fn default() -> (r: Config)
        ensures
            r.ui.default_view@ == "month"@,
            r.ui.week_start_day@ == "monday"@,
            r.ui.time_format@ == "24h"@,
            r.calendar.visible_hours_start@ == "06:00"@,
            r.calendar.visible_hours_end@ == "18:00"@,
            r.calendar.slot_interval_minutes == 30,
    {
        Config { ui: default_ui(), calendar: default_calendar() }
    }
}

/// The view a configured name selects; an unrecognized name falls back to
/// the month view.
pub open spec fn spec_view_for_name(s: Seq<char>) -> AppState {
    if s == "year"@ {
        AppState::Year
    } else if s == "month"@ {
        AppState::Month
    } else if s == "week"@ {
        AppState::Week
    } else if s == "day"@ {
        AppState::Day
    } else {
        AppState::Month
    }
}

/// Maps a configured view name to a view, defaulting to the month view.
pub fn view_for_name(s: &String) -> (r: AppState)
    ensures
        r == spec_view_for_name(s@),
{
    let year: String = "year".to_owned();
    let month: String = "month".to_owned();
    let week: String = "week".to_owned();
    let day: String = "day".to_owned();
    if *s == year {
        AppState::Year
    } else if *s == month {
        AppState::Month
    } else if *s == week {
        AppState::Week
    } else if *s == day {
        AppState::Day
    } else {
        AppState::Month
    }
}

/// Whether a character is a decimal digit.
pub open spec fn spec_is_digit(c: char) -> bool {
    48 <= c as int <= 57
}

/// The hour named by a clock text: one or two leading decimal digits that
/// make up the whole text or are followed by a colon, as in `6`, `06`,
/// `6:00` or `06:00`; anything else is rejected.
pub open spec fn spec_parse_hour(cs: Seq<char>) -> Option<u32> {
    if cs.len() >= 2 && spec_is_digit(cs[0]) && spec_is_digit(cs[1]) && (cs.len() == 2 || cs[2]
        as int == 58) {
        Some((((cs[0] as int - 48) * 10 + (cs[1] as int - 48)) as u32))
    } else if cs.len() >= 1 && spec_is_digit(cs[0]) && (cs.len() == 1 || cs[1] as int == 58) {
        Some(((cs[0] as int - 48) as u32))
    } else {
        None
    }
}

/// Reads the hour from a clock text such as `06:00`.
pub fn parse_hour(s: &String) -> (r: Option<u32>)
    ensures
        r == spec_parse_hour(s@),
{
    let st = s.as_str();
    let n = st.unicode_len();
    if n >= 1 {
        let c0 = st.get_char(0);
        let d0 = c0 as u32;
        if 48 <= d0 && d0 <= 57 {
            if n >= 2 {
                let c1 = st.get_char(1);
                let d1 = c1 as u32;
                if 48 <= d1 && d1 <= 57 {
                    if n == 2 {
                        return Some((d0 - 48) * 10 + (d1 - 48));
                    }
                    let c2 = st.get_char(2);
                    if c2 as u32 == 58 {
                        return Some((d0 - 48) * 10 + (d1 - 48));
                    }
                    return None;
                }
                if d1 == 58 {
                    return Some(d0 - 48);
                }
                return None;
            }
            return Some(d0 - 48);
        }
        return None;
    }
    None
}

/// The visible-hour window a pair of clock texts selects: both hours must
/// parse and satisfy `start < end <= 24`, otherwise the window falls back to
/// 06:00-18:00.
pub open spec fn spec_visible_hours(start_cs: Seq<char>, end_cs: Seq<char>) -> (u32, u32) {
    match (spec_parse_hour(start_cs), spec_parse_hour(end_cs)) {
        (Some(s), Some(e)) => if s < e && e <= 24 {
            (s, e)
        } else {
            (6, 18)
        },
        _ => (6, 18),
    }
}

/// Validates the configured visible-hour window, falling back to the
/// documented default when malformed or out of range.
pub fn visible_hours(start: &String, end: &String) -> (r: (u32, u32))
    ensures
        r == spec_visible_hours(start@, end@),
        r.0 < r.1 <= 24,
{
    match (parse_hour(start), parse_hour(end)) {
        (Some(s), Some(e)) => {
            if s < e && e <= 24 {
                (s, e)
            } else {
                (6, 18)
            }
        },
        _ => (6, 18),
    }
}

/// The slot granularity a configured value selects: kept when it lies in
/// `[1, 1440]` minutes, otherwise the documented default of 30 minutes.
pub open spec fn spec_slot_minutes(m: u32) -> u32 {
    if 1 <= m <= 1440 {
        m
    } else {
        30
    }
}

/// Validates the configured slot granularity, falling back to 30 minutes
/// when out of range.
pub fn slot_minutes(m: u32) -> (r: u32)
    ensures
        r == spec_slot_minutes(m),
        1 <= r <= 1440,
{
    if 1 <= m && m <= 1440 {
        m
    } else {
        30
    }
}

} // verus!
