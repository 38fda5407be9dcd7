//! The application snapshot the presentation layer reads each frame: active
//! view, interaction mode, selection anchors, visible events and the optional
//! event-form session, together with its well-formedness invariant and the
//! small read-side helpers (visible range, slot highlighting, scrolling).

use vstd::prelude::*;

use crate::config::{Config, slot_minutes, spec_slot_minutes, spec_view_for_name,
    spec_visible_hours, view_for_name, visible_hours};
use crate::date::Date;
use crate::event::{Event, EventView};
use crate::form::{EventFormState, EventFormView};
use crate::range::{resolve, spec_resolve_end, spec_resolve_start};
use crate::timeofday::{TimeOfDay, spec_normalized};

verus! {

/// Calendar granularity of the active view; it determines both the
/// range-resolution rule and which keys are meaningful.
#[derive(PartialEq, Eq, Clone, Copy, Debug, Structural)]
pub enum AppState {
    Year,
    Month,
    Week,
    Day,
}

/// Interaction phase, orthogonal to the view; it determines how directional
/// and activation keys are interpreted.
#[derive(PartialEq, Eq, Clone, Copy, Debug, Structural)]
pub enum InteractionMode {
    Navigation,
    Selection,
    TimeSlot,
    EventForm,
}

/// The next view in the fixed Year -> Month -> Week -> Day -> Year cycle.
pub open spec fn spec_cycle_view(v: AppState) -> AppState {
    match v {
        AppState::Year => AppState::Month,
        AppState::Month => AppState::Week,
        AppState::Week => AppState::Day,
        AppState::Day => AppState::Year,
    }
}

/// Advances the view one step in the fixed cycle.
pub fn cycle_view(v: AppState) -> (r: AppState)
    ensures
        r == spec_cycle_view(v),
{
    match v {
        AppState::Year => AppState::Month,
        AppState::Month => AppState::Week,
        AppState::Week => AppState::Day,
        AppState::Day => AppState::Year,
    }
}

/// Spec-level image of the whole application snapshot.
pub struct AppView {
    pub state: AppState,
    pub mode: InteractionMode,
    pub event_form_state: Option<EventFormView>,
    pub selected_event_id: Option<i64>,
    pub selected_date: Date,
    pub selected_time: TimeOfDay,
    pub selection_start: Option<TimeOfDay>,
    pub events: Seq<EventView>,
    pub visible_start_hour: u32,
    pub visible_end_hour: u32,
    pub slot_minutes: u32,
}

/// The application snapshot: active view and mode, the selection anchors,
/// the optional event-form session, the cached visible events, and the
/// visible-hour window of the Week and Day grids.
pub struct App {
    pub state: AppState,
    pub mode: InteractionMode,
    pub event_form_state: Option<EventFormState>,
    pub selected_event_id: Option<i64>,
    pub selected_date: Date,
    pub selected_time: TimeOfDay,
    pub selection_start: Option<TimeOfDay>,
    pub events: Vec<Event>,
    pub visible_start_hour: u32,
    pub visible_end_hour: u32,
    pub slot_minutes: u32,
}

impl View for App {
    type V = AppView;

    open spec fn view(&self) -> AppView {
        AppView {
            state: self.state,
            mode: self.mode,
            event_form_state: match self.event_form_state {
                Some(ref f) => Some(f@),
                None => None,
            },
            selected_event_id: self.selected_event_id,
            selected_date: self.selected_date,
            selected_time: self.selected_time,
            selection_start: self.selection_start,
            events: self.events.deep_view(),
            visible_start_hour: self.visible_start_hour,
            visible_end_hour: self.visible_end_hour,
            slot_minutes: self.slot_minutes,
        }
    }
}

impl AppView {
    /// The application invariant. The anchors are well formed; a range
    /// anchor exists exactly while the mode is `TimeSlot` and a form session
    /// exists exactly while the mode is `EventForm`; an open session is well
    /// formed and remembers a creation instant exactly when an existing
    /// event (whose id is selected) is being edited; the visible-hour window
    /// and the slot granularity are in range.
    pub open spec fn wf(self) -> bool {
        &&& self.selected_date.wf()
        &&& self.selected_time.wf()
        &&& (self.mode == InteractionMode::TimeSlot <==> self.selection_start is Some)
        &&& match self.selection_start {
            Some(t) => t.wf(),
            None => true,
        }
        &&& (self.mode == InteractionMode::EventForm <==> self.event_form_state is Some)
        &&& match self.event_form_state {
            Some(f) => f.wf() && (f.created_at is Some <==> self.selected_event_id is Some),
            None => true,
        }
        &&& self.visible_start_hour < self.visible_end_hour <= 24
        &&& 1 <= self.slot_minutes <= 1440
    }
}

impl App {
    /// Assembles the initial snapshot from the validated configuration and
    /// the current date and time: the configured default view (falling back
    /// to the month view), navigation mode, no selection anchor, no form
    /// session, no cached events, and the configured visible-hour window and
    /// slot granularity (falling back to 06:00-18:00 and 30 minutes).
    pub fn new(config: &Config, today: Date, now: TimeOfDay) -> (a: App)
        requires
            today.wf(),
            now.wf(),
        ensures
            a@.wf(),
            a@.state == spec_view_for_name(config.ui.default_view@),
            a@.mode == InteractionMode::Navigation,
            a@.event_form_state is None,
            a@.selected_event_id is None,
            a@.selected_date == today,
            a@.selected_time == now,
            a@.selection_start is None,
            a@.events == Seq::<EventView>::empty(),
            (a@.visible_start_hour, a@.visible_end_hour) == spec_visible_hours(
                config.calendar.visible_hours_start@,
                config.calendar.visible_hours_end@,
            ),
            a@.slot_minutes == spec_slot_minutes(config.calendar.slot_interval_minutes),
    {
        let state = view_for_name(&config.ui.default_view);
        let hours = visible_hours(
            &config.calendar.visible_hours_start,
            &config.calendar.visible_hours_end,
        );
        let slot = slot_minutes(config.calendar.slot_interval_minutes);
        let a = App {
            state,
            mode: InteractionMode::Navigation,
            event_form_state: None,
            selected_event_id: None,
            selected_date: today,
            selected_time: now,
            selection_start: None,
            events: Vec::new(),
            visible_start_hour: hours.0,
            visible_end_hour: hours.1,
            slot_minutes: slot,
        };
        proof {
            assert(a@.events =~= Seq::<EventView>::empty());
        }
        a
    }

    /// Scrolls the visible-hour window one hour earlier, when it is not
    /// already at midnight; the window keeps its height.
    pub fn scroll_up(&mut self)
        requires
            old(self)@.wf(),
        ensures
            final(self)@.wf(),
            old(self)@.visible_start_hour > 0 ==> final(self)@ == (AppView {
                visible_start_hour: (old(self)@.visible_start_hour - 1) as u32,
                visible_end_hour: (old(self)@.visible_end_hour - 1) as u32,
                ..old(self)@
            }),
            old(self)@.visible_start_hour == 0 ==> final(self)@ == old(self)@,
    {
        if self.visible_start_hour > 0 {
            self.visible_start_hour = self.visible_start_hour - 1;
            self.visible_end_hour = self.visible_end_hour - 1;
        }
    }

    /// Scrolls the visible-hour window one hour later, when it does not
    /// already end at midnight; the window keeps its height.
    pub fn scroll_down(&mut self)
        requires
            old(self)@.wf(),
        ensures
            final(self)@.wf(),
            old(self)@.visible_end_hour < 24 ==> final(self)@ == (AppView {
                visible_start_hour: (old(self)@.visible_start_hour + 1) as u32,
                visible_end_hour: (old(self)@.visible_end_hour + 1) as u32,
                ..old(self)@
            }),
            old(self)@.visible_end_hour == 24 ==> final(self)@ == old(self)@,
    {
        if self.visible_end_hour < 24 {
            self.visible_start_hour = self.visible_start_hour + 1;
            self.visible_end_hour = self.visible_end_hour + 1;
        }
    }

    /// The ordered `(start, end)` pair of times the current range selection
    /// covers, or `None` while no range anchor is set.
    pub fn normalized_range(&self) -> (r: Option<(TimeOfDay, TimeOfDay)>)
        ensures
            r == (match self@.selection_start {
                Some(anchor) => Some(spec_normalized(anchor, self@.selected_time)),
                None => None::<(TimeOfDay, TimeOfDay)>,
            }),
    {
        match self.selection_start {
            Some(anchor) => {
                if anchor.minutes <= self.selected_time.minutes {
                    Some((anchor, self.selected_time))
                } else {
                    Some((self.selected_time, anchor))
                }
            },
            None => None,
        }
    }

    /// The half-open instant range the active view shows around the
    /// selected date; the store is queried with exactly this interval.
    pub fn visible_range(&self) -> (r: (i64, i64))
        requires
            self@.wf(),
        ensures
            r.0 == spec_resolve_start(self@.state, self@.selected_date),
            r.1 == spec_resolve_end(self@.state, self@.selected_date),
            r.0 < r.1,
    {
        resolve(self.state, self.selected_date)
    }

    /// Replaces the cached visible events (with what the store returned for
    /// the visible range, or with nothing after a failed query).
    pub fn set_events(&mut self, events: Vec<Event>)
        ensures
            final(self)@ == (AppView { events: events.deep_view(), ..old(self)@ }),
    {
        self.events = events;
    }
}

/// Whether the cursor rests on the given day and slot time.
pub open spec fn spec_slot_focused(a: AppView, day: Date, t: TimeOfDay) -> bool {
    a.selected_date == day && a.selected_time == t
}

/// Whether the given day and slot time lie inside the range being selected:
/// only while a range anchor is set, on the selected date, between the
/// ordered anchor pair inclusively.
pub open spec fn spec_slot_in_selection(a: AppView, day: Date, t: TimeOfDay) -> bool {
    match a.selection_start {
        Some(anchor) => {
            let lo = spec_normalized(anchor, a.selected_time).0;
            let hi = spec_normalized(anchor, a.selected_time).1;
            a.selected_date == day && lo.minutes <= t.minutes <= hi.minutes
        },
        None => false,
    }
}

impl App {
    /// The highlight flags of one displayed slot: whether the cursor rests
    /// on it, and whether it lies inside the range being selected.
    pub fn slot_highlight(&self, day: Date, t: TimeOfDay) -> (r: (bool, bool))
        ensures
            r.0 == spec_slot_focused(self@, day, t),
            r.1 == spec_slot_in_selection(self@, day, t),
    {
        let focused = self.selected_date.year == day.year && self.selected_date.month == day.month
            && self.selected_date.day == day.day && self.selected_time.minutes == t.minutes;
        let in_selection = match self.selection_start {
            Some(anchor) => {
                let lo = if anchor.minutes <= self.selected_time.minutes {
                    anchor.minutes
                } else {
                    self.selected_time.minutes
                };
                let hi = if anchor.minutes <= self.selected_time.minutes {
                    self.selected_time.minutes
                } else {
                    anchor.minutes
                };
                self.selected_date.year == day.year && self.selected_date.month == day.month
                    && self.selected_date.day == day.day && lo <= t.minutes && t.minutes <= hi
            },
            None => false,
        };
        (focused, in_selection)
    }
}

} // verus!
