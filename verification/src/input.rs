//! The interaction state machine: one input symbol at a time is dispatched
//! on the active view and mode, mutating the snapshot and returning at most
//! one storage-effect descriptor for the caller to perform. The transition
//! relation is a single spec function, `spec_step`, and every handler is
//! proved to implement it; a slot lookup is a two-step exchange, with the
//! queried events handed back to `handle_slot_events`.

use vstd::prelude::*;

use crate::app::{App, AppState, AppView, InteractionMode, cycle_view, spec_cycle_view};
use crate::date::{
    Date, YEAR_MIN, date_backward_days, date_forward_days, month_left, month_right, shift_years,
    spec_backward_days, spec_forward_days, spec_month_left, spec_month_right, spec_shift_years,
};
use crate::event::{Event, EventView, lemma_representative_in_slot, slot_representative,
    spec_representative};
use crate::form::{
    EventFormView, from_event, from_range, spec_advance_focus, spec_backspace, spec_from_event,
    spec_from_range, spec_input_char, spec_to_event, to_event,
};
use crate::range::{spec_date_time_ts, timestamp_of};
use crate::timeofday::{spec_normalized, spec_time_backward, spec_time_forward, time_backward,
    time_forward};

verus! {

/// One interpreted input symbol. `CycleView` is the dedicated view-cycling
/// input; `Activate` and `Cancel` are the confirm and escape keys; the four
/// directions navigate; `NextField`, `Text` and `Backspace` edit the form;
/// `EditKey` and `DeleteKey` act on the event under the cursor.
#[derive(PartialEq, Eq, Clone, Copy, Debug)]
pub enum Input {
    CycleView,
    Activate,
    Cancel,
    Left,
    Right,
    Up,
    Down,
    NextField,
    EditKey,
    DeleteKey,
    Text(char),
    Backspace,
}

/// What a requested slot lookup is for: opening an edit form or deleting.
#[derive(PartialEq, Eq, Clone, Copy, Debug, Structural)]
pub enum SlotAction {
    Edit,
    Remove,
}

/// A storage action the state machine asks its caller to perform: query the
/// events of a slot and hand them to [`handle_slot_events`], or persist a
/// deletion, creation or update.
pub enum Effect {
    SlotLookup { start: i64, end: i64, action: SlotAction },
    DeleteEvent { id: i64 },
    CreateEvent { event: Event },
    UpdateEvent { event: Event },
}

/// Spec-level image of an [`Effect`].
pub enum EffectView {
    SlotLookup { start: int, end: int, action: SlotAction },
    DeleteEvent { id: int },
    CreateEvent { event: EventView },
    UpdateEvent { event: EventView },
}

impl View for Effect {
    type V = EffectView;

    open spec fn view(&self) -> EffectView {
        match self {
            Effect::SlotLookup { start, end, action } => EffectView::SlotLookup {
                start: *start as int,
                end: *end as int,
                action: *action,
            },
            Effect::DeleteEvent { id } => EffectView::DeleteEvent { id: *id as int },
            Effect::CreateEvent { event } => EffectView::CreateEvent { event: event@ },
            Effect::UpdateEvent { event } => EffectView::UpdateEvent { event: event@ },
        }
    }
}

/// The view of an optional effect.
pub open spec fn spec_effect_view(r: Option<Effect>) -> Option<EffectView> {
    match r {
        Some(e) => Some(e@),
        None => None,
    }
}

/// Start instant of the slot under the cursor.
pub open spec fn spec_slot_start(a: AppView) -> int {
    spec_date_time_ts(a.selected_date, a.selected_time.minutes as int)
}

/// Navigation mode: directional keys move the anchors by the view's unit —
/// months and years in the Year view, days and weeks in the Month view, days
/// and time slots in the Week and Day views — and `Activate` enters
/// selection mode.
pub open spec fn spec_step_navigation(a: AppView, input: Input) -> AppView {
    match a.state {
        AppState::Year => match input {
            Input::Activate => AppView { mode: InteractionMode::Selection, ..a },
            Input::Left => AppView { selected_date: spec_month_left(a.selected_date), ..a },
            Input::Right => AppView { selected_date: spec_month_right(a.selected_date), ..a },
            Input::Up => AppView { selected_date: spec_shift_years(a.selected_date, -1), ..a },
            Input::Down => AppView { selected_date: spec_shift_years(a.selected_date, 1), ..a },
            _ => a,
        },
        AppState::Month => match input {
            Input::Activate => AppView { mode: InteractionMode::Selection, ..a },
            Input::Left => AppView { selected_date: spec_backward_days(a.selected_date, 1), ..a },
            Input::Right => AppView { selected_date: spec_forward_days(a.selected_date, 1), ..a },
            Input::Up => AppView { selected_date: spec_backward_days(a.selected_date, 7), ..a },
            Input::Down => AppView { selected_date: spec_forward_days(a.selected_date, 7), ..a },
            _ => a,
        },
        AppState::Week | AppState::Day => match input {
            Input::Activate => AppView { mode: InteractionMode::Selection, ..a },
            Input::Left => AppView { selected_date: spec_backward_days(a.selected_date, 1), ..a },
            Input::Right => AppView { selected_date: spec_forward_days(a.selected_date, 1), ..a },
            Input::Up => AppView {
                selected_time: spec_time_backward(a.selected_time, a.slot_minutes),
                ..a
            },
            Input::Down => AppView {
                selected_time: spec_time_forward(a.selected_time, a.slot_minutes),
                ..a
            },
            _ => a,
        },
    }
}

/// Selection mode: `Activate` drills into the next finer view from the Year
/// and Month views and anchors a time range in the Week and Day views;
/// directional keys keep navigating; the edit and delete keys ask for a
/// lookup of the slot under the cursor; `Cancel` returns to navigation.
pub open spec fn spec_step_selection(a: AppView, input: Input) -> (AppView, Option<EffectView>) {
    match input {
        Input::Cancel => (AppView { mode: InteractionMode::Navigation, ..a }, None),
        Input::Activate => match a.state {
            AppState::Year => (
                AppView { state: AppState::Month, mode: InteractionMode::Navigation, ..a },
                None,
            ),
            AppState::Month => (
                AppView { state: AppState::Day, mode: InteractionMode::Navigation, ..a },
                None,
            ),
            AppState::Week | AppState::Day => (
                AppView {
                    mode: InteractionMode::TimeSlot,
                    selection_start: Some(a.selected_time),
                    ..a
                },
                None,
            ),
        },
        Input::Left => match a.state {
            AppState::Year => (
                AppView { selected_date: spec_month_left(a.selected_date), ..a },
                None,
            ),
            AppState::Month => (
                AppView { selected_date: spec_backward_days(a.selected_date, 1), ..a },
                None,
            ),
            _ => (a, None),
        },
        Input::Right => match a.state {
            AppState::Year => (
                AppView { selected_date: spec_month_right(a.selected_date), ..a },
                None,
            ),
            AppState::Month => (
                AppView { selected_date: spec_forward_days(a.selected_date, 1), ..a },
                None,
            ),
            _ => (a, None),
        },
        Input::Up => match a.state {
            AppState::Year => (
                AppView { selected_date: spec_shift_years(a.selected_date, -3), ..a },
                None,
            ),
            AppState::Month => (
                AppView { selected_date: spec_backward_days(a.selected_date, 7), ..a },
                None,
            ),
            AppState::Week | AppState::Day => (
                AppView {
                    selected_time: spec_time_backward(a.selected_time, a.slot_minutes),
                    ..a
                },
                None,
            ),
        },
        Input::Down => match a.state {
            AppState::Year => (
                AppView { selected_date: spec_shift_years(a.selected_date, 3), ..a },
                None,
            ),
            AppState::Month => (
                AppView { selected_date: spec_forward_days(a.selected_date, 7), ..a },
                None,
            ),
            AppState::Week | AppState::Day => (
                AppView {
                    selected_time: spec_time_forward(a.selected_time, a.slot_minutes),
                    ..a
                },
                None,
            ),
        },
        Input::EditKey => (
            a,
            Some(
                EffectView::SlotLookup {
                    start: spec_slot_start(a),
                    end: spec_slot_start(a) + a.slot_minutes * 60,
                    action: SlotAction::Edit,
                },
            ),
        ),
        Input::DeleteKey => (
            a,
            Some(
                EffectView::SlotLookup {
                    start: spec_slot_start(a),
                    end: spec_slot_start(a) + a.slot_minutes * 60,
                    action: SlotAction::Remove,
                },
            ),
        ),
        _ => (a, None),
    }
}

/// Time-slot mode: up and down extend the anchored range; `Activate` opens a
/// form session over the normalized range (one slot long when the anchor was
/// never moved) and clears the anchor; `Cancel` clears the anchor and
/// returns to selection mode.
pub open spec fn spec_step_timeslot(a: AppView, input: Input) -> AppView {
    match input {
        Input::Cancel => AppView {
            mode: InteractionMode::Selection,
            selection_start: None,
            ..a
        },
        Input::Up => AppView {
            selected_time: spec_time_backward(a.selected_time, a.slot_minutes),
            ..a
        },
        Input::Down => AppView {
            selected_time: spec_time_forward(a.selected_time, a.slot_minutes),
            ..a
        },
        Input::Activate => match a.selection_start {
            Some(anchor) => {
                let lo = spec_normalized(anchor, a.selected_time).0;
                let hi = spec_normalized(anchor, a.selected_time).1;
                let start_ts = spec_date_time_ts(a.selected_date, lo.minutes as int);
                let end_ts = if hi.minutes > lo.minutes {
                    spec_date_time_ts(a.selected_date, hi.minutes as int)
                } else {
                    start_ts + a.slot_minutes * 60
                };
                AppView {
                    mode: InteractionMode::EventForm,
                    event_form_state: Some(spec_from_range(start_ts, end_ts)),
                    selection_start: None,
                    selected_event_id: None,
                    ..a
                }
            },
            None => a,
        },
        _ => a,
    }
}

/// Event-form mode: `NextField` moves the focus, text input and backspace
/// edit the focused field, `Activate` builds the event from the session —
/// updating when an existing event is being edited, creating otherwise —
/// and discards the session, and `Cancel` discards it unsubmitted.
pub open spec fn spec_step_form(a: AppView, input: Input, now: i64) -> (
    AppView,
    Option<EffectView>,
) {
    match a.event_form_state {
        Some(f) => match input {
            Input::Cancel => (
                AppView { mode: InteractionMode::Navigation, event_form_state: None, ..a },
                None,
            ),
            Input::NextField => (
                AppView { event_form_state: Some(spec_advance_focus(f)), ..a },
                None,
            ),
            Input::Text(c) => (
                AppView { event_form_state: Some(spec_input_char(f, c)), ..a },
                None,
            ),
            Input::Backspace => (
                AppView { event_form_state: Some(spec_backspace(f)), ..a },
                None,
            ),
            Input::Activate => (
                AppView { mode: InteractionMode::Navigation, event_form_state: None, ..a },
                Some(
                    match a.selected_event_id {
                        Some(_) => EffectView::UpdateEvent {
                            event: spec_to_event(f, a.selected_event_id, now),
                        },
                        None => EffectView::CreateEvent {
                            event: spec_to_event(f, a.selected_event_id, now),
                        },
                    },
                ),
            ),
            _ => (a, None),
        },
        None => (a, None),
    }
}

/// The whole transition relation: the dedicated view-cycling input acts
/// first, independent of mode and preserving mode and anchors; every other
/// input is dispatched on the current mode.
pub open spec fn spec_step(a: AppView, input: Input, now: i64) -> (AppView, Option<EffectView>) {
    match input {
        Input::CycleView => (AppView { state: spec_cycle_view(a.state), ..a }, None),
        _ => match a.mode {
            InteractionMode::Navigation => (spec_step_navigation(a, input), None),
            InteractionMode::Selection => spec_step_selection(a, input),
            InteractionMode::TimeSlot => (spec_step_timeslot(a, input), None),
            InteractionMode::EventForm => spec_step_form(a, input, now),
        },
    }
}

/// Navigation-mode dispatch.
fn handle_navigation_input(input: Input, app: &mut App)
    requires
        old(app)@.wf(),
        old(app)@.mode == InteractionMode::Navigation,
        input != Input::CycleView,
    ensures
        final(app)@ == spec_step_navigation(old(app)@, input),
        final(app)@.wf(),
{
    match app.state {
        AppState::Year => match input {
            Input::Activate => {
                app.mode = InteractionMode::Selection;
            },
            Input::Left => {
                app.selected_date = month_left(app.selected_date);
            },
            Input::Right => {
                app.selected_date = month_right(app.selected_date);
            },
            Input::Up => {
                app.selected_date = shift_years(app.selected_date, -1);
            },
            Input::Down => {
                app.selected_date = shift_years(app.selected_date, 1);
            },
            _ => {},
        },
        AppState::Month => match input {
            Input::Activate => {
                app.mode = InteractionMode::Selection;
            },
            Input::Left => {
                app.selected_date = date_backward_days(app.selected_date, 1);
            },
            Input::Right => {
                app.selected_date = date_forward_days(app.selected_date, 1);
            },
            Input::Up => {
                app.selected_date = date_backward_days(app.selected_date, 7);
            },
            Input::Down => {
                app.selected_date = date_forward_days(app.selected_date, 7);
            },
            _ => {},
        },
        AppState::Week | AppState::Day => match input {
            Input::Activate => {
                app.mode = InteractionMode::Selection;
            },
            Input::Left => {
                app.selected_date = date_backward_days(app.selected_date, 1);
            },
            Input::Right => {
                app.selected_date = date_forward_days(app.selected_date, 1);
            },
            Input::Up => {
                app.selected_time = time_backward(app.selected_time, app.slot_minutes);
            },
            Input::Down => {
                app.selected_time = time_forward(app.selected_time, app.slot_minutes);
            },
            _ => {},
        },
    }
}

/// Selection-mode dispatch.
fn handle_selection_input(input: Input, app: &mut App) -> (r: Option<Effect>)
    requires
        old(app)@.wf(),
        old(app)@.mode == InteractionMode::Selection,
        input != Input::CycleView,
    ensures
        final(app)@ == spec_step_selection(old(app)@, input).0,
        spec_effect_view(r) == spec_step_selection(old(app)@, input).1,
        final(app)@.wf(),
{
    match input {
        Input::Cancel => {
            app.mode = InteractionMode::Navigation;
            None
        },
        Input::Activate => {
            match app.state {
                AppState::Year => {
                    app.state = AppState::Month;
                    app.mode = InteractionMode::Navigation;
                },
                AppState::Month => {
                    app.state = AppState::Day;
                    app.mode = InteractionMode::Navigation;
                },
                AppState::Week | AppState::Day => {
                    app.mode = InteractionMode::TimeSlot;
                    app.selection_start = Some(app.selected_time);
                },
            }
            None
        },
        Input::Left => {
            match app.state {
                AppState::Year => {
                    app.selected_date = month_left(app.selected_date);
                },
                AppState::Month => {
                    app.selected_date = date_backward_days(app.selected_date, 1);
                },
                _ => {},
            }
            None
        },
        Input::Right => {
            match app.state {
                AppState::Year => {
                    app.selected_date = month_right(app.selected_date);
                },
                AppState::Month => {
                    app.selected_date = date_forward_days(app.selected_date, 1);
                },
                _ => {},
            }
            None
        },
        Input::Up => {
            match app.state {
                AppState::Year => {
                    app.selected_date = shift_years(app.selected_date, -3);
                },
                AppState::Month => {
                    app.selected_date = date_backward_days(app.selected_date, 7);
                },
                AppState::Week | AppState::Day => {
                    app.selected_time = time_backward(app.selected_time, app.slot_minutes);
                },
            }
            None
        },
        Input::Down => {
            match app.state {
                AppState::Year => {
                    app.selected_date = shift_years(app.selected_date, 3);
                },
                AppState::Month => {
                    app.selected_date = date_forward_days(app.selected_date, 7);
                },
                AppState::Week | AppState::Day => {
                    app.selected_time = time_forward(app.selected_time, app.slot_minutes);
                },
            }
            None
        },
        Input::EditKey => {
            let s = timestamp_of(app.selected_date, app.selected_time);
            let e = s + (app.slot_minutes as i64) * 60;
            Some(Effect::SlotLookup { start: s, end: e, action: SlotAction::Edit })
        },
        Input::DeleteKey => {
            let s = timestamp_of(app.selected_date, app.selected_time);
            let e = s + (app.slot_minutes as i64) * 60;
            Some(Effect::SlotLookup { start: s, end: e, action: SlotAction::Remove })
        },
        _ => None,
    }
}

/// Time-slot-mode dispatch.
fn handle_timeslot_input(input: Input, app: &mut App)
    requires
        old(app)@.wf(),
        old(app)@.mode == InteractionMode::TimeSlot,
        input != Input::CycleView,
    ensures
        final(app)@ == spec_step_timeslot(old(app)@, input),
        final(app)@.wf(),
{
    match input {
        Input::Cancel => {
            app.mode = InteractionMode::Selection;
            app.selection_start = None;
        },
        Input::Up => {
            app.selected_time = time_backward(app.selected_time, app.slot_minutes);
        },
        Input::Down => {
            app.selected_time = time_forward(app.selected_time, app.slot_minutes);
        },
        Input::Activate => {
            match app.selection_start {
                Some(anchor) => {
                    let (lo, hi) = if anchor.minutes <= app.selected_time.minutes {
                        (anchor, app.selected_time)
                    } else {
                        (app.selected_time, anchor)
                    };
                    let start_ts = timestamp_of(app.selected_date, lo);
                    let end_ts = if hi.minutes > lo.minutes {
                        timestamp_of(app.selected_date, hi)
                    } else {
                        start_ts + (app.slot_minutes as i64) * 60
                    };
                    app.event_form_state = Some(from_range(start_ts, end_ts));
                    app.mode = InteractionMode::EventForm;
                    app.selection_start = None;
                    app.selected_event_id = None;
                },
                None => {},
            }
        },
        _ => {},
    }
}

/// Event-form-mode dispatch.
fn handle_event_form_input(input: Input, app: &mut App, now: i64) -> (r: Option<Effect>)
    requires
        old(app)@.wf(),
        old(app)@.mode == InteractionMode::EventForm,
        input != Input::CycleView,
    ensures
        final(app)@ == spec_step_form(old(app)@, input, now).0,
        spec_effect_view(r) == spec_step_form(old(app)@, input, now).1,
        final(app)@.wf(),
{
    match input {
        Input::Cancel => {
            match &app.event_form_state {
                Some(_) => {
                    app.mode = InteractionMode::Navigation;
                    app.event_form_state = None;
                },
                None => {},
            }
            None
        },
        Input::NextField => {
            match &mut app.event_form_state {
                Some(f) => {
                    f.advance_focus();
                },
                None => {},
            }
            None
        },
        Input::Text(c) => {
            match &mut app.event_form_state {
                Some(f) => {
                    f.input_char(c);
                },
                None => {},
            }
            None
        },
        Input::Backspace => {
            match &mut app.event_form_state {
                Some(f) => {
                    f.backspace();
                },
                None => {},
            }
            None
        },
        Input::Activate => {
            let eff = match &app.event_form_state {
                Some(f) => {
                    let ev = to_event(f, app.selected_event_id, now);
                    Some(
                        match app.selected_event_id {
                            Some(_) => Effect::UpdateEvent { event: ev },
                            None => Effect::CreateEvent { event: ev },
                        },
                    )
                },
                None => None,
            };
            if eff.is_some() {
                app.mode = InteractionMode::Navigation;
                app.event_form_state = None;
            }
            eff
        },
        _ => None,
    }
}

/// Consumes one input symbol: cycles the view on the dedicated input, else
/// dispatches on the current mode; returns the storage effect the caller
/// must perform, if any. `now` is the current instant, used to stamp a
/// submitted event.
pub fn handle_input(input: Input, app: &mut App, now: i64) -> (r: Option<Effect>)
    requires
        old(app)@.wf(),
    ensures
        final(app)@ == spec_step(old(app)@, input, now).0,
        spec_effect_view(r) == spec_step(old(app)@, input, now).1,
        final(app)@.wf(),
{
    match input {
        Input::CycleView => {
            app.state = cycle_view(app.state);
            None
        },
        _ => match app.mode {
            InteractionMode::Navigation => {
                handle_navigation_input(input, app);
                None
            },
            InteractionMode::Selection => handle_selection_input(input, app),
            InteractionMode::TimeSlot => {
                handle_timeslot_input(input, app);
                None
            },
            InteractionMode::EventForm => handle_event_form_input(input, app, now),
        },
    }
}

/// What a completed slot lookup leads to: with no event in the slot nothing
/// happens; otherwise the representative event is either opened in an edit
/// form or asked to be deleted by id.
pub open spec fn spec_slot_resume(
    a: AppView,
    action: SlotAction,
    events: Seq<EventView>,
    start: int,
    end: int,
) -> (AppView, Option<EffectView>) {
    match spec_representative(events, start, end) {
        None => (a, None),
        Some(i) => match action {
            SlotAction::Edit => (
                AppView {
                    mode: InteractionMode::EventForm,
                    event_form_state: Some(spec_from_event(events[i])),
                    selected_event_id: events[i].id,
                    ..a
                },
                None,
            ),
            SlotAction::Remove => (
                a,
                match events[i].id {
                    Some(id) => Some(EffectView::DeleteEvent { id: id as int }),
                    None => None,
                },
            ),
        },
    }
}

/// Completes a slot lookup requested by an [`Effect::SlotLookup`]: `events`
/// is what the store returned for `[start, end)`. The representative event
/// of the slot, when there is one, is opened in an edit form or scheduled
/// for deletion. Every event handed in must be a stored one: proper span and
/// assigned id.
pub fn handle_slot_events(
    app: &mut App,
    action: SlotAction,
    events: &Vec<Event>,
    start: i64,
    end: i64,
) -> (r: Option<Effect>)
    requires
        old(app)@.wf(),
        old(app)@.mode == InteractionMode::Selection,
        forall|j: int|
            0 <= j < events.deep_view().len() ==> (#[trigger] events.deep_view()[j]).valid()
                && events.deep_view()[j].id is Some,
    ensures
        final(app)@ == spec_slot_resume(
            old(app)@,
            action,
            events.deep_view(),
            start as int,
            end as int,
        ).0,
        spec_effect_view(r) == spec_slot_resume(
            old(app)@,
            action,
            events.deep_view(),
            start as int,
            end as int,
        ).1,
        final(app)@.wf(),
{
    match slot_representative(events, start, end) {
        None => None,
        Some(i) => match action {
            SlotAction::Edit => {
                proof {
                    assert(events.deep_view()[i as int] == events@[i as int]@);
                }
                let f = from_event(&events[i]);
                app.selected_event_id = events[i].id;
                app.event_form_state = Some(f);
                app.mode = InteractionMode::EventForm;
                None
            },
            SlotAction::Remove => match events[i].id {
                Some(id) => Some(Effect::DeleteEvent { id }),
                None => None,
            },
        },
    }
}

/// In the Year view, navigating one month left from a January rolls to
/// December of the prior year, keeping the day; the result is a well-formed
/// date.
pub proof fn lemma_year_left_from_january(a: AppView, now: i64)
    requires
        a.wf(),
        a.mode == InteractionMode::Navigation,
        a.state == AppState::Year,
        a.selected_date.month == 1,
        a.selected_date.year > YEAR_MIN,
    ensures
        spec_step(a, Input::Left, now).0.selected_date == (Date {
            year: (a.selected_date.year - 1) as u32,
            month: 12,
            day: a.selected_date.day,
        }),
        spec_step(a, Input::Left, now).0.selected_date.wf(),
        spec_step(a, Input::Left, now).1 == None::<EffectView>,
{
}

/// Navigating one month left or right never leaves the calendar: a day
/// missing from the target month is clamped by rolling to the same day in
/// the adjacent year, so the result is always a well-formed date.
pub proof fn lemma_month_navigation_total(d: Date)
    requires
        d.wf(),
    ensures
        spec_month_left(d).wf(),
        spec_month_right(d).wf(),
{
}

/// Form-editing inputs (focus changes, text, backspace) keep the session
/// open and preserve the identity of the event being edited: the selected
/// id, the remembered creation instant, and the edited span are unchanged,
/// and no storage effect is produced.
pub proof fn lemma_form_edits_keep_identity(a: AppView, f: EventFormView, input: Input, now: i64)
    requires
        a.wf(),
        a.mode == InteractionMode::EventForm,
        a.event_form_state == Some(f),
        input == Input::NextField || input == Input::Backspace || (input matches Input::Text(_)),
    ensures
        spec_step(a, input, now).1 == None::<EffectView>,
        spec_step(a, input, now).0.mode == InteractionMode::EventForm,
        spec_step(a, input, now).0.selected_event_id == a.selected_event_id,
        spec_step(a, input, now).0.event_form_state matches Some(f2) && f2.created_at
            == f.created_at && f2.start_datetime == f.start_datetime && f2.end_datetime
            == f.end_datetime,
{
}

/// Opening the representative event of a slot in an edit form and
/// resubmitting it yields an update — never a creation — of the same event:
/// the id and creation instant are those of the stored event, and only the
/// update instant advances to the submission time.
pub proof fn lemma_edit_then_submit_updates(
    a: AppView,
    events: Seq<EventView>,
    start: int,
    end: int,
    i: int,
    now: i64,
)
    requires
        a.wf(),
        a.mode == InteractionMode::Selection,
        forall|j: int| 0 <= j < events.len() ==> (#[trigger] events[j]).valid() && events[j].id
            is Some,
        spec_representative(events, start, end) == Some(i),
    ensures
        ({
            let opened = spec_slot_resume(a, SlotAction::Edit, events, start, end).0;
            let submitted = spec_step(opened, Input::Activate, now);
            &&& 0 <= i < events.len()
            &&& submitted.1 == Some(
                EffectView::UpdateEvent {
                    event: spec_to_event(spec_from_event(events[i]), events[i].id, now),
                },
            )
            &&& spec_to_event(spec_from_event(events[i]), events[i].id, now).id == events[i].id
            &&& spec_to_event(spec_from_event(events[i]), events[i].id, now).created_at
                == events[i].created_at
            &&& spec_to_event(spec_from_event(events[i]), events[i].id, now).updated_at == now
            &&& submitted.0.mode == InteractionMode::Navigation
            &&& submitted.0.event_form_state is None
        }),
{
    lemma_representative_in_slot(events, start, end, i);
}

} // verus!

