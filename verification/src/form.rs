//! The transient event-form session: three independent text buffers with a
//! focus index, the instant pair being edited, and the conversions from an
//! existing event or a selected time range into a session and from a session
//! back into an event on submit.

use vstd::prelude::*;

use crate::event::{Event, EventView};

verus! {

/// Relies on `alloc::string::String::push`: appends the given character to
/// the end of the string.
pub assume_specification[ String::push ](s: &mut String, c: char)
    ensures
        final(s)@ == old(s)@.push(c),
;

/// Relies on `alloc::string::String::pop`: removes the last character of the
/// string and returns it, or returns `None` and leaves the string unchanged
/// when it is empty.
pub assume_specification[ String::pop ](s: &mut String) -> (r: Option<char>)
    ensures
        old(s)@.len() == 0 ==> r == None::<char> && final(s)@ == old(s)@,
        old(s)@.len() > 0 ==> r == Some(old(s)@.last()) && final(s)@ == old(s)@.drop_last(),
;

/// Spec-level image of an [`EventFormState`].
pub struct EventFormView {
    pub title: Seq<char>,
    pub description: Seq<char>,
    pub location: Seq<char>,
    pub start_datetime: int,
    pub end_datetime: int,
    pub focused_field: usize,
    pub created_at: Option<int>,
}

/// The edit buffer behind the event form: three text fields, the instant
/// pair of the event being written, the index of the focused text field, and
/// — when the session edits an already-stored event — that event's original
/// creation instant, kept so a resubmission does not disturb it.
pub struct EventFormState {
    pub title: String,
    pub description: String,
    pub location: String,
    pub start_datetime: i64,
    pub end_datetime: i64,
    pub focused_field: usize,
    pub created_at: Option<i64>,
}

impl View for EventFormState {
    type V = EventFormView;

    open spec fn view(&self) -> EventFormView {
        EventFormView {
            title: self.title@,
            description: self.description@,
            location: self.location@,
            start_datetime: self.start_datetime as int,
            end_datetime: self.end_datetime as int,
            focused_field: self.focused_field,
            created_at: (match self.created_at {
                Some(c) => Some(c as int),
                None => None,
            }),
        }
    }
}

impl EventFormView {
    /// The focus index addresses one of the three text fields and the edited
    /// span of time is proper.
    pub open spec fn wf(self) -> bool {
        &&& self.focused_field < 3
        &&& self.start_datetime < self.end_datetime
    }
}

/// The session a form opened on an existing event starts from: its text
/// verbatim (absent text as empty), its instants verbatim, focus on the
/// title, and the event's creation instant remembered.
pub open spec fn spec_from_event(e: EventView) -> EventFormView {
    EventFormView {
        title: e.title,
        description: match e.description {
            Some(s) => s,
            None => Seq::empty(),
        },
        location: match e.location {
            Some(s) => s,
            None => Seq::empty(),
        },
        start_datetime: e.start_datetime,
        end_datetime: e.end_datetime,
        focused_field: 0,
        created_at: Some(e.created_at),
    }
}

/// Opens a form session pre-populated from an existing event.
pub fn from_event(e: &Event) -> (f: EventFormState)
    requires
        e@.valid(),
    ensures
        f@ == spec_from_event(e@),
        f@.wf(),
{
    EventFormState {
        title: e.title.clone(),
        description: match &e.description {
            Some(s) => s.clone(),
            None => String::new(),
        },
        location: match &e.location {
            Some(s) => s.clone(),
            None => String::new(),
        },
        start_datetime: e.start_datetime,
        end_datetime: e.end_datetime,
        focused_field: 0,
        created_at: Some(e.created_at),
    }
}

/// The session a form opened on a fresh time range starts from: empty text,
/// the given instants, focus on the title, and no remembered creation
/// instant.
pub open spec fn spec_from_range(start: int, end: int) -> EventFormView {
    EventFormView {
        title: Seq::empty(),
        description: Seq::empty(),
        location: Seq::empty(),
        start_datetime: start,
        end_datetime: end,
        focused_field: 0,
        created_at: None,
    }
}

/// Opens an empty form session over the half-open instant range
/// `[start, end)`.
pub fn from_range(start: i64, end: i64) -> (f: EventFormState)
    requires
        start < end,
    ensures
        f@ == spec_from_range(start as int, end as int),
        f@.wf(),
{
    EventFormState {
        title: String::new(),
        description: String::new(),
        location: String::new(),
        start_datetime: start,
        end_datetime: end,
        focused_field: 0,
        created_at: None,
    }
}

/// The event a submitted session builds: the session's current text and
/// instants, the caller-supplied identity, creation stamped `now` only for a
/// fresh event, and the update instant always stamped `now`.
pub open spec fn spec_to_event(f: EventFormView, existing_id: Option<i64>, now: i64) -> EventView {
    EventView {
        id: existing_id,
        title: f.title,
        description: Some(f.description),
        start_datetime: f.start_datetime,
        end_datetime: f.end_datetime,
        location: Some(f.location),
        created_at: match f.created_at {
            Some(c) => c,
            None => now as int,
        },
        updated_at: now as int,
    }
}

/// Builds the event a submitted session describes.
pub fn to_event(f: &EventFormState, existing_id: Option<i64>, now: i64) -> (r: Event)
    ensures
        r@ == spec_to_event(f@, existing_id, now),
{
    Event {
        id: existing_id,
        title: f.title.clone(),
        description: Some(f.description.clone()),
        start_datetime: f.start_datetime,
        end_datetime: f.end_datetime,
        location: Some(f.location.clone()),
        created_at: match f.created_at {
            Some(c) => c,
            None => now,
        },
        updated_at: now,
    }
}

/// Resubmitting a session opened from an existing event keeps the event's
/// identity and creation instant, carries its text and span verbatim, and
/// advances only the update instant.
pub proof fn lemma_edit_keeps_identity(e: EventView, now: i64)
    ensures
        spec_to_event(spec_from_event(e), e.id, now).id == e.id,
        spec_to_event(spec_from_event(e), e.id, now).created_at == e.created_at,
        spec_to_event(spec_from_event(e), e.id, now).updated_at == now,
        spec_to_event(spec_from_event(e), e.id, now).title == e.title,
        spec_to_event(spec_from_event(e), e.id, now).start_datetime == e.start_datetime,
        spec_to_event(spec_from_event(e), e.id, now).end_datetime == e.end_datetime,
{
}

/// Focus moved to the next of the three text fields, cyclically.
pub open spec fn spec_advance_focus(f: EventFormView) -> EventFormView {
    EventFormView { focused_field: ((f.focused_field + 1) % 3) as usize, ..f }
}

/// The focused text field with `c` appended.
pub open spec fn spec_input_char(f: EventFormView, c: char) -> EventFormView {
    if f.focused_field == 0 {
        EventFormView { title: f.title.push(c), ..f }
    } else if f.focused_field == 1 {
        EventFormView { description: f.description.push(c), ..f }
    } else {
        EventFormView { location: f.location.push(c), ..f }
    }
}

/// The focused text field with its last character removed, when it has one.
pub open spec fn spec_backspace(f: EventFormView) -> EventFormView {
    if f.focused_field == 0 {
        if f.title.len() > 0 {
            EventFormView { title: f.title.drop_last(), ..f }
        } else {
            f
        }
    } else if f.focused_field == 1 {
        if f.description.len() > 0 {
            EventFormView { description: f.description.drop_last(), ..f }
        } else {
            f
        }
    } else {
        if f.location.len() > 0 {
            EventFormView { location: f.location.drop_last(), ..f }
        } else {
            f
        }
    }
}

impl EventFormState {
    /// Moves focus to the next text field, wrapping after the last.
    pub fn advance_focus(&mut self)
        requires
            old(self)@.wf(),
        ensures
            final(self)@ == spec_advance_focus(old(self)@),
    {
        self.focused_field = (self.focused_field + 1) % 3;
    }

    /// Appends a character to the focused text field.
    pub fn input_char(&mut self, c: char)
        requires
            old(self)@.wf(),
        ensures
            final(self)@ == spec_input_char(old(self)@, c),
    {
        if self.focused_field == 0 {
            self.title.push(c);
        } else if self.focused_field == 1 {
            self.description.push(c);
        } else {
            self.location.push(c);
        }
    }

    /// Removes the last character of the focused text field, if any.
    pub fn backspace(&mut self)
        requires
            old(self)@.wf(),
        ensures
            final(self)@ == spec_backspace(old(self)@),
    {
        if self.focused_field == 0 {
            let _ = self.title.pop();
        } else if self.focused_field == 1 {
            let _ = self.description.pop();
        } else {
            let _ = self.location.pop();
        }
    }
}

} // verus!
