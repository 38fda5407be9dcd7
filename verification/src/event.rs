//! Calendar events and the overlap classifier: the strict half-open
//! intersection test used both for range queries and for per-slot highlight
//! decisions, the deterministic choice of one representative event per
//! displayed slot, and the reference filter for querying an event list.

use vstd::prelude::*;

verus! {

/// Spec-level image of an [`Event`], with text as character sequences.
pub struct EventView {
    pub id: Option<i64>,
    pub title: Seq<char>,
    pub description: Option<Seq<char>>,
    pub start_datetime: int,
    pub end_datetime: int,
    pub location: Option<Seq<char>>,
    pub created_at: int,
    pub updated_at: int,
}

/// A calendar event. The id is absent until the store assigns one; the
/// instants are Unix seconds, and a meaningful event satisfies
/// `start_datetime < end_datetime`.
pub struct Event {
    pub id: Option<i64>,
    pub title: String,
    pub description: Option<String>,
    pub start_datetime: i64,
    pub end_datetime: i64,
    pub location: Option<String>,
    pub created_at: i64,
    pub updated_at: i64,
}

impl View for Event {
    type V = EventView;

    open spec fn view(&self) -> EventView {
        EventView {
            id: self.id,
            title: self.title@,
            description: self.description.deep_view(),
            start_datetime: self.start_datetime as int,
            end_datetime: self.end_datetime as int,
            location: self.location.deep_view(),
            created_at: self.created_at as int,
            updated_at: self.updated_at as int,
        }
    }
}

impl DeepView for Event {
    type V = EventView;

    open spec fn deep_view(&self) -> EventView {
        self.view()
    }
}

impl EventView {
    /// An event occupies a proper, non-empty span of time.
    pub open spec fn valid(self) -> bool {
        self.start_datetime < self.end_datetime
    }
}

/// Copies an event, field by field.
pub fn clone_event(e: &Event) -> (r: Event)
    ensures
        r@ == e@,
{
    Event {
        id: e.id,
        title: e.title.clone(),
        description: match &e.description {
            Some(s) => Some(s.clone()),
            None => None,
        },
        start_datetime: e.start_datetime,
        end_datetime: e.end_datetime,
        location: match &e.location {
            Some(s) => Some(s.clone()),
            None => None,
        },
        created_at: e.created_at,
        updated_at: e.updated_at,
    }
}

/// Strict half-open interval overlap: the event touches `[start, end)`
/// exactly when it starts before the range ends and ends after the range
/// starts. An event ending exactly at `start`, or starting exactly at `end`,
/// does not intersect.
pub open spec fn spec_intersects(e: EventView, start: int, end: int) -> bool {
    e.start_datetime < end && e.end_datetime > start
}

/// Whether an event intersects the half-open instant range `[start, end)`.
pub fn intersects(e: &Event, start: i64, end: i64) -> (b: bool)
    ensures
        b == spec_intersects(e@, start as int, end as int),
{
    e.start_datetime < end && e.end_datetime > start
}

/// Ordering key on event ids for the representative choice: an unsaved event
/// (no id yet) sorts before every stored id.
pub open spec fn spec_id_key(id: Option<i64>) -> int {
    match id {
        Some(i) => i as int,
        None => i64::MIN - 1,
    }
}

/// Display order of events in a slot: earlier start first, then lower id.
pub open spec fn spec_precedes(a: EventView, b: EventView) -> bool {
    ||| a.start_datetime < b.start_datetime
    ||| (a.start_datetime == b.start_datetime && spec_id_key(a.id) < spec_id_key(b.id))
}

/// Whether `a` is displayed in preference to `b`.
pub fn precedes(a: &Event, b: &Event) -> (r: bool)
    ensures
        r == spec_precedes(a@, b@),
{
    if a.start_datetime < b.start_datetime {
        true
    } else if a.start_datetime == b.start_datetime {
        match (a.id, b.id) {
            (None, Some(_)) => true,
            (Some(x), Some(y)) => x < y,
            (None, None) => false,
            (Some(_), None) => false,
        }
    } else {
        false
    }
}

/// The representative among the first `k` events of the list: the scan keeps
/// the earliest event that strictly precedes every other intersecting one.
pub open spec fn spec_rep_upto(events: Seq<EventView>, start: int, end: int, k: int) -> Option<int>
    decreases k,
{
    if k <= 0 {
        None
    } else {
        let prev = spec_rep_upto(events, start, end, k - 1);
        if spec_intersects(events[k - 1], start, end) {
            match prev {
                None => Some(k - 1),
                Some(i) => if spec_precedes(events[k - 1], events[i]) {
                    Some(k - 1)
                } else {
                    Some(i)
                },
            }
        } else {
            prev
        }
    }
}

/// Index of the event shown for the slot `[start, end)`, or `None` when no
/// event in the list intersects the slot.
pub open spec fn spec_representative(events: Seq<EventView>, start: int, end: int) -> Option<int> {
    spec_rep_upto(events, start, end, events.len() as int)
}

/// A chosen representative is an index into the list and intersects the slot.
pub proof fn lemma_rep_upto_in_slot(events: Seq<EventView>, start: int, end: int, k: int, i: int)
    requires
        spec_rep_upto(events, start, end, k) == Some(i),
        k <= events.len(),
    ensures
        0 <= i < k,
        spec_intersects(events[i], start, end),
    decreases k,
{
    if k > 0 {
        if spec_rep_upto(events, start, end, k - 1) is Some {
            let prev = spec_rep_upto(events, start, end, k - 1)->Some_0;
            lemma_rep_upto_in_slot(events, start, end, k - 1, prev);
        }
    }
}

/// The representative of a slot is an index into the list and intersects the
/// slot.
pub proof fn lemma_representative_in_slot(events: Seq<EventView>, start: int, end: int, i: int)
    requires
        spec_representative(events, start, end) == Some(i),
    ensures
        0 <= i < events.len(),
        spec_intersects(events[i], start, end),
{
    lemma_rep_upto_in_slot(events, start, end, events.len() as int, i);
}

/// Picks the one event shown for the slot `[start, end)`: among the events
/// intersecting the slot, the first by start instant with ties broken by
/// lowest id; among exact duplicates of that key, the earliest in the list.
/// Returns its index, or `None` when no event intersects the slot.
pub fn slot_representative(events: &Vec<Event>, start: i64, end: i64) -> (r: Option<usize>)
    ensures
        match r {
            Some(i) => spec_representative(events.deep_view(), start as int, end as int) == Some(
                i as int,
            ),
            None => spec_representative(events.deep_view(), start as int, end as int)
                == None::<int>,
        },
        match r {
            Some(i) => {
                &&& i < events@.len()
                &&& spec_intersects(events@[i as int]@, start as int, end as int)
                &&& forall|j: int|
                    0 <= j < events@.len() && spec_intersects(
                        events@[j]@,
                        start as int,
                        end as int,
                    ) ==> !spec_precedes(events@[j]@, events@[i as int]@)
                &&& forall|j: int|
                    0 <= j < i && spec_intersects(events@[j]@, start as int, end as int)
                        ==> spec_precedes(events@[i as int]@, events@[j]@)
            },
            None => forall|j: int|
                0 <= j < events@.len() ==> !spec_intersects(events@[j]@, start as int, end as int),
        },
{
    let mut best: Option<usize> = None;
    let mut k: usize = 0;
    while k < events.len()
        invariant
            k <= events@.len(),
            match best {
                Some(i) => spec_rep_upto(events.deep_view(), start as int, end as int, k as int)
                    == Some(i as int),
                None => spec_rep_upto(events.deep_view(), start as int, end as int, k as int)
                    == None::<int>,
            },
            match best {
                Some(i) => {
                    &&& i < k
                    &&& spec_intersects(events@[i as int]@, start as int, end as int)
                    &&& forall|j: int|
                        0 <= j < k && spec_intersects(events@[j]@, start as int, end as int)
                            ==> !spec_precedes(events@[j]@, events@[i as int]@)
                    &&& forall|j: int|
                        0 <= j < i && spec_intersects(events@[j]@, start as int, end as int)
                            ==> spec_precedes(events@[i as int]@, events@[j]@)
                },
                None => forall|j: int|
                    0 <= j < k ==> !spec_intersects(events@[j]@, start as int, end as int),
            },
        decreases events@.len() - k,
    {
        if intersects(&events[k], start, end) {
            best = match best {
                Some(i) => {
                    if precedes(&events[k], &events[i]) {
                        Some(k)
                    } else {
                        Some(i)
                    }
                },
                None => Some(k),
            };
        }
        k = k + 1;
    }
    best
}

/// Returns the events intersecting `[start, end)`, in their stored order:
/// the reference semantics every range query must follow.
pub fn events_in_range(events: &Vec<Event>, start: i64, end: i64) -> (r: Vec<Event>)
    ensures
        r.deep_view() == events.deep_view().filter(
            |e: EventView| spec_intersects(e, start as int, end as int),
        ),
{
    let ghost pred = |e: EventView| spec_intersects(e, start as int, end as int);
    let mut r: Vec<Event> = Vec::new();
    let mut k: usize = 0;
    proof {
        assert(events.deep_view().take(0) =~= Seq::<EventView>::empty());
        reveal(Seq::filter);
    }
    while k < events.len()
        invariant
            k <= events@.len(),
            events.deep_view().len() == events@.len(),
            r.deep_view() == events.deep_view().take(k as int).filter(pred),
            pred == (|e: EventView| spec_intersects(e, start as int, end as int)),
        decreases events@.len() - k,
    {
        let ghost prefix = events.deep_view().take(k as int);
        let ghost next_prefix = events.deep_view().take(k + 1 as int);
        proof {
            assert(next_prefix.drop_last() =~= prefix);
            assert(next_prefix.last() == events.deep_view()[k as int]);
            reveal(Seq::filter);
        }
        if intersects(&events[k], start, end) {
            let e = clone_event(&events[k]);
            r.push(e);
        }
        k = k + 1;
        proof {
            assert(r.deep_view() =~= events.deep_view().take(k as int).filter(pred));
        }
    }
    proof {
        assert(events.deep_view().take(events@.len() as int) =~= events.deep_view());
    }
    r
}

} // verus!
