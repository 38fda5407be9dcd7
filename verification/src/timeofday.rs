//! Times of day, stored as whole minutes since midnight, with the wrapping
//! slot arithmetic used by the Week and Day views and the normalization of a
//! possibly-unordered pair of selection anchors.

use vstd::prelude::*;

verus! {

/// Number of minutes in a day; a time of day lies in `[0, MINUTES_PER_DAY)`.
pub const MINUTES_PER_DAY: u32 = 1440;

/// A time of day as whole minutes since midnight.
#[derive(Clone, Copy, PartialEq, Eq, Debug, Structural)]
pub struct TimeOfDay {
    pub minutes: u32,
}

impl TimeOfDay {
    /// A time of day is well formed when it lies within one day.
    pub open spec fn wf(self) -> bool {
        self.minutes < MINUTES_PER_DAY
    }

    /// Builds a time of day from an hour and a minute.
    pub fn from_hm(hour: u32, minute: u32) -> (r: TimeOfDay)
        requires
            hour < 24,
            minute < 60,
        ensures
            r.minutes == hour * 60 + minute,
            r.wf(),
    {
        TimeOfDay { minutes: hour * 60 + minute }
    }
}

/// The time `slot` minutes later, wrapping at midnight without leaving the day.
pub open spec fn spec_time_forward(t: TimeOfDay, slot: u32) -> TimeOfDay {
    TimeOfDay { minutes: ((t.minutes + slot) % (MINUTES_PER_DAY as int)) as u32 }
}

/// The time `slot` minutes earlier, wrapping at midnight without leaving the day.
pub open spec fn spec_time_backward(t: TimeOfDay, slot: u32) -> TimeOfDay {
    TimeOfDay { minutes: ((t.minutes + MINUTES_PER_DAY - slot) % (MINUTES_PER_DAY as int)) as u32 }
}

/// Advances a time of day by `slot` minutes, wrapping at the midnight boundary.
pub fn time_forward(t: TimeOfDay, slot: u32) -> (r: TimeOfDay)
    requires
        t.wf(),
        slot <= MINUTES_PER_DAY,
    ensures
        r == spec_time_forward(t, slot),
        r.wf(),
{
    TimeOfDay { minutes: (t.minutes + slot) % MINUTES_PER_DAY }
}

/// Moves a time of day back by `slot` minutes, wrapping at the midnight boundary.
pub fn time_backward(t: TimeOfDay, slot: u32) -> (r: TimeOfDay)
    requires
        t.wf(),
        slot <= MINUTES_PER_DAY,
    ensures
        r == spec_time_backward(t, slot),
        r.wf(),
{
    TimeOfDay { minutes: (t.minutes + MINUTES_PER_DAY - slot) % MINUTES_PER_DAY }
}

/// Orders the pair (range anchor, currently selected time) as `(min, max)`.
pub open spec fn spec_normalized(anchor: TimeOfDay, selected: TimeOfDay) -> (TimeOfDay, TimeOfDay) {
    if anchor.minutes <= selected.minutes {
        (anchor, selected)
    } else {
        (selected, anchor)
    }
}

/// Normalizing a pair of times does not depend on which of the two was the
/// anchor: anchoring at one time and moving to the other yields the same
/// ordered range as the reverse.
pub proof fn lemma_normalized_order_independent(a: TimeOfDay, b: TimeOfDay)
    ensures
        spec_normalized(a, b) == spec_normalized(b, a),
{
}

/// Orders a pair of times as `(min, max)`.
pub fn normalize_times(anchor: TimeOfDay, selected: TimeOfDay) -> (r: (TimeOfDay, TimeOfDay))
    ensures
        r == spec_normalized(anchor, selected),
{
    if anchor.minutes <= selected.minutes {
        (anchor, selected)
    } else {
        (selected, anchor)
    }
}

} // verus!
