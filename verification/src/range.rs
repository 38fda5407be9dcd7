//! The time-range resolver: a view and an anchor date determine a half-open
//! interval of Unix instants `[start, end)` — the whole day, the ISO week from
//! its Monday, the calendar month, or the calendar year. Also the conversion
//! from a calendar date and time of day to a Unix instant.

use vstd::prelude::*;

use crate::app::AppState;
use crate::date::{
    Date, SECONDS_PER_DAY, YEAR_MAX, YEAR_MIN, day_number, days_in_month, days_in_year,
    lemma_day_number_in_range, lemma_months_fill_year, monday_of, spec_day_number,
    spec_days_before_month, spec_days_before_year, spec_days_in_month, spec_days_in_year,
    spec_monday_day_number,
};
use crate::timeofday::TimeOfDay;

verus! {

/// Seconds in one week.
pub const SECONDS_PER_WEEK: i64 = 604800;

/// Day index of the Unix epoch, 1970-01-01.
pub open spec fn spec_epoch_day() -> int {
    spec_days_before_year(1970)
}

/// Unix instant of a date at `minutes` past midnight.
pub open spec fn spec_date_time_ts(d: Date, minutes: int) -> int {
    (spec_day_number(d) - spec_epoch_day()) * 86400 + minutes * 60
}

/// Unix instant of a date at a time of day.
pub fn timestamp_of(d: Date, t: TimeOfDay) -> (r: i64)
    requires
        d.wf(),
        t.minutes <= 1440,
    ensures
        r == spec_date_time_ts(d, t.minutes as int),
        -300000000000 <= r <= 300000000000,
{
    let dn = day_number(d);
    let epoch = day_number(
        Date { year: 1970, month: 1, day: 1 },
    );
    proof {
        assert(spec_days_before_month(1970, 1) == 0);
    }
    (dn as i64 - epoch as i64) * SECONDS_PER_DAY + (t.minutes as i64) * 60
}

/// First day of the anchor date's month.
pub open spec fn spec_first_of_month(d: Date) -> Date {
    Date { year: d.year, month: d.month, day: 1 }
}

/// First day of the month after the anchor date's month, rolling December
/// over into January of the following year.
pub open spec fn spec_first_of_next_month(d: Date) -> Date {
    if d.month == 12 {
        Date { year: (d.year + 1) as u32, month: 1, day: 1 }
    } else {
        Date { year: d.year, month: (d.month + 1) as u32, day: 1 }
    }
}

/// January 1 of the anchor date's year.
pub open spec fn spec_first_of_year(d: Date) -> Date {
    Date { year: d.year, month: 1, day: 1 }
}

/// January 1 of the year after the anchor date's year.
pub open spec fn spec_first_of_next_year(d: Date) -> Date {
    Date { year: (d.year + 1) as u32, month: 1, day: 1 }
}

/// Start instant of the half-open range a view shows around an anchor date.
pub open spec fn spec_resolve_start(v: AppState, d: Date) -> int {
    match v {
        AppState::Day => spec_date_time_ts(d, 0),
        AppState::Week => (spec_monday_day_number(d) - spec_epoch_day()) * 86400,
        AppState::Month => spec_date_time_ts(spec_first_of_month(d), 0),
        AppState::Year => spec_date_time_ts(spec_first_of_year(d), 0),
    }
}

/// End instant of the half-open range a view shows around an anchor date:
/// exactly one day, week, month or year after the start.
pub open spec fn spec_resolve_end(v: AppState, d: Date) -> int {
    match v {
        AppState::Day => spec_resolve_start(v, d) + 86400,
        AppState::Week => spec_resolve_start(v, d) + 604800,
        AppState::Month => spec_date_time_ts(spec_first_of_next_month(d), 0),
        AppState::Year => spec_date_time_ts(spec_first_of_next_year(d), 0),
    }
}

/// The first day of the month after `d`'s month lies exactly one month of
/// days past the first day of `d`'s month.
pub proof fn lemma_next_month_offset(d: Date)
    requires
        d.wf(),
    ensures
        spec_day_number(spec_first_of_next_month(d)) == spec_day_number(spec_first_of_month(d))
            + spec_days_in_month(d.year as int, d.month as int),
{
    let y = d.year as int;
    let m = d.month as int;
    if d.month == 12 {
        lemma_months_fill_year(y);
        assert(spec_days_before_month(y, 13) == spec_days_before_month(y, 12)
            + spec_days_in_month(y, 12));
        assert(spec_days_before_year(y + 1) == spec_days_before_year(y) + spec_days_in_year(y));
        assert(spec_days_before_month(y + 1, 1) == 0);
    } else {
        assert(spec_days_before_month(y, m + 1) == spec_days_before_month(y, m)
            + spec_days_in_month(y, m));
    }
}

/// January 1 of the next year lies exactly one year of days past January 1.
pub proof fn lemma_next_year_offset(d: Date)
    requires
        d.wf(),
    ensures
        spec_day_number(spec_first_of_next_year(d)) == spec_day_number(spec_first_of_year(d))
            + spec_days_in_year(d.year as int),
{
    let y = d.year as int;
    assert(spec_days_before_year(y + 1) == spec_days_before_year(y) + spec_days_in_year(y));
    assert(spec_days_before_month(y, 1) == 0);
    assert(spec_days_before_month(y + 1, 1) == 0);
}

/// Resolves the half-open instant interval `[start, end)` a view shows
/// around an anchor date.
pub fn resolve(view: AppState, d: Date) -> (r: (i64, i64))
    requires
        d.wf(),
    ensures
        r.0 == spec_resolve_start(view, d),
        r.1 == spec_resolve_end(view, d),
        r.0 < r.1,
{
    let midnight = TimeOfDay { minutes: 0 };
    match view {
        AppState::Day => {
            let s = timestamp_of(d, midnight);
            (s, s + SECONDS_PER_DAY)
        },
        AppState::Week => {
            let m = monday_of(d);
            let s = timestamp_of(m, midnight);
            (s, s + SECONDS_PER_WEEK)
        },
        AppState::Month => {
            let first = Date { year: d.year, month: d.month, day: 1 };
            let s = timestamp_of(first, midnight);
            let dim = days_in_month(d.year, d.month);
            proof {
                lemma_next_month_offset(d);
            }
            (s, s + (dim as i64) * SECONDS_PER_DAY)
        },
        AppState::Year => {
            let first = Date { year: d.year, month: 1, day: 1 };
            let s = timestamp_of(first, midnight);
            let diy = days_in_year(d.year);
            proof {
                lemma_next_year_offset(d);
            }
            (s, s + (diy as i64) * SECONDS_PER_DAY)
        },
    }
}

/// Every resolved range is a proper half-open interval whose end is obtained
/// by adding exactly one unit — day, week, month or year — to its start.
pub proof fn lemma_resolve_unit(v: AppState, d: Date)
    requires
        d.wf(),
    ensures
        spec_resolve_start(v, d) < spec_resolve_end(v, d),
        v == AppState::Day ==> spec_resolve_end(v, d) == spec_resolve_start(v, d) + 86400,
        v == AppState::Week ==> spec_resolve_end(v, d) == spec_resolve_start(v, d) + 7 * 86400,
        v == AppState::Month ==> spec_resolve_start(v, d) == spec_date_time_ts(
            spec_first_of_month(d),
            0,
        ) && spec_resolve_end(v, d) == spec_resolve_start(v, d) + spec_days_in_month(
            d.year as int,
            d.month as int,
        ) * 86400,
        v == AppState::Year ==> spec_resolve_start(v, d) == spec_date_time_ts(
            spec_first_of_year(d),
            0,
        ) && spec_resolve_end(v, d) == spec_resolve_start(v, d) + spec_days_in_year(
            d.year as int,
        ) * 86400,
{
    match v {
        AppState::Day => {
        },
        AppState::Week => {
        },
        AppState::Month => {
            lemma_next_month_offset(d);
        },
        AppState::Year => {
            lemma_next_year_offset(d);
        },
    }
}

} // verus!

