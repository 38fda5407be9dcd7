//! Proleptic Gregorian calendar dates within a fixed supported span of years,
//! with the navigation arithmetic the views need: single-day and week steps,
//! month steps with year rollover, year steps that clamp invalid day/month
//! combinations, weekday computation, and conversion to Unix-epoch instants.
//!
//! The model is a day index counted from the first supported day
//! (`YEAR_MIN`-01-01 is day 0); every arithmetic operation states its result
//! as an equation over that index.

use vstd::prelude::*;

verus! {

/// First supported calendar year.
pub const YEAR_MIN: u32 = 1600;

/// Last supported calendar year.
pub const YEAR_MAX: u32 = 9999;

/// Seconds in one day.
pub const SECONDS_PER_DAY: i64 = 86400;

/// A calendar date in the proleptic Gregorian calendar.
#[derive(Clone, Copy, PartialEq, Eq, Debug, Structural)]
pub struct Date {
    pub year: u32,
    pub month: u32,
    pub day: u32,
}

/// Gregorian leap-year rule.
pub open spec fn spec_is_leap_year(y: int) -> bool {
    y % 4 == 0 && (y % 100 != 0 || y % 400 == 0)
}

/// Number of days in month `m` of year `y`, for `1 <= m <= 12`.
pub open spec fn spec_days_in_month(y: int, m: int) -> int {
    if m == 2 {
        if spec_is_leap_year(y) {
            29
        } else {
            28
        }
    } else if m == 4 || m == 6 || m == 9 || m == 11 {
        30
    } else {
        31
    }
}

/// Number of days in year `y`.
pub open spec fn spec_days_in_year(y: int) -> int {
    if spec_is_leap_year(y) {
        366
    } else {
        365
    }
}

/// Total days in the years `[YEAR_MIN, y)`.
pub open spec fn spec_days_before_year(y: int) -> int
    decreases y - YEAR_MIN,
{
    if y <= YEAR_MIN {
        0
    } else {
        spec_days_before_year(y - 1) + spec_days_in_year(y - 1)
    }
}

/// Total days in the months `[1, m)` of year `y`.
pub open spec fn spec_days_before_month(y: int, m: int) -> int
    decreases m,
{
    if m <= 1 {
        0
    } else {
        spec_days_before_month(y, m - 1) + spec_days_in_month(y, m - 1)
    }
}

/// Day index of a date, counted from `YEAR_MIN`-01-01 as day 0.
pub open spec fn spec_day_number(d: Date) -> int {
    spec_days_before_year(d.year as int) + spec_days_before_month(d.year as int, d.month as int)
        + d.day - 1
}

/// Day index of the last supported day, `YEAR_MAX`-12-31.
pub open spec fn spec_max_day_number() -> int {
    spec_day_number(Date { year: YEAR_MAX, month: 12, day: 31 })
}

impl Date {
    /// A date is well formed when it names an existing day of a supported year.
    pub open spec fn wf(self) -> bool {
        &&& YEAR_MIN <= self.year <= YEAR_MAX
        &&& 1 <= self.month <= 12
        &&& 1 <= self.day <= spec_days_in_month(self.year as int, self.month as int)
    }
}

/// Whether year `y` is a leap year.
pub fn is_leap_year(y: u32) -> (b: bool)
    ensures
        b == spec_is_leap_year(y as int),
{
    y % 4 == 0 && (y % 100 != 0 || y % 400 == 0)
}

/// Number of days in month `m` of year `y`.
pub fn days_in_month(y: u32, m: u32) -> (r: u32)
    requires
        1 <= m <= 12,
    ensures
        r == spec_days_in_month(y as int, m as int),
{
    if m == 2 {
        if is_leap_year(y) {
            29
        } else {
            28
        }
    } else if m == 4 || m == 6 || m == 9 || m == 11 {
        30
    } else {
        31
    }
}

/// Number of days in year `y`.
pub fn days_in_year(y: u32) -> (r: u32)
    ensures
        r == spec_days_in_year(y as int),
{
    if is_leap_year(y) {
        366
    } else {
        365
    }
}

/// The day count of a span of years is bounded by 366 days per year.
pub proof fn lemma_days_before_year_bounds(y: int)
    requires
        YEAR_MIN <= y,
    ensures
        365 * (y - YEAR_MIN) <= spec_days_before_year(y) <= 366 * (y - YEAR_MIN),
    decreases y - YEAR_MIN,
{
    if y > YEAR_MIN {
        lemma_days_before_year_bounds(y - 1);
    }
}

/// The day count of a span of months is bounded by 31 days per month.
pub proof fn lemma_days_before_month_bounds(y: int, m: int)
    requires
        1 <= m <= 13,
    ensures
        0 <= spec_days_before_month(y, m) <= 31 * (m - 1),
    decreases m,
{
    if m > 1 {
        lemma_days_before_month_bounds(y, m - 1);
    }
}

/// The months of a year sum to the year's day count.
pub proof fn lemma_months_fill_year(y: int)
    ensures
        spec_days_before_month(y, 13) == spec_days_in_year(y),
{
    assert(spec_days_before_month(y, 1) == 0);
    assert(spec_days_before_month(y, 2) == 31);
    assert(spec_days_before_month(y, 3) == spec_days_before_month(y, 2) + spec_days_in_month(y, 2));
    assert(spec_days_before_month(y, 4) == spec_days_before_month(y, 3) + 31);
    assert(spec_days_before_month(y, 5) == spec_days_before_month(y, 4) + 30);
    assert(spec_days_before_month(y, 6) == spec_days_before_month(y, 5) + 31);
    assert(spec_days_before_month(y, 7) == spec_days_before_month(y, 6) + 30);
    assert(spec_days_before_month(y, 8) == spec_days_before_month(y, 7) + 31);
    assert(spec_days_before_month(y, 9) == spec_days_before_month(y, 8) + 31);
    assert(spec_days_before_month(y, 10) == spec_days_before_month(y, 9) + 30);
    assert(spec_days_before_month(y, 11) == spec_days_before_month(y, 10) + 31);
    assert(spec_days_before_month(y, 12) == spec_days_before_month(y, 11) + 30);
    assert(spec_days_before_month(y, 13) == spec_days_before_month(y, 12) + 31);
}

/// Day index of a well-formed date.
pub fn day_number(d: Date) -> (n: u32)
    requires
        d.wf(),
    ensures
        n == spec_day_number(d),
        n <= spec_max_day_number(),
        n <= 3074430,
{
    let mut acc: u32 = 0;
    let mut y: u32 = YEAR_MIN;
    while y < d.year
        invariant
            YEAR_MIN <= y <= d.year <= YEAR_MAX,
            acc == spec_days_before_year(y as int),
            acc <= 366 * (y - YEAR_MIN),
        decreases d.year - y,
    {
        acc = acc + days_in_year(y);
        y = y + 1;
    }
    let mut m: u32 = 1;
    let mut macc: u32 = 0;
    while m < d.month
        invariant
            1 <= m <= d.month <= 12,
            macc == spec_days_before_month(d.year as int, m as int),
            macc <= 31 * (m - 1),
        decreases d.month - m,
    {
        proof {
            lemma_days_before_month_bounds(d.year as int, (m + 1) as int);
        }
        macc = macc + days_in_month(d.year, m);
        m = m + 1;
    }
    proof {
        lemma_day_number_in_range(d);
    }
    acc + macc + (d.day - 1)
}

/// A well-formed date's day index lies within the supported span.
pub proof fn lemma_day_number_in_range(d: Date)
    requires
        d.wf(),
    ensures
        0 <= spec_day_number(d) <= spec_max_day_number(),
{
    let y = d.year as int;
    let m = d.month as int;
    lemma_days_before_year_bounds(y);
    lemma_days_before_month_bounds(y, m);
    lemma_dbm_month_mono(y, m);
    lemma_months_fill_year(y);
    assert(spec_day_number(d) <= spec_days_before_year(y) + spec_days_in_year(y) - 1);
    assert(spec_days_before_year(y + 1) == spec_days_before_year(y) + spec_days_in_year(y));
    lemma_day_number_year_mono(y + 1, YEAR_MAX + 1 as int);
    lemma_months_fill_year(YEAR_MAX as int);
    assert(spec_days_before_month(YEAR_MAX as int, 13) == spec_days_before_month(
        YEAR_MAX as int,
        12,
    ) + spec_days_in_month(YEAR_MAX as int, 12));
    assert(spec_days_before_year(YEAR_MAX + 1 as int) == spec_days_before_year(YEAR_MAX as int)
        + spec_days_in_year(YEAR_MAX as int));
    assert(spec_max_day_number() == spec_days_before_year(YEAR_MAX + 1 as int) - 1);
}

/// Later years have at least as many preceding days.
proof fn lemma_day_number_year_mono(y1: int, y2: int)
    requires
        YEAR_MIN <= y1 <= y2,
    ensures
        spec_days_before_year(y1) + 365 * (y2 - y1) <= spec_days_before_year(y2),
    decreases y2 - y1,
{
    if y1 < y2 {
        lemma_day_number_year_mono(y1, y2 - 1);
    }
}

/// The days before a month fit inside the days before any later month.
proof fn lemma_dbm_month_mono(y: int, m: int)
    requires
        1 <= m <= 12,
    ensures
        spec_days_before_month(y, m) + spec_days_in_month(y, m) <= spec_days_before_month(y, 13),
    decreases 13 - m,
{
    if m < 12 {
        lemma_dbm_month_mono(y, m + 1);
    }
}

/// The day after a date; the last supported day is its own successor.
pub open spec fn spec_next_day(d: Date) -> Date {
    if d.day < spec_days_in_month(d.year as int, d.month as int) {
        Date { year: d.year, month: d.month, day: (d.day + 1) as u32 }
    } else if d.month < 12 {
        Date { year: d.year, month: (d.month + 1) as u32, day: 1 }
    } else if d.year < YEAR_MAX {
        Date { year: (d.year + 1) as u32, month: 1, day: 1 }
    } else {
        d
    }
}

/// The day before a date; the first supported day is its own predecessor.
pub open spec fn spec_prev_day(d: Date) -> Date {
    if d.day > 1 {
        Date { year: d.year, month: d.month, day: (d.day - 1) as u32 }
    } else if d.month > 1 {
        Date {
            year: d.year,
            month: (d.month - 1) as u32,
            day: spec_days_in_month(d.year as int, d.month - 1 as int) as u32,
        }
    } else if d.year > YEAR_MIN {
        Date { year: (d.year - 1) as u32, month: 12, day: 31 }
    } else {
        d
    }
}

/// The date `n` days after `d`, saturating at the end of the supported span.
pub open spec fn spec_forward_days(d: Date, n: nat) -> Date
    decreases n,
{
    if n == 0 {
        d
    } else {
        spec_next_day(spec_forward_days(d, (n - 1) as nat))
    }
}

/// The date `n` days before `d`, saturating at the start of the supported
/// span.
pub open spec fn spec_backward_days(d: Date, n: nat) -> Date
    decreases n,
{
    if n == 0 {
        d
    } else {
        spec_prev_day(spec_backward_days(d, (n - 1) as nat))
    }
}

/// The day after a well-formed date; the last supported day is its own successor.
pub fn next_day(d: Date) -> (r: Date)
    requires
        d.wf(),
    ensures
        r == spec_next_day(d),
        r.wf(),
        spec_day_number(d) < spec_max_day_number() ==> spec_day_number(r) == spec_day_number(d) + 1,
        spec_day_number(d) == spec_max_day_number() ==> r == d,
{
    proof {
        lemma_day_number_in_range(d);
    }
    if d.day < days_in_month(d.year, d.month) {
        proof {
            lemma_next_within_month_lt_max(d);
        }
        Date { year: d.year, month: d.month, day: d.day + 1 }
    } else if d.month < 12 {
        proof {
            lemma_next_month_start(d);
        }
        Date { year: d.year, month: d.month + 1, day: 1 }
    } else if d.year < YEAR_MAX {
        proof {
            lemma_months_fill_year(d.year as int);
            lemma_next_year_start(d);
        }
        Date { year: d.year + 1, month: 1, day: 1 }
    } else {
        proof {
            lemma_months_fill_year(YEAR_MAX as int);
        }
        d
    }
}

/// Stepping within a month stays below the maximum day index.
proof fn lemma_next_within_month_lt_max(d: Date)
    requires
        d.wf(),
        d.day < spec_days_in_month(d.year as int, d.month as int),
    ensures
        spec_day_number(d) < spec_max_day_number(),
{
    let r = Date { year: d.year, month: d.month, day: (d.day + 1) as u32 };
    assert(r.wf());
    lemma_day_number_in_range(r);
}

/// Rolling over to the next month stays below the maximum day index.
proof fn lemma_next_month_start(d: Date)
    requires
        d.wf(),
        d.month < 12,
        d.day == spec_days_in_month(d.year as int, d.month as int),
    ensures
        spec_day_number(d) < spec_max_day_number(),
        spec_day_number(Date { year: d.year, month: (d.month + 1) as u32, day: 1 })
            == spec_day_number(d) + 1,
{
    let r = Date { year: d.year, month: (d.month + 1) as u32, day: 1 };
    assert(spec_days_before_month(d.year as int, d.month + 1 as int) == spec_days_before_month(
        d.year as int,
        d.month as int,
    ) + spec_days_in_month(d.year as int, d.month as int));
    assert(r.wf());
    lemma_day_number_in_range(r);
}

/// Rolling over to the next year stays below the maximum day index.
proof fn lemma_next_year_start(d: Date)
    requires
        d.wf(),
        d.year < YEAR_MAX,
        d.month == 12,
        d.day == 31,
    ensures
        spec_day_number(d) < spec_max_day_number(),
        spec_day_number(Date { year: (d.year + 1) as u32, month: 1, day: 1 }) == spec_day_number(
            d,
        ) + 1,
{
    let r = Date { year: (d.year + 1) as u32, month: 1, day: 1 };
    lemma_months_fill_year(d.year as int);
    assert(spec_days_before_year(d.year + 1 as int) == spec_days_before_year(d.year as int)
        + spec_days_in_year(d.year as int));
    assert(r.wf());
    lemma_day_number_in_range(r);
}

/// The day before a well-formed date; the first supported day is its own
/// predecessor.
pub fn prev_day(d: Date) -> (r: Date)
    requires
        d.wf(),
    ensures
        r == spec_prev_day(d),
        r.wf(),
        spec_day_number(d) > 0 ==> spec_day_number(r) == spec_day_number(d) - 1,
        spec_day_number(d) == 0 ==> r == d,
{
    proof {
        lemma_day_number_in_range(d);
        lemma_days_before_year_bounds(d.year as int);
        lemma_days_before_month_bounds(d.year as int, d.month as int);
    }
    if d.day > 1 {
        Date { year: d.year, month: d.month, day: d.day - 1 }
    } else if d.month > 1 {
        let dim = days_in_month(d.year, d.month - 1);
        proof {
            lemma_days_before_month_bounds(d.year as int, d.month - 1 as int);
            assert(spec_days_before_month(d.year as int, d.month as int) == spec_days_before_month(
                d.year as int,
                d.month - 1 as int,
            ) + spec_days_in_month(d.year as int, d.month - 1 as int));
        }
        Date { year: d.year, month: d.month - 1, day: dim }
    } else if d.year > YEAR_MIN {
        proof {
            lemma_months_fill_year(d.year - 1 as int);
            assert(spec_days_before_year(d.year as int) == spec_days_before_year(d.year - 1 as int)
                + spec_days_in_year(d.year - 1 as int));
        }
        Date { year: d.year - 1, month: 12, day: 31 }
    } else {
        assert(spec_day_number(d) == 0);
        d
    }
}

/// Moves a date `n` days forward, stopping at the last supported day.
pub fn date_forward_days(d: Date, n: u32) -> (r: Date)
    requires
        d.wf(),
    ensures
        r == spec_forward_days(d, n as nat),
        r.wf(),
        spec_day_number(r) == if spec_day_number(d) + n <= spec_max_day_number() {
            spec_day_number(d) + n
        } else {
            spec_max_day_number()
        },
{
    let mut cur = d;
    let mut i: u32 = 0;
    proof {
        lemma_day_number_in_range(d);
    }
    while i < n
        invariant
            cur.wf(),
            i <= n,
            cur == spec_forward_days(d, i as nat),
            spec_day_number(cur) == if spec_day_number(d) + i <= spec_max_day_number() {
                spec_day_number(d) + i
            } else {
                spec_max_day_number()
            },
        decreases n - i,
    {
        proof {
            lemma_day_number_in_range(cur);
        }
        cur = next_day(cur);
        i = i + 1;
    }
    cur
}

/// Moves a date `n` days back, stopping at the first supported day.
pub fn date_backward_days(d: Date, n: u32) -> (r: Date)
    requires
        d.wf(),
    ensures
        r == spec_backward_days(d, n as nat),
        r.wf(),
        spec_day_number(r) == if spec_day_number(d) - n >= 0 {
            spec_day_number(d) - n
        } else {
            0
        },
{
    let mut cur = d;
    let mut i: u32 = 0;
    proof {
        lemma_day_number_in_range(d);
    }
    while i < n
        invariant
            cur.wf(),
            i <= n,
            cur == spec_backward_days(d, i as nat),
            spec_day_number(cur) == if spec_day_number(d) - i >= 0 {
                spec_day_number(d) - i
            } else {
                0
            },
        decreases n - i,
    {
        proof {
            lemma_day_number_in_range(cur);
        }
        cur = prev_day(cur);
        i = i + 1;
    }
    cur
}

/// One month earlier, keeping the day when the target month has it; otherwise
/// the same day in December of the previous year. At the lower edge of the
/// supported span the date is unchanged.
pub open spec fn spec_month_left(d: Date) -> Date {
    if d.month > 1 && d.day <= spec_days_in_month(d.year as int, d.month - 1 as int) {
        Date { year: d.year, month: (d.month - 1) as u32, day: d.day }
    } else if d.year > YEAR_MIN {
        Date { year: (d.year - 1) as u32, month: 12, day: d.day }
    } else {
        d
    }
}

/// One month later, keeping the day when the target month has it; otherwise
/// the same day in January of the next year. At the upper edge of the
/// supported span the date is unchanged.
pub open spec fn spec_month_right(d: Date) -> Date {
    if d.month < 12 && d.day <= spec_days_in_month(d.year as int, d.month + 1 as int) {
        Date { year: d.year, month: (d.month + 1) as u32, day: d.day }
    } else if d.year < YEAR_MAX {
        Date { year: (d.year + 1) as u32, month: 1, day: d.day }
    } else {
        d
    }
}

/// Moves one month earlier with year rollover.
pub fn month_left(d: Date) -> (r: Date)
    requires
        d.wf(),
    ensures
        r == spec_month_left(d),
        r.wf(),
{
    if d.month > 1 && d.day <= days_in_month(d.year, d.month - 1) {
        Date { year: d.year, month: d.month - 1, day: d.day }
    } else if d.year > YEAR_MIN {
        Date { year: d.year - 1, month: 12, day: d.day }
    } else {
        d
    }
}

/// Moves one month later with year rollover.
pub fn month_right(d: Date) -> (r: Date)
    requires
        d.wf(),
    ensures
        r == spec_month_right(d),
        r.wf(),
{
    if d.month < 12 && d.day <= days_in_month(d.year, d.month + 1) {
        Date { year: d.year, month: d.month + 1, day: d.day }
    } else if d.year < YEAR_MAX {
        Date { year: d.year + 1, month: 1, day: d.day }
    } else {
        d
    }
}

/// The same month and day `delta` years away, when that names an existing day
/// of a supported year; otherwise the date is unchanged.
pub open spec fn spec_shift_years(d: Date, delta: int) -> Date {
    let ty = d.year + delta;
    if YEAR_MIN <= ty <= YEAR_MAX && d.day <= spec_days_in_month(ty, d.month as int) {
        Date { year: ty as u32, month: d.month, day: d.day }
    } else {
        d
    }
}

/// Shifts a date by `delta` years, staying put when the target day does not
/// exist (February 29 outside a leap year) or leaves the supported span.
pub fn shift_years(d: Date, delta: i32) -> (r: Date)
    requires
        d.wf(),
        -100 <= delta <= 100,
    ensures
        r == spec_shift_years(d, delta as int),
        r.wf(),
{
    let ty: i64 = d.year as i64 + delta as i64;
    if YEAR_MIN as i64 <= ty && ty <= YEAR_MAX as i64 {
        let ty32: u32 = ty as u32;
        if d.day <= days_in_month(ty32, d.month) {
            Date { year: ty32, month: d.month, day: d.day }
        } else {
            d
        }
    } else {
        d
    }
}

/// Days since the Monday of the date's ISO week: 0 for Monday through 6 for
/// Sunday. `YEAR_MIN`-01-01 (1600-01-01) was a Saturday.
pub open spec fn spec_days_from_monday(d: Date) -> int {
    (spec_day_number(d) + 5) % 7
}

/// Days since the Monday of the date's week.
pub fn days_from_monday(d: Date) -> (r: u32)
    requires
        d.wf(),
    ensures
        r == spec_days_from_monday(d),
        r < 7,
{
    proof {
        lemma_day_number_in_range(d);
    }
    let n = day_number(d);
    (n + 5) % 7
}

/// Day index of the Monday starting the week that holds `d`, clamped to the
/// first supported day for the few days that precede the first Monday.
pub open spec fn spec_monday_day_number(d: Date) -> int {
    if spec_day_number(d) >= spec_days_from_monday(d) {
        spec_day_number(d) - spec_days_from_monday(d)
    } else {
        0
    }
}

/// The Monday of the week that holds `d` (clamped at the start of the span).
pub fn monday_of(d: Date) -> (r: Date)
    requires
        d.wf(),
    ensures
        r.wf(),
        spec_day_number(r) == spec_monday_day_number(d),
{
    let k = days_from_monday(d);
    date_backward_days(d, k)
}

} // verus!
