//! Wall-clock ("civil") calendar arithmetic.
//!
//! Recurrence works on the wall-clock reading of an instant in the
//! task's timezone: one calendar day, seven calendar days, or one
//! calendar month ahead, the last clamped to the end of the target
//! month.  All of the arithmetic here is verified; only the conversion
//! between instants and wall-clock readings involves the zone database.

use vstd::prelude::*;

use crate::models::RepeatInterval;

verus! {

/// A wall-clock date and time, as read in some timezone.
#[derive(Clone, Copy, Debug, PartialEq, Eq, Structural)]
pub struct CivilDateTime {
    pub year: i32,
    pub month: u8,
    pub day: u8,
    pub hour: u8,
    pub minute: u8,
    pub second: u8,
}

/// Gregorian leap-year rule.
pub open spec fn is_leap_year(y: int) -> bool {
    (y % 4 == 0 && y % 100 != 0) || y % 400 == 0
}

/// Number of days in the given month of the given year.
pub open spec fn days_in_month(y: int, m: int) -> int {
    if m == 2 {
        if is_leap_year(y) {
            29
        } else {
            28
        }
    } else if m == 4 || m == 6 || m == 9 || m == 11 {
        30
    } else {
        31
    }
}

impl CivilDateTime {
    /// A valid calendar date with a valid time of day, in the range of
    /// years the engine schedules over.
    pub open spec fn wf(self) -> bool {
        &&& 1 <= self.year <= 10000
        &&& 1 <= self.month <= 12
        &&& 1 <= self.day <= days_in_month(self.year as int, self.month as int)
        &&& self.hour <= 23
        &&& self.minute <= 59
        &&& self.second <= 59
    }
}

/// Strict lexicographic order on civil date-times.
pub open spec fn civil_lt(a: CivilDateTime, b: CivilDateTime) -> bool {
    if a.year != b.year {
        a.year < b.year
    } else if a.month != b.month {
        a.month < b.month
    } else if a.day != b.day {
        a.day < b.day
    } else if a.hour != b.hour {
        a.hour < b.hour
    } else if a.minute != b.minute {
        a.minute < b.minute
    } else {
        a.second < b.second
    }
}

/// The calendar day after `c`, at the same time of day.
pub open spec fn next_day_spec(c: CivilDateTime) -> CivilDateTime {
    if (c.day as int) < days_in_month(c.year as int, c.month as int) {
        CivilDateTime { day: (c.day + 1) as u8, ..c }
    } else if c.month < 12 {
        CivilDateTime { month: (c.month + 1) as u8, day: 1, ..c }
    } else {
        CivilDateTime { year: (c.year + 1) as i32, month: 1, day: 1, ..c }
    }
}

/// `n` calendar days after `c`, at the same time of day.
pub open spec fn plus_days_spec(c: CivilDateTime, n: nat) -> CivilDateTime
    decreases n,
{
    if n == 0 {
        c
    } else {
        next_day_spec(plus_days_spec(c, (n - 1) as nat))
    }
}

/// The same day-of-month in the following month, at the same time of
/// day, clamped to the last day of that month when the source day does
/// not exist there; the year rolls over after December.
pub open spec fn add_month_spec(c: CivilDateTime) -> CivilDateTime {
    let y2 = if c.month == 12 {
        c.year + 1
    } else {
        c.year as int
    };
    let m2 = if c.month == 12 {
        1
    } else {
        c.month + 1
    };
    let d2 = if c.day as int <= days_in_month(y2, m2 as int) {
        c.day as int
    } else {
        days_in_month(y2, m2 as int)
    };
    CivilDateTime {
        year: y2 as i32,
        month: m2 as u8,
        day: d2 as u8,
        hour: c.hour,
        minute: c.minute,
        second: c.second,
    }
}

/// The next wall-clock occurrence after `c` for the given interval.
pub open spec fn advance_spec(c: CivilDateTime, interval: RepeatInterval) -> CivilDateTime {
    match interval {
        RepeatInterval::Daily => plus_days_spec(c, 1),
        RepeatInterval::Weekly => plus_days_spec(c, 7),
        RepeatInterval::Monthly => add_month_spec(c),
    }
}

/// The lexicographic order on civil date-times is transitive.
pub proof fn lemma_civil_lt_trans(a: CivilDateTime, b: CivilDateTime, c: CivilDateTime)
    requires
        civil_lt(a, b),
        civil_lt(b, c),
    ensures
        civil_lt(a, c),
{
}

/// Moving up to a week of calendar days from a valid date keeps the
/// date valid, crosses at most one year boundary, and (for a positive
/// number of days) moves strictly later.
proof fn lemma_plus_days_props(c: CivilDateTime, n: nat)
    requires
        c.wf(),
        n <= 7,
    ensures
        n >= 1 ==> civil_lt(c, plus_days_spec(c, n)),
        1 <= plus_days_spec(c, n).month <= 12,
        1 <= plus_days_spec(c, n).day as int <= days_in_month(
            plus_days_spec(c, n).year as int,
            plus_days_spec(c, n).month as int,
        ),
        plus_days_spec(c, n).year == c.year || (plus_days_spec(c, n).year == c.year + 1
            && plus_days_spec(c, n).month == 1 && plus_days_spec(c, n).day as int <= 1 + n),
    decreases n,
{
    if n >= 1 {
        lemma_plus_days_props(c, (n - 1) as nat);
        let p = plus_days_spec(c, (n - 1) as nat);
        let r = plus_days_spec(c, n);
        assert(r == next_day_spec(p));
        assert(civil_lt(p, r));
        if n >= 2 {
            lemma_civil_lt_trans(c, p, r);
        }
    }
}

/// Every recurrence interval moves the wall-clock reading strictly
/// later: the civil-calendar half of the guarantee that a computed
/// next occurrence lies after its base.
pub proof fn lemma_advance_strictly_later(c: CivilDateTime, interval: RepeatInterval)
    requires
        c.wf(),
    ensures
        civil_lt(c, advance_spec(c, interval)),
{
    match interval {
        RepeatInterval::Daily => lemma_plus_days_props(c, 1),
        RepeatInterval::Weekly => lemma_plus_days_props(c, 7),
        RepeatInterval::Monthly => {},
    }
}

/// Monthly recurrence from January 31st lands on the last day of
/// February — the 29th in a leap year, the 28th otherwise — at the
/// same wall-clock time.
pub proof fn lemma_monthly_from_jan_31(c: CivilDateTime)
    requires
        c.wf(),
        c.month == 1,
        c.day == 31,
    ensures
        add_month_spec(c).year == c.year,
        add_month_spec(c).month == 2,
        is_leap_year(c.year as int) ==> add_month_spec(c).day == 29,
        !is_leap_year(c.year as int) ==> add_month_spec(c).day == 28,
        add_month_spec(c).hour == c.hour,
        add_month_spec(c).minute == c.minute,
        add_month_spec(c).second == c.second,
{
}

/// Number of days in the given month of the given year.
pub fn days_in_month_exec(year: i32, month: u8) -> (r: u8)
    requires
        1 <= year <= 10001,
        1 <= month <= 12,
    ensures
        r as int == days_in_month(year as int, month as int),
{
    if month == 2 {
        if (year % 4 == 0 && year % 100 != 0) || year % 400 == 0 {
            29
        } else {
            28
        }
    } else if month == 4 || month == 6 || month == 9 || month == 11 {
        30
    } else {
        31
    }
}

/// The calendar day after `c`, at the same time of day.
fn next_day(c: &CivilDateTime) -> (r: CivilDateTime)
    requires
        c.wf(),
        c.year <= 9999,
    ensures
        r == next_day_spec(*c),
        r.wf(),
{
    let dim = days_in_month_exec(c.year, c.month);
    if c.day < dim {
        CivilDateTime { day: c.day + 1, ..*c }
    } else if c.month < 12 {
        CivilDateTime { month: c.month + 1, day: 1, ..*c }
    } else {
        CivilDateTime { year: c.year + 1, month: 1, day: 1, ..*c }
    }
}

/// `n` calendar days after `c`, at the same time of day.
fn plus_days(c: &CivilDateTime, n: u8) -> (r: CivilDateTime)
    requires
        c.wf(),
        c.year <= 9998,
        1 <= n <= 7,
    ensures
        r == plus_days_spec(*c, n as nat),
        r.wf(),
{
    let mut cur = *c;
    let mut i: u8 = 0;
    while i < n
        invariant
            i <= n,
            n <= 7,
            c.wf(),
            c.year <= 9998,
            cur == plus_days_spec(*c, i as nat),
            cur.wf(),
            cur.year == c.year || (cur.year == c.year + 1 && cur.month == 1 && cur.day as int
                <= 1 + i),
        decreases n - i,
    {
        cur = next_day(&cur);
        i = i + 1;
    }
    cur
}

/// The same day-of-month next month, clamped to the end of the month.
fn add_month(c: &CivilDateTime) -> (r: CivilDateTime)
    requires
        c.wf(),
        c.year <= 9999,
    ensures
        r == add_month_spec(*c),
        r.wf(),
{
    let (y2, m2): (i32, u8) = if c.month == 12 {
        (c.year + 1, 1)
    } else {
        (c.year, c.month + 1)
    };
    let dim = days_in_month_exec(y2, m2);
    let d2 = if c.day <= dim {
        c.day
    } else {
        dim
    };
    CivilDateTime { year: y2, month: m2, day: d2, hour: c.hour, minute: c.minute, second: c.second }
}

/// The next wall-clock occurrence after `c` for the given interval.
/// The result is strictly later than `c` in calendar order.
pub fn advance(c: &CivilDateTime, interval: RepeatInterval) -> (r: CivilDateTime)
    requires
        c.wf(),
        c.year <= 9998,
    ensures
        r == advance_spec(*c, interval),
        r.wf(),
        civil_lt(*c, r),
{
    proof {
        lemma_advance_strictly_later(*c, interval);
    }
    match interval {
        RepeatInterval::Daily => plus_days(c, 1),
        RepeatInterval::Weekly => plus_days(c, 7),
        RepeatInterval::Monthly => add_month(c),
    }
}

} // verus!
