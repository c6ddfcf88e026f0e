//! The recurrence calculator: the next occurrence of a repeating task.
//!
//! The base instant is read as a wall-clock date-time in the task's
//! timezone, advanced by the repeat interval with verified calendar
//! arithmetic, and mapped back to an instant in the same timezone.  A
//! wall-clock reading that two instants share (a DST fold) resolves to
//! the earlier one; a reading that no instant has (a DST gap) is an
//! error, as is an unknown timezone name.

use vstd::prelude::*;
use vstd::string::StringExecFns;

use crate::civil::advance;
use crate::civil::advance_spec;
use crate::civil::civil_lt;
use crate::civil::CivilDateTime;
use crate::errors::AppError;
use crate::models::RepeatInterval;
use crate::models::MAX_INSTANT;
use crate::tz::local_calendar_in;
use crate::tz::local_of;
use crate::tz::resolution_of;
use crate::tz::resolve_calendar_in;
use crate::tz::tz_known;
use crate::tz::LocalResolution;

verus! {

/// The wall-clock reading of the next occurrence: the base instant's
/// reading in the timezone, advanced by the interval.
pub open spec fn next_local_spec(tz: Seq<char>, base: int, interval: RepeatInterval) -> CivilDateTime {
    advance_spec(local_of(tz, base), interval)
}

/// Whether the next occurrence is computable: the timezone is known,
/// the base reading lies within the supported year range, the
/// advanced reading is not skipped by a DST gap, and the resolved
/// instant lies strictly after the base — true of every real zone
/// database, and checked at run time.
pub open spec fn next_occurrence_ok(tz: Seq<char>, base: int, interval: RepeatInterval) -> bool {
    &&& tz_known(tz)
    &&& local_of(tz, base).year <= 9998
    &&& !(resolution_of(tz, next_local_spec(tz, base, interval)) is Nonexistent)
    &&& next_occurrence_value(tz, base, interval) > base
}

/// The instant of the next occurrence: the instant whose wall-clock
/// reading is the advanced one, taking the earlier of an ambiguous
/// pair.  Meaningful only when `next_occurrence_ok` holds.
pub open spec fn next_occurrence_value(tz: Seq<char>, base: int, interval: RepeatInterval) -> i64 {
    match resolution_of(tz, next_local_spec(tz, base, interval)) {
        LocalResolution::Unique(t) => t,
        LocalResolution::Ambiguous(earliest, _) => earliest,
        LocalResolution::Nonexistent => 0,
    }
}

/// The next occurrence of a repeating schedule: `base` advanced by
/// `interval` on the wall clock of `timezone`.
///
/// A computed occurrence is strictly later than the base instant; a
/// zone-database answer that did not advance (no real zone gives one)
/// is rejected as an error.  It reads, on the wall clock of the same
/// timezone, as the base instant's reading advanced by the interval —
/// strictly later in calendar order than the base instant's reading.
pub fn next_occurrence(base: i64, timezone: &str, interval: RepeatInterval) -> (r: Result<
    i64,
    AppError,
>)
    requires
        0 <= base <= MAX_INSTANT,
    ensures
        next_occurrence_ok(timezone@, base as int, interval) ==> r == Ok::<i64, AppError>(
            next_occurrence_value(timezone@, base as int, interval),
        ),
        !next_occurrence_ok(timezone@, base as int, interval) ==> r matches Err(
            AppError::TimeParse(_),
        ),
        r matches Ok(t) ==> t > base,
        r matches Ok(t) ==> local_of(timezone@, t as int) == next_local_spec(
            timezone@,
            base as int,
            interval,
        ),
        r matches Ok(t) ==> civil_lt(
            local_of(timezone@, base as int),
            local_of(timezone@, t as int),
        ),
{
    let c = match local_calendar_in(timezone, base) {
        Some(c) => c,
        None => {
            let mut m = String::from_str("Invalid timezone: ");
            m.append(timezone);
            return Err(AppError::TimeParse(m));
        },
    };
    if c.year > 9998 {
        return Err(AppError::TimeParse(String::from_str("Date out of supported range")));
    }
    let a = advance(&c, interval);
    match resolve_calendar_in(timezone, &a) {
        None => Err(AppError::TimeParse(String::from_str("Invalid timezone"))),
        Some(LocalResolution::Nonexistent) => Err(
            AppError::TimeParse(String::from_str("Local time does not exist")),
        ),
        Some(LocalResolution::Unique(t)) => {
            if t > base {
                Ok(t)
            } else {
                Err(AppError::TimeParse(String::from_str("Computed occurrence does not advance")))
            }
        },
        Some(LocalResolution::Ambiguous(earliest, _latest)) => {
            if earliest > base {
                Ok(earliest)
            } else {
                Err(AppError::TimeParse(String::from_str("Computed occurrence does not advance")))
            }
        },
    }
}

} // verus!
