//! Trusted boundary to the zone database.
//!
//! Converting an instant to its wall-clock reading in a named IANA
//! timezone, and a wall-clock reading back to the instants that carry
//! it, is the work of `chrono` and `chrono-tz`.  These two conversions
//! (and the clock) are the only unverified steps in the recurrence
//! computation; each is named so that contracts can speak of its
//! result exactly.

use vstd::prelude::*;

use chrono::Datelike;
use chrono::TimeZone;
use chrono::Timelike;

use crate::civil::CivilDateTime;
use crate::models::MAX_INSTANT;

verus! {

/// How a wall-clock reading in a timezone maps back to instants.
#[derive(Clone, Copy, Debug, PartialEq, Eq, Structural)]
pub enum LocalResolution {
    /// No instant has this wall-clock reading: it was skipped by a
    /// DST gap, or the zone database could not resolve it.
    Nonexistent,
    /// Exactly one instant has this wall-clock reading.
    Unique(i64),
    /// Two instants have this wall-clock reading (a DST fold), the
    /// earlier first.
    Ambiguous(i64, i64),
}

/// Whether the zone database recognises this IANA timezone name.
pub uninterp spec fn tz_known(name: Seq<char>) -> bool;

/// The wall-clock reading that the zone database assigns to the given
/// instant (seconds since the Unix epoch) in the named timezone.
pub uninterp spec fn local_of(name: Seq<char>, t: int) -> CivilDateTime;

/// The instants whose wall-clock reading in the named timezone is the
/// given civil date-time.
pub uninterp spec fn resolution_of(name: Seq<char>, c: CivilDateTime) -> LocalResolution;

/// Relies on `chrono_tz::Tz::from_str`, `chrono::DateTime::from_timestamp`
/// and `chrono::DateTime::with_timezone`: the wall-clock reading of an
/// instant in the named timezone.  `chrono` documents the component
/// ranges (month 1 to 12, day 1 to 31 and valid for the month, hour 0
/// to 23, minute and second 0 to 59), and an instant no later than
/// `MAX_INSTANT` (the end of year 9999) stays below year 10001 after a
/// timezone shift of less than one day.
#[verifier::external_body]
pub(crate) fn local_calendar_in(name: &str, t: i64) -> (r: Option<CivilDateTime>)
    requires
        0 <= t <= MAX_INSTANT,
    ensures
        r is Some <==> tz_known(name@),
        r matches Some(c) ==> c == local_of(name@, t as int) && c.wf(),
{
    let tz: chrono_tz::Tz = name.parse().ok()?;
    let loc = chrono::DateTime::from_timestamp(t, 0)?.with_timezone(&tz);
    Some(CivilDateTime {
        year: loc.year(),
        month: loc.month() as u8,
        day: loc.day() as u8,
        hour: loc.hour() as u8,
        minute: loc.minute() as u8,
        second: loc.second() as u8,
    })
}

/// Relies on `chrono::TimeZone::from_local_datetime` with a
/// `chrono_tz::Tz`: the instants whose wall-clock reading in the named
/// timezone is the given civil date-time.  `chrono` documents the
/// ambiguous case as the pair `(earliest, latest)`, and documents the
/// conversion as producing date-times with the requested local time —
/// so each returned instant reads back as the given civil date-time.
#[verifier::external_body]
pub(crate) fn resolve_calendar_in(name: &str, c: &CivilDateTime) -> (r: Option<LocalResolution>)
    requires
        c.wf(),
    ensures
        r is Some <==> tz_known(name@),
        r matches Some(res) ==> res == resolution_of(name@, *c),
        r matches Some(LocalResolution::Ambiguous(a, b)) ==> a <= b,
        r matches Some(LocalResolution::Unique(t)) ==> local_of(name@, t as int) == *c,
        r matches Some(LocalResolution::Ambiguous(a, b)) ==> local_of(name@, a as int) == *c
            && local_of(name@, b as int) == *c,
{
    let tz: chrono_tz::Tz = name.parse().ok()?;
    let date = chrono::NaiveDate::from_ymd_opt(c.year, c.month as u32, c.day as u32)?;
    let ndt = date.and_hms_opt(c.hour as u32, c.minute as u32, c.second as u32)?;
    Some(match tz.from_local_datetime(&ndt) {
        chrono::LocalResult::None => LocalResolution::Nonexistent,
        chrono::LocalResult::Single(dt) => LocalResolution::Unique(dt.timestamp()),
        chrono::LocalResult::Ambiguous(a, b) => LocalResolution::Ambiguous(
            a.timestamp(),
            b.timestamp(),
        ),
    })
}

/// Relies on `chrono::Utc::now`: the current time in seconds since the
/// Unix epoch.  Nothing is promised of a clock reading.  `Utc::now`
/// aborts when the system clock reads before 1970 — an environmental
/// condition no caller can exclude.
#[verifier::external_body]
pub(crate) fn now_seconds() -> i64 {
    chrono::Utc::now().timestamp()
}

} // verus!
