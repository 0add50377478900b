//! Trusted boundary to the system clock and the local calendar. Everything
//! here depends on the machine's time zone or on the clock itself, so the
//! contracts state only what holds of every outcome.

use vstd::prelude::*;

verus! {

/// Relies on chrono: `Local.timestamp_millis_opt` renders an instant in the
/// machine's local time zone (`None` only for an out-of-range instant,
/// otherwise always a single mapping), and `Timelike::hour` returns the hour
/// number from 0 to 23.
#[verifier::external_body]
pub fn local_hour_of_millis(millis: i64) -> (r: Option<u32>)
    ensures
        r matches Some(h) ==> h < 24,
{
    match chrono::TimeZone::timestamp_millis_opt(&chrono::Local, millis) {
        chrono::MappedLocalTime::Single(dt) => Some(chrono::Timelike::hour(&dt)),
        _ => None,
    }
}

/// Relies on chrono: `Local::now` for today's local date, and
/// `TimeZone::with_ymd_and_hms` with `timestamp_millis` to place the given
/// wall-clock time on that date. The result depends on the clock and the
/// time zone, so nothing is promised of it; `None` comes of a wall-clock
/// time that does not exist on today's local calendar.
#[verifier::external_body]
pub fn local_today_at(hour: u32, min: u32) -> (r: Option<i64>)
    requires
        hour < 24,
        min < 60,
{
    let now = chrono::Local::now();
    let year = chrono::Datelike::year(&now);
    let month = chrono::Datelike::month(&now);
    let day = chrono::Datelike::day(&now);
    match chrono::TimeZone::with_ymd_and_hms(&chrono::Local, year, month, day, hour, min, 0) {
        chrono::MappedLocalTime::Single(dt) => Some(dt.timestamp_millis()),
        _ => None,
    }
}

} // verus!
