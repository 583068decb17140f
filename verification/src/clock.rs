//! The clock and timezone readings the resolver depends on.  Each is
//! a trusted wrapper over chrono; the library's logic takes their
//! results as plain values and is verified for every outcome.

use crate::civil::Civil;
use crate::instant::Instant;
use chrono::TimeZone;
use vstd::prelude::*;

verus! {

/// Relies on chrono::Utc::now: the reading is a chrono DateTime, whose
/// timestamp lies within chrono's representable range (about 262,000
/// years above the epoch) and whose subsecond, taken from the system
/// time, lies below one billion nanoseconds.  A returned reading is
/// non-negative: on a system clock set before 1970 the call panics
/// instead of returning.
#[verifier::external_body]
pub fn now_utc() -> (r: Instant)
    ensures
        r.wf(),
        0 <= r.secs < 8_400_000_000_000,
{
    let now = chrono::Utc::now();
    Instant { secs: now.timestamp(), nanos: now.timestamp_subsec_nanos() }
}

/// Relies on chrono::Local::now and FixedOffset::local_minus_utc: a
/// fixed offset lies strictly within one day of UTC.
#[verifier::external_body]
pub fn local_offset_now() -> (r: i64)
    ensures
        -86400 < r < 86400,
{
    chrono::Local::now().offset().local_minus_utc() as i64
}

/// Relies on chrono::TimeZone::from_local_datetime and
/// MappedLocalTime::single: the unique reading of a naive civil time
/// in the process's local zone, if exactly one exists; a returned
/// offset lies strictly within one day of UTC.
#[verifier::external_body]
pub fn local_offset_for_civil(c: &Civil) -> (r: Option<i64>)
    ensures
        r matches Some(o) ==> -86400 < o < 86400,
{
    let nd = match chrono::NaiveDate::from_ymd_opt(c.year as i32, c.month as u32, c.day as u32) {
        Some(d) => d,
        None => return None,
    };
    let ndt = match nd.and_hms_opt(c.hour as u32, c.minute as u32, c.second as u32) {
        Some(t) => t,
        None => return None,
    };
    match chrono::Local.from_local_datetime(&ndt).single() {
        Some(dt) => Some(dt.offset().local_minus_utc() as i64),
        None => None,
    }
}

} // verus!
