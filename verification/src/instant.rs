//! The resolved point in time: seconds since the Unix epoch plus a
//! non-negative subsecond, so the seconds field is the floor of the
//! instant and epoch arithmetic needs no rounding cases.

use vstd::prelude::*;

verus! {

/// Largest magnitude of the seconds field an `Instant` may hold.  Wide
/// enough for every instant the clock source can report, and small
/// enough that the millisecond count always fits in an `i64`.
pub const MAX_INSTANT_SECS: i64 = 9_000_000_000_000;

/// A timezone-aware point in time, normalized to UTC: `secs` counts
/// seconds since 1970-01-01T00:00:00Z (floor), `nanos` the nanoseconds
/// into that second.
#[derive(Clone, Copy, Debug, PartialEq, Eq, Structural)]
pub struct Instant {
    pub secs: i64,
    pub nanos: u32,
}

impl Instant {
    /// The representation invariant: bounded seconds, normalized
    /// subsecond.
    pub open spec fn wf(self) -> bool {
        &&& -MAX_INSTANT_SECS <= self.secs <= MAX_INSTANT_SECS
        &&& self.nanos < 1_000_000_000
    }

    /// The instant as a single nanosecond count since the epoch.
    pub open spec fn value_ns(self) -> int {
        self.secs * 1_000_000_000 + self.nanos
    }

    /// The millisecond count the instant renders to.
    pub open spec fn spec_millis(self) -> int {
        self.secs * 1000 + self.nanos / 1_000_000
    }

    pub fn new(secs: i64, nanos: u32) -> (r: Instant)
        requires
            -MAX_INSTANT_SECS <= secs <= MAX_INSTANT_SECS,
            nanos < 1_000_000_000,
        ensures
            r == (Instant { secs, nanos }),
            r.wf(),
    {
        Instant { secs, nanos }
    }

    /// Whole seconds since the epoch, truncating toward negative
    /// infinity (the subsecond is non-negative, so this is the `secs`
    /// field itself).
    pub fn epoch_secs(&self) -> (r: i64)
        requires
            self.wf(),
        ensures
            r == self.secs,
            r * 1_000_000_000 <= self.value_ns() < (r + 1) * 1_000_000_000,
    {
        self.secs
    }

    /// Whole milliseconds since the epoch, truncating toward negative
    /// infinity.
    pub fn epoch_millis(&self) -> (r: i64)
        requires
            self.wf(),
        ensures
            r == self.spec_millis(),
    {
        self.secs * 1000 + (self.nanos / 1_000_000) as i64
    }

    /// The instant rounded down to the nearest 100-millisecond
    /// boundary.  Total: truncation by the fixed positive unit cannot
    /// fail.
    pub fn truncate_100ms(&self) -> (r: Instant)
        requires
            self.wf(),
        ensures
            r.wf(),
            r.secs == self.secs,
            r.nanos == (self.nanos / 100_000_000) * 100_000_000,
            r.nanos % 100_000_000 == 0,
    {
        Instant { secs: self.secs, nanos: (self.nanos / 100_000_000) * 100_000_000 }
    }

    /// `self + d` for a non-negative duration of `d_secs` seconds and
    /// `d_nanos` nanoseconds; `None` exactly when the sum leaves the
    /// representable range.
    pub fn checked_add_duration(&self, d_secs: u64, d_nanos: u32) -> (r: Option<Instant>)
        requires
            self.wf(),
            d_nanos < 1_000_000_000,
        ensures
            r is Some <==> self.value_ns() + d_secs * 1_000_000_000 + d_nanos <= MAX_INSTANT_SECS
                * 1_000_000_000 + 999_999_999,
            r matches Some(i) ==> i.wf() && i.value_ns() == self.value_ns() + d_secs
                * 1_000_000_000 + d_nanos,
    {
        let total_n: u64 = self.nanos as u64 + d_nanos as u64;
        let carry: u64 = total_n / 1_000_000_000;
        let rn: u32 = (total_n % 1_000_000_000) as u32;
        if d_secs > 2 * (MAX_INSTANT_SECS as u64) + 1 {
            None
        } else {
            let s2: i64 = self.secs + d_secs as i64 + carry as i64;
            if s2 > MAX_INSTANT_SECS {
                None
            } else {
                Some(Instant { secs: s2, nanos: rn })
            }
        }
    }

    /// `self - d` for a non-negative duration; `None` exactly when the
    /// difference leaves the representable range.
    pub fn checked_sub_duration(&self, d_secs: u64, d_nanos: u32) -> (r: Option<Instant>)
        requires
            self.wf(),
            d_nanos < 1_000_000_000,
        ensures
            r is Some <==> self.value_ns() - d_secs * 1_000_000_000 - d_nanos >= -MAX_INSTANT_SECS
                * 1_000_000_000,
            r matches Some(i) ==> i.wf() && i.value_ns() == self.value_ns() - d_secs
                * 1_000_000_000 - d_nanos,
    {
        let borrow: u64 = if d_nanos > self.nanos {
            1
        } else {
            0
        };
        let rn: u32 = if d_nanos > self.nanos {
            self.nanos + 1_000_000_000 - d_nanos
        } else {
            self.nanos - d_nanos
        };
        if d_secs > 2 * (MAX_INSTANT_SECS as u64) + 1 {
            None
        } else {
            let s2: i64 = self.secs - d_secs as i64 - borrow as i64;
            if s2 < -MAX_INSTANT_SECS {
                None
            } else {
                Some(Instant { secs: s2, nanos: rn })
            }
        }
    }
}

/// The epoch-second rendering scaled to milliseconds never exceeds the
/// millisecond rendering of the same instant, and undershoots it by
/// less than a whole second.
pub proof fn lemma_epoch_millis_consistent(i: Instant)
    requires
        i.wf(),
    ensures
        i.secs * 1000 <= i.spec_millis() < (i.secs + 1) * 1000,
{
}

} // verus!
