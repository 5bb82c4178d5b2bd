//! When the cached rate document is fresh enough to be used as it is.

use vstd::prelude::*;

verus! {

/// Nanoseconds in one second.
pub const NANOS_PER_SEC: u64 = 1_000_000_000;

/// How long, in seconds, a fetched rate document stays fresh.
pub const FRESH_FOR_SECS: u64 = 3600;

/// A point in time, as seconds and nanoseconds since the Unix epoch.
#[derive(Clone, Copy, Debug, PartialEq, Eq)]
pub struct Timestamp {
    pub secs: u64,
    pub nanos: u32,
}

impl Timestamp {
    /// The point in time, in nanoseconds since the epoch.
    pub open spec fn total_nanos(self) -> int {
        self.secs * NANOS_PER_SEC + self.nanos
    }

    pub fn new(secs: u64, nanos: u32) -> (r: Timestamp)
        ensures
            r.secs == secs,
            r.nanos == nanos,
    {
        Timestamp { secs, nanos }
    }

    fn as_nanos(&self) -> (r: u128)
        ensures
            r == self.total_nanos(),
    {
        assert(self.secs * NANOS_PER_SEC <= u64::MAX * NANOS_PER_SEC) by (nonlinear_arith);
        self.secs as u128 * NANOS_PER_SEC as u128 + self.nanos as u128
    }
}

/// The freshness window, in nanoseconds.
pub open spec fn fresh_window() -> int {
    FRESH_FOR_SECS * NANOS_PER_SEC
}

/// Whether the document must be fetched again: there is no modification time,
/// it lies after `now`, or it lies a whole freshness window or more before `now`.
pub open spec fn refresh_needed(modified: Option<Timestamp>, now: Timestamp) -> bool {
    match modified {
        None => true,
        Some(m) => now.total_nanos() < m.total_nanos() || now.total_nanos() - m.total_nanos()
            >= fresh_window(),
    }
}

/// Decides whether to fetch the rate document again, given the cache file's
/// modification time (`None` where it could not be read) and the time now.
pub fn needs_refresh(modified: Option<Timestamp>, now: Timestamp) -> (r: bool)
    ensures
        r == refresh_needed(modified, now),
{
    match modified {
        None => true,
        Some(m) => {
            let m_ns = m.as_nanos();
            let now_ns = now.as_nanos();
            if now_ns < m_ns {
                true
            } else {
                assert(FRESH_FOR_SECS * NANOS_PER_SEC == 3_600_000_000_000);
                now_ns - m_ns >= FRESH_FOR_SECS as u128 * NANOS_PER_SEC as u128
            }
        },
    }
}

/// A document last modified a whole freshness window or more before `now` is
/// fetched again; one modified less than that before `now` is not.
pub proof fn lemma_staleness_boundary(modified: Timestamp, now: Timestamp)
    requires
        modified.total_nanos() <= now.total_nanos(),
    ensures
        refresh_needed(Some(modified), now) <==> now.total_nanos() - modified.total_nanos()
            >= FRESH_FOR_SECS * NANOS_PER_SEC,
        now.total_nanos() - modified.total_nanos() == FRESH_FOR_SECS * NANOS_PER_SEC
            ==> refresh_needed(Some(modified), now),
        now.total_nanos() - modified.total_nanos() < FRESH_FOR_SECS * NANOS_PER_SEC
            ==> !refresh_needed(Some(modified), now),
{
}

/// Once the document has been written, a second run at any time within the
/// freshness window after the write does not fetch it again.
pub proof fn lemma_no_refetch_within_window(written: Timestamp, first: Timestamp, second: Timestamp)
    requires
        first.total_nanos() <= written.total_nanos(),
        written.total_nanos() <= second.total_nanos(),
        second.total_nanos() < first.total_nanos() + fresh_window(),
    ensures
        !refresh_needed(Some(written), second),
{
}

} // verus!
