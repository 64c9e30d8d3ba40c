use vstd::prelude::*;
use crate::intelligence::IntelligenceResult;
use crate::telemetry::SystemSnapshot;
use crate::ordering::{first_n, newest_first};

verus! {

/// One persisted observation: when it was taken, what was measured and how
/// it was assessed.
#[derive(Clone, Debug)]
pub struct HistoryRecord {
    pub timestamp: u64,
    pub telemetry: SystemSnapshot,
    pub intelligence: IntelligenceResult,
}

/// The location of the history of observations, one JSON record per line.
pub struct HistoryStore {
    path: String,
}

impl HistoryStore {
    pub fn new(path: &str) -> (r: Self)
        ensures
            r.path_view() == path@,
    {
        HistoryStore { path: path.to_owned() }
    }

    pub closed spec fn path_view(&self) -> Seq<char> {
        self.path@
    }

    /// Where the history is kept.
    pub fn path(&self) -> (r: &str)
        ensures
            r@ == self.path_view(),
    {
        self.path.as_str()
    }

    /// The newest `limit` records of a history read oldest first, newest
    /// first.
    pub fn recent_records(records: Vec<HistoryRecord>, limit: usize) -> (r: Vec<HistoryRecord>)
        ensures
            r@ == first_n(records@.reverse(), limit as nat),
    {
        newest_first(records, limit)
    }
}

/// When the history was last written, for spacing the writes by an interval.
pub struct HistoryTimer {
    pub last_write: u64,
}

impl HistoryTimer {
    /// A timer that never wrote.
    pub fn new() -> (r: Self)
        ensures
            r.last_write == 0,
    {
        HistoryTimer { last_write: 0 }
    }

    /// Whether at least `interval` seconds passed since the last write, at
    /// `now` (no time passed when `now` stands before the last write).
    pub open spec fn due(&self, interval: u64, now: u64) -> bool {
        now.saturating_sub(self.last_write) >= interval
    }

    /// Whether a write is due at `now`.
    pub fn is_due(&self, interval: u64, now: u64) -> (r: bool)
        ensures
            r == self.due(interval, now),
    {
        now.saturating_sub(self.last_write) >= interval
    }

    /// Records a write at `now`.
    pub fn record_write(&mut self, now: u64)
        ensures
            final(self).last_write == now,
    {
        self.last_write = now;
    }

    /// Takes the turn to write at `now`: when history is enabled and a write
    /// is due, records the write and returns true; otherwise changes nothing.
    pub fn claim(&mut self, history_enabled: bool, interval: u64, now: u64) -> (r: bool)
        ensures
            r == (history_enabled && old(self).due(interval, now)),
            final(self).last_write == (if r { now } else { old(self).last_write }),
    {
        if !history_enabled {
            false
        } else if self.is_due(interval, now) {
            self.record_write(now);
            true
        } else {
            false
        }
    }
}

/// Writes are spaced: right after a write at `now`, no other write is due
/// until `interval` seconds have passed (for a positive interval).
pub proof fn lemma_writes_are_spaced(timer: HistoryTimer, interval: u64, now: u64, later: u64)
    requires
        timer.last_write == now,
        interval > 0,
        later < now + interval,
    ensures
        !timer.due(interval, later),
{
}

} // verus!
