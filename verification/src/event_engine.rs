use vstd::prelude::*;
use crate::events::{views, DaemonEvent, EventStatus, EventView};

verus! {

/// Evaluates persisted events and advances their lifecycle based on real time.
pub struct EventEngine;

/// How close to its scheduled time, in seconds, an event enters its countdown.
pub open spec fn countdown_window() -> u64 {
    300
}

/// Whether an event waits for its scheduled time: scheduled, or counting
/// down to it.
pub open spec fn is_waiting(s: EventStatus) -> bool {
    s == EventStatus::Scheduled || s == EventStatus::Countdown
}

/// Whether the schedule step changes the event at `now`.
pub open spec fn schedule_step_fires(e: EventView, now: u64) -> bool {
    is_waiting(e.status) && match e.scheduled_at {
        Some(s) => now >= s || (e.status == EventStatus::Scheduled && s - now <= countdown_window()),
        None => false,
    }
}

/// The schedule step: a waiting event (scheduled or counting down) whose
/// time has come starts (at the clock reading `clock`); a scheduled one
/// within the countdown window enters its countdown, stamped at `now`.
pub open spec fn schedule_step(e: EventView, now: u64, clock: u64) -> EventView {
    if is_waiting(e.status) {
        match e.scheduled_at {
            Some(s) => if now >= s {
                e.started(clock)
            } else if e.status == EventStatus::Scheduled && s - now <= countdown_window() {
                EventView { status: EventStatus::Countdown, updated_at: now, ..e }
            } else {
                e
            },
            None => e,
        }
    } else {
        e
    }
}

/// Whether the monitoring step changes the event.
pub open spec fn monitoring_step_fires(e: EventView) -> bool {
    e.status == EventStatus::Started && e.monitoring_enabled && e.signals_monitored == 0
}

/// The monitoring step: a started event with monitoring enabled and no
/// signal monitored yet goes under monitoring of zero signals.
pub open spec fn monitoring_step(e: EventView, clock: u64) -> EventView {
    if monitoring_step_fires(e) {
        e.monitoring(0, clock)
    } else {
        e
    }
}

/// Whether the completion step changes the event at `now`.
pub open spec fn completion_step_fires(e: EventView, now: u64) -> bool {
    (e.status == EventStatus::Started || e.status == EventStatus::Monitoring) && match e.expected_completion_at {
        Some(x) => now >= x,
        None => false,
    }
}

/// The completion step: a running event whose expected completion has come
/// reaches its expected completion.
pub open spec fn completion_step(e: EventView, now: u64, clock: u64) -> EventView {
    if completion_step_fires(e, now) {
        e.expecting_completion(clock)
    } else {
        e
    }
}

/// Statuses that the overdue step leaves alone.
pub open spec fn is_final(s: EventStatus) -> bool {
    s == EventStatus::Missed || s == EventStatus::Verified || s == EventStatus::Updated || s
        == EventStatus::Failed || s == EventStatus::Cancelled
}

/// Whether the overdue step changes the event at `now`.
pub open spec fn overdue_step_fires(e: EventView, now: u64) -> bool {
    e.overdue(now) && !is_final(e.status)
}

/// The overdue step: an overdue event that is not in a final status is missed.
pub open spec fn overdue_step(e: EventView, now: u64, clock: u64) -> EventView {
    if overdue_step_fires(e, now) {
        e.missed(clock)
    } else {
        e
    }
}

/// The clock readings of one evaluation, one for each step that may read it.
pub struct Clocks {
    pub start: u64,
    pub monitoring: u64,
    pub completion: u64,
    pub missed: u64,
}

/// The event after one evaluation at `now`, the steps reading the clock as `c` gives.
pub open spec fn evaluated(e: EventView, now: u64, c: Clocks) -> EventView {
    let e1 = schedule_step(e, now, c.start);
    let e2 = monitoring_step(e1, c.monitoring);
    let e3 = completion_step(e2, now, c.completion);
    overdue_step(e3, now, c.missed)
}

/// Whether one evaluation at `now` changes the event, the steps reading the
/// clock as `c` gives.
pub open spec fn evaluation_fires(e: EventView, now: u64, c: Clocks) -> bool {
    let e1 = schedule_step(e, now, c.start);
    let e2 = monitoring_step(e1, c.monitoring);
    let e3 = completion_step(e2, now, c.completion);
    schedule_step_fires(e, now) || monitoring_step_fires(e1) || completion_step_fires(e2, now)
        || overdue_step_fires(e3, now)
}

/// Clock readings that are all zero.
pub open spec fn zero_clocks() -> Clocks {
    Clocks { start: 0, monitoring: 0, completion: 0, missed: 0 }
}

/// Whether `after` is `before` once evaluated at `now`, for some clock readings.
pub open spec fn evaluates_to(before: EventView, after: EventView, now: u64) -> bool {
    exists|c: Clocks| after == evaluated(before, now, c)
}

/// Whether evaluating the event at `now` changes it.  The answer does not
/// depend on the clock (see `lemma_changes_ignore_clock`).
pub open spec fn evaluation_changes(e: EventView, now: u64) -> bool {
    evaluation_fires(e, now, zero_clocks())
}

/// Whether a step fires does not depend on the clock readings.
pub proof fn lemma_changes_ignore_clock(e: EventView, now: u64, c: Clocks)
    ensures
        evaluation_fires(e, now, c) == evaluation_changes(e, now),
{
}

/// The number of events of `s` that an evaluation at `now` changes.
pub open spec fn changed_count(s: Seq<EventView>, now: u64) -> nat
    decreases s.len(),
{
    if s.len() == 0 {
        0
    } else {
        changed_count(s.drop_last(), now) + if evaluation_changes(s.last(), now) {
            1nat
        } else {
            0nat
        }
    }
}

proof fn lemma_changed_count_bound(s: Seq<EventView>, now: u64)
    ensures
        changed_count(s, now) <= s.len(),
    decreases s.len(),
{
    if s.len() > 0 {
        lemma_changed_count_bound(s.drop_last(), now);
    }
}

impl EventEngine {
    pub fn new() -> (r: Self)
        ensures
            r == EventEngine,
    {
        EventEngine
    }

    /// Evaluates one event against the current Unix timestamp `now`.
    /// Returns true when the event was changed.
    pub fn evaluate(&self, event: &mut DaemonEvent, now: u64) -> (changed: bool)
        ensures
            evaluates_to(old(event)@, final(event)@, now),
            changed == evaluation_changes(old(event)@, now),
    {
        let ghost e0 = event@;
        let ghost mut c = zero_clocks();
        let mut changed = false;

        if matches!(event.status, EventStatus::Scheduled | EventStatus::Countdown) {
            if let Some(scheduled) = event.scheduled_at {
                if now >= scheduled {
                    event.start();
                    proof {
                        c.start = event.updated_at;
                    }
                    changed = true;
                } else if matches!(event.status, EventStatus::Scheduled) && scheduled.saturating_sub(now)
                    <= 300 {
                    event.status = EventStatus::Countdown;
                    event.updated_at = now;
                    changed = true;
                }
            }
        }
        let ghost e1 = event@;
        assert(e1 == schedule_step(e0, now, c.start));

        if matches!(event.status, EventStatus::Started) && event.monitoring_enabled
            && event.signals_monitored == 0 {
            event.begin_monitoring(0);
            proof {
                c.monitoring = event.updated_at;
            }
            changed = true;
        }
        let ghost e2 = event@;
        assert(e2 == monitoring_step(e1, c.monitoring));

        if matches!(event.status, EventStatus::Started | EventStatus::Monitoring) {
            if let Some(expected) = event.expected_completion_at {
                if now >= expected {
                    event.mark_expected_completion();
                    proof {
                        c.completion = event.updated_at;
                    }
                    changed = true;
                }
            }
        }
        let ghost e3 = event@;
        assert(e3 == completion_step(e2, now, c.completion));

        if event.is_overdue(now) && !matches!(
            event.status,
            EventStatus::Missed | EventStatus::Verified | EventStatus::Updated | EventStatus::Failed
                | EventStatus::Cancelled
        ) {
            event.mark_missed();
            proof {
                c.missed = event.updated_at;
            }
            changed = true;
        }
        assert(event@ == evaluated(e0, now, c));
        assert(evaluates_to(e0, event@, now));
        proof {
            lemma_changes_ignore_clock(e0, now, c);
        }
        changed
    }

    /// Evaluates all events and returns the number that changed.
    pub fn evaluate_all(&self, events: &mut [DaemonEvent], now: u64) -> (count: usize)
        ensures
            final(events)@.len() == old(events)@.len(),
            forall|i: int|
                0 <= i < old(events)@.len() ==> evaluates_to(
                    #[trigger] old(events)@[i]@,
                    final(events)@[i]@,
                    now,
                ),
            count == changed_count(views(old(events)@), now),
    {
        let ghost before = views(events@);
        let mut changed: usize = 0;
        let mut i: usize = 0;
        while i < events.len()
            invariant
                i <= events@.len(),
                events@.len() == before.len(),
                before == views(old(events)@),
                forall|k: int| 0 <= k < i ==> evaluates_to(#[trigger] before[k], events@[k]@, now),
                forall|k: int| i <= k < events@.len() ==> #[trigger] events@[k]@ == before[k],
                changed == changed_count(before.take(i as int), now),
            decreases events@.len() - i,
        {
            proof {
                assert(before.take(i + 1).drop_last() =~= before.take(i as int));
                lemma_changed_count_bound(before.take(i as int), now);
            }
            if self.evaluate(&mut events[i], now) {
                changed += 1;
            }
            i = i + 1;
        }
        proof {
            assert(before.take(before.len() as int) =~= before);
            assert forall|k: int| 0 <= k < old(events)@.len() implies evaluates_to(
                #[trigger] old(events)@[k]@,
                events@[k]@,
                now,
            ) by {
                assert(before[k] == old(events)@[k]@);
            }
        }
        changed
    }
}

impl Default for EventEngine {
    fn default() -> (r: Self)
        ensures
            r == EventEngine,
    {
        Self::new()
    }
}

/// Evaluation settles: evaluating an event a second time at the same `now`
/// changes nothing, whatever the clock reads.
pub proof fn lemma_evaluation_is_idempotent(e: EventView, now: u64, c: Clocks, d: Clocks)
    ensures
        !evaluation_changes(evaluated(e, now, c), now),
        evaluated(evaluated(e, now, c), now, d) == evaluated(e, now, c),
{
    let e1 = schedule_step(e, now, c.start);
    let e2 = monitoring_step(e1, c.monitoring);
    let e3 = completion_step(e2, now, c.completion);
    let e4 = overdue_step(e3, now, c.missed);
    // The schedule step leaves the event scheduled only when it does not fire.
    assert(!schedule_step_fires(e4, now));
    assert(!monitoring_step_fires(e4));
    assert(!completion_step_fires(e4, now));
    assert(!overdue_step_fires(e4, now));
}

/// The result of an evaluation says whether the event changed: an
/// evaluation that changes the event moves it to another status, and one
/// that does not leaves the event exactly as it was.
pub proof fn lemma_result_reports_change(e: EventView, now: u64, c: Clocks)
    ensures
        evaluation_changes(e, now) <==> evaluated(e, now, c).status != e.status,
        !evaluation_changes(e, now) ==> evaluated(e, now, c) == e,
{
}

/// An event in a final status (missed, verified, updated, failed or
/// cancelled) is never changed by an evaluation.
pub proof fn lemma_final_events_are_stable(e: EventView, now: u64, c: Clocks)
    requires
        is_final(e.status),
    ensures
        !evaluation_changes(e, now),
        evaluated(e, now, c) == e,
{
}

} // verus!
