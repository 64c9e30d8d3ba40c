use vstd::prelude::*;
use crate::clock::unix_timestamp;

verus! {

/// Where an event stands in its lifecycle.
#[derive(Clone, Copy, Debug, PartialEq, Eq, Structural)]
pub enum EventStatus {
    Scheduled,
    Countdown,
    Started,
    Monitoring,
    ExpectedCompletion,
    Verified,
    Updated,
    Missed,
    Failed,
    Cancelled,
}

impl Default for EventStatus {
    fn default() -> (r: Self)
        ensures
            r == EventStatus::Scheduled,
    {
        EventStatus::Scheduled
    }
}

/// What produced an event.
#[derive(Clone, Copy, Debug, PartialEq, Eq, Structural)]
pub enum EventSource {
    User,
    System,
    Kubernetes,
    Cloud,
    CiCd,
    Security,
    Database,
    Network,
    Device,
    Integration,
}

/// An operational event that the daemon follows from its schedule to its
/// outcome.
///
/// `confidence_bits` holds the IEEE-754 bit pattern (`f32::to_bits`) of the
/// confidence score attached when the event is verified.
#[derive(Clone, Debug)]
pub struct DaemonEvent {
    pub id: String,
    pub name: String,
    pub description: String,
    pub source: EventSource,
    pub status: EventStatus,
    pub scheduled_at: Option<u64>,
    pub started_at: Option<u64>,
    pub expected_completion_at: Option<u64>,
    pub completed_at: Option<u64>,
    pub updated_at: u64,
    pub expected_duration_seconds: Option<u64>,
    pub monitoring_enabled: bool,
    pub signals_monitored: u32,
    pub abnormal_signals: u32,
    pub outcome: Option<String>,
    pub evidence: Vec<String>,
    pub confidence_bits: u32,
}

/// The mathematical value of a [`DaemonEvent`]: its texts as character
/// sequences.
pub struct EventView {
    pub id: Seq<char>,
    pub name: Seq<char>,
    pub description: Seq<char>,
    pub source: EventSource,
    pub status: EventStatus,
    pub scheduled_at: Option<u64>,
    pub started_at: Option<u64>,
    pub expected_completion_at: Option<u64>,
    pub completed_at: Option<u64>,
    pub updated_at: u64,
    pub expected_duration_seconds: Option<u64>,
    pub monitoring_enabled: bool,
    pub signals_monitored: u32,
    pub abnormal_signals: u32,
    pub outcome: Option<Seq<char>>,
    pub evidence: Seq<Seq<char>>,
    pub confidence_bits: u32,
}

pub open spec fn opt_text(s: Option<String>) -> Option<Seq<char>> {
    match s {
        Some(t) => Some(t@),
        None => None,
    }
}

pub open spec fn texts(v: Seq<String>) -> Seq<Seq<char>> {
    v.map_values(|s: String| s@)
}

/// The views of a list of events.
pub open spec fn views(s: Seq<DaemonEvent>) -> Seq<EventView> {
    s.map_values(|e: DaemonEvent| e@)
}

impl View for DaemonEvent {
    type V = EventView;

    open spec fn view(&self) -> EventView {
        EventView {
            id: self.id@,
            name: self.name@,
            description: self.description@,
            source: self.source,
            status: self.status,
            scheduled_at: self.scheduled_at,
            started_at: self.started_at,
            expected_completion_at: self.expected_completion_at,
            completed_at: self.completed_at,
            updated_at: self.updated_at,
            expected_duration_seconds: self.expected_duration_seconds,
            monitoring_enabled: self.monitoring_enabled,
            signals_monitored: self.signals_monitored,
            abnormal_signals: self.abnormal_signals,
            outcome: opt_text(self.outcome),
            evidence: texts(self.evidence@),
            confidence_bits: self.confidence_bits,
        }
    }
}

/// Whether a status closes the event for good, so that it is never overdue.
pub open spec fn is_settled(s: EventStatus) -> bool {
    s == EventStatus::Verified || s == EventStatus::Updated || s == EventStatus::Cancelled
        || s == EventStatus::Failed
}

/// The completion time that a schedule and a duration give, if both are known.
pub open spec fn completion_time(scheduled_at: Option<u64>, duration: Option<u64>) -> Option<u64> {
    match (scheduled_at, duration) {
        (Some(start), Some(d)) => Some(start.saturating_add(d)),
        _ => None,
    }
}

impl EventView {
    /// A newly created event, stamped at `now`.
    pub open spec fn created(
        id: Seq<char>,
        name: Seq<char>,
        source: EventSource,
        scheduled_at: Option<u64>,
        expected_duration_seconds: Option<u64>,
        now: u64,
    ) -> EventView {
        EventView {
            id,
            name,
            description: Seq::empty(),
            source,
            status: EventStatus::Scheduled,
            scheduled_at,
            started_at: None,
            expected_completion_at: completion_time(scheduled_at, expected_duration_seconds),
            completed_at: None,
            updated_at: now,
            expected_duration_seconds,
            monitoring_enabled: true,
            signals_monitored: 0,
            abnormal_signals: 0,
            outcome: None,
            evidence: Seq::empty(),
            confidence_bits: 0,
        }
    }

    /// The event with the given description.
    pub open spec fn described(self, description: Seq<char>) -> EventView {
        EventView { description, ..self }
    }

    /// The event started at `now`.
    pub open spec fn started(self, now: u64) -> EventView {
        EventView { started_at: Some(now), status: EventStatus::Started, updated_at: now, ..self }
    }

    /// The event monitored over `signals` signals from `now` on.
    pub open spec fn monitoring(self, signals: u32, now: u64) -> EventView {
        EventView {
            monitoring_enabled: true,
            signals_monitored: signals,
            status: EventStatus::Monitoring,
            updated_at: now,
            ..self
        }
    }

    /// The event that reached its expected completion at `now`.
    pub open spec fn expecting_completion(self, now: u64) -> EventView {
        EventView { status: EventStatus::ExpectedCompletion, updated_at: now, ..self }
    }

    /// The event verified at `now` with an outcome and a confidence.
    pub open spec fn verified(self, outcome: Seq<char>, confidence_bits: u32, now: u64) -> EventView {
        EventView {
            completed_at: Some(now),
            status: EventStatus::Verified,
            outcome: Some(outcome),
            confidence_bits,
            updated_at: now,
            ..self
        }
    }

    /// The event closed by an update message at `now`.
    pub open spec fn updated_with(self, message: Seq<char>, now: u64) -> EventView {
        EventView { status: EventStatus::Updated, outcome: Some(message), updated_at: now, ..self }
    }

    /// The event marked missed at `now`.
    pub open spec fn missed(self, now: u64) -> EventView {
        EventView { status: EventStatus::Missed, updated_at: now, ..self }
    }

    /// The event marked failed at `now` for a reason.
    pub open spec fn failed(self, reason: Seq<char>, now: u64) -> EventView {
        EventView { status: EventStatus::Failed, outcome: Some(reason), updated_at: now, ..self }
    }

    /// The event with one more piece of evidence, recorded at `now`.
    pub open spec fn with_evidence(self, evidence: Seq<char>, now: u64) -> EventView {
        EventView { evidence: self.evidence.push(evidence), updated_at: now, ..self }
    }

    /// The event with one more abnormal signal, counted at `now`.
    pub open spec fn with_abnormal_signal(self, now: u64) -> EventView {
        EventView {
            abnormal_signals: self.abnormal_signals.saturating_add(1),
            updated_at: now,
            ..self
        }
    }

    /// Whether the event has passed its expected completion at `now`
    /// without being completed or settled.
    pub open spec fn overdue(self, now: u64) -> bool {
        match self.expected_completion_at {
            Some(expected) => now > expected && self.completed_at is None && !is_settled(
                self.status,
            ),
            None => false,
        }
    }
}

impl DaemonEvent {
    /// Creates a scheduled event, stamped with the current time.
    pub fn new(
        id: String,
        name: String,
        source: EventSource,
        scheduled_at: Option<u64>,
        expected_duration_seconds: Option<u64>,
    ) -> (e: Self)
        ensures
            e@ == EventView::created(
                id@,
                name@,
                source,
                scheduled_at,
                expected_duration_seconds,
                e.updated_at,
            ),
    {
        let now = unix_timestamp();
        Self::new_at(id, name, source, scheduled_at, expected_duration_seconds, now)
    }

    /// Creates a scheduled event stamped at `now`.
    pub fn new_at(
        id: String,
        name: String,
        source: EventSource,
        scheduled_at: Option<u64>,
        expected_duration_seconds: Option<u64>,
        now: u64,
    ) -> (e: Self)
        ensures
            e@ == EventView::created(id@, name@, source, scheduled_at, expected_duration_seconds, now),
    {
        let expected_completion_at = match (scheduled_at, expected_duration_seconds) {
            (Some(start), Some(duration)) => Some(start.saturating_add(duration)),
            _ => None,
        };
        let e = DaemonEvent {
            id,
            name,
            description: String::new(),
            source,
            status: EventStatus::Scheduled,
            scheduled_at,
            started_at: None,
            expected_completion_at,
            completed_at: None,
            updated_at: now,
            expected_duration_seconds,
            monitoring_enabled: true,
            signals_monitored: 0,
            abnormal_signals: 0,
            outcome: None,
            evidence: Vec::new(),
            confidence_bits: 0,
        };
        proof {
            assert(texts(e.evidence@) =~= Seq::<Seq<char>>::empty());
        }
        e
    }

    /// Starts the event now.
    pub fn start(&mut self)
        ensures
            final(self)@ == old(self)@.started(final(self).updated_at),
    {
        let now = unix_timestamp();
        self.start_at(now);
    }

    /// Starts the event at `now`.
    pub fn start_at(&mut self, now: u64)
        ensures
            final(self)@ == old(self)@.started(now),
    {
        self.started_at = Some(now);
        self.status = EventStatus::Started;
        self.updated_at = now;
    }

    /// Puts the event under monitoring of `signals` signals, now.
    pub fn begin_monitoring(&mut self, signals: u32)
        ensures
            final(self)@ == old(self)@.monitoring(signals, final(self).updated_at),
    {
        let now = unix_timestamp();
        self.begin_monitoring_at(signals, now);
    }

    /// Puts the event under monitoring of `signals` signals at `now`.
    pub fn begin_monitoring_at(&mut self, signals: u32, now: u64)
        ensures
            final(self)@ == old(self)@.monitoring(signals, now),
    {
        self.monitoring_enabled = true;
        self.signals_monitored = signals;
        self.status = EventStatus::Monitoring;
        self.updated_at = now;
    }

    /// Records that the event reached its expected completion, now.
    pub fn mark_expected_completion(&mut self)
        ensures
            final(self)@ == old(self)@.expecting_completion(final(self).updated_at),
    {
        let now = unix_timestamp();
        self.mark_expected_completion_at(now);
    }

    /// Records that the event reached its expected completion at `now`.
    pub fn mark_expected_completion_at(&mut self, now: u64)
        ensures
            final(self)@ == old(self)@.expecting_completion(now),
    {
        self.status = EventStatus::ExpectedCompletion;
        self.updated_at = now;
    }

    /// Verifies the event now with an outcome and a confidence, given as the
    /// bit pattern of the `f32` score already brought into `[0, 1]`.
    pub fn verify(&mut self, outcome: String, confidence_bits: u32)
        ensures
            final(self)@ == old(self)@.verified(outcome@, confidence_bits, final(self).updated_at),
    {
        let now = unix_timestamp();
        self.verify_at(outcome, confidence_bits, now);
    }

    /// Verifies the event at `now` with an outcome and a confidence.
    pub fn verify_at(&mut self, outcome: String, confidence_bits: u32, now: u64)
        ensures
            final(self)@ == old(self)@.verified(outcome@, confidence_bits, now),
    {
        self.completed_at = Some(now);
        self.status = EventStatus::Verified;
        self.outcome = Some(outcome);
        self.confidence_bits = confidence_bits;
        self.updated_at = now;
    }

    /// Closes the event with an update message, now.
    pub fn update(&mut self, message: String)
        ensures
            final(self)@ == old(self)@.updated_with(message@, final(self).updated_at),
    {
        let now = unix_timestamp();
        self.update_at(message, now);
    }

    /// Closes the event with an update message at `now`.
    pub fn update_at(&mut self, message: String, now: u64)
        ensures
            final(self)@ == old(self)@.updated_with(message@, now),
    {
        self.status = EventStatus::Updated;
        self.outcome = Some(message);
        self.updated_at = now;
    }

    /// Marks the event missed, now.
    pub fn mark_missed(&mut self)
        ensures
            final(self)@ == old(self)@.missed(final(self).updated_at),
    {
        let now = unix_timestamp();
        self.mark_missed_at(now);
    }

    /// Marks the event missed at `now`.
    pub fn mark_missed_at(&mut self, now: u64)
        ensures
            final(self)@ == old(self)@.missed(now),
    {
        self.status = EventStatus::Missed;
        self.updated_at = now;
    }

    /// Marks the event failed for a reason, now.
    pub fn mark_failed(&mut self, reason: String)
        ensures
            final(self)@ == old(self)@.failed(reason@, final(self).updated_at),
    {
        let now = unix_timestamp();
        self.mark_failed_at(reason, now);
    }

    /// Marks the event failed for a reason at `now`.
    pub fn mark_failed_at(&mut self, reason: String, now: u64)
        ensures
            final(self)@ == old(self)@.failed(reason@, now),
    {
        self.status = EventStatus::Failed;
        self.outcome = Some(reason);
        self.updated_at = now;
    }

    /// Adds a piece of evidence, now.
    pub fn add_evidence(&mut self, evidence: String)
        ensures
            final(self)@ == old(self)@.with_evidence(evidence@, final(self).updated_at),
    {
        let now = unix_timestamp();
        self.add_evidence_at(evidence, now);
    }

    /// Adds a piece of evidence at `now`.
    pub fn add_evidence_at(&mut self, evidence: String, now: u64)
        ensures
            final(self)@ == old(self)@.with_evidence(evidence@, now),
    {
        let ghost before = self.evidence@;
        self.evidence.push(evidence);
        self.updated_at = now;
        proof {
            assert(texts(self.evidence@) =~= texts(before).push(evidence@));
        }
    }

    /// Counts one more abnormal signal, now.
    pub fn add_abnormal_signal(&mut self)
        ensures
            final(self)@ == old(self)@.with_abnormal_signal(final(self).updated_at),
    {
        let now = unix_timestamp();
        self.add_abnormal_signal_at(now);
    }

    /// Counts one more abnormal signal at `now`.
    pub fn add_abnormal_signal_at(&mut self, now: u64)
        ensures
            final(self)@ == old(self)@.with_abnormal_signal(now),
    {
        self.abnormal_signals = self.abnormal_signals.saturating_add(1);
        self.updated_at = now;
    }

    /// Whether the event is overdue at `now`.
    pub fn is_overdue(&self, now: u64) -> (r: bool)
        ensures
            r == self@.overdue(now),
    {
        match self.expected_completion_at {
            Some(expected) => {
                now > expected && self.completed_at.is_none() && !matches!(
                    self.status,
                    EventStatus::Verified | EventStatus::Updated | EventStatus::Cancelled
                        | EventStatus::Failed
                )
            },
            None => false,
        }
    }

    /// Seconds left until the expected completion (negative once it has
    /// passed), each timestamp read as an `i64`.
    pub fn expected_update_seconds_remaining(&self, now: u64) -> (r: Option<i64>)
        requires
            self.expected_completion_at matches Some(expected) ==> i64::MIN <= (expected as i64)
                - (now as i64) <= i64::MAX,
        ensures
            r == match self.expected_completion_at {
                Some(expected) => Some(((expected as i64) - (now as i64)) as i64),
                None => None,
            },
    {
        match self.expected_completion_at {
            Some(expected) => Some(expected as i64 - now as i64),
            None => None,
        }
    }
}

/// A verified, updated or failed event is never overdue afterwards, whatever
/// the time: closing an event ends its deadline.
pub proof fn lemma_closed_events_are_never_overdue(e: EventView, text: Seq<char>, confidence_bits: u32, t: u64, now: u64)
    ensures
        !e.verified(text, confidence_bits, t).overdue(now),
        !e.updated_with(text, t).overdue(now),
        !e.failed(text, t).overdue(now),
{
}

/// How many events stand in each group of statuses.
#[derive(Clone, Debug)]
pub struct EventSummary {
    pub total: usize,
    pub scheduled: usize,
    pub active: usize,
    pub completed: usize,
    pub missed: usize,
    pub failed: usize,
    pub abnormal: usize,
}

impl Default for EventSummary {
    fn default() -> (r: Self)
        ensures
            r.total == 0 && r.scheduled == 0 && r.active == 0 && r.completed == 0 && r.missed == 0
                && r.failed == 0 && r.abnormal == 0,
    {
        EventSummary {
            total: 0,
            scheduled: 0,
            active: 0,
            completed: 0,
            missed: 0,
            failed: 0,
            abnormal: 0,
        }
    }
}

/// Statuses counted as scheduled.
pub open spec fn counts_as_scheduled(e: DaemonEvent) -> bool {
    e.status == EventStatus::Scheduled || e.status == EventStatus::Countdown
}

/// Statuses counted as active.
pub open spec fn counts_as_active(e: DaemonEvent) -> bool {
    e.status == EventStatus::Started || e.status == EventStatus::Monitoring || e.status
        == EventStatus::ExpectedCompletion
}

/// Statuses counted as completed.
pub open spec fn counts_as_completed(e: DaemonEvent) -> bool {
    e.status == EventStatus::Verified || e.status == EventStatus::Updated
}

pub open spec fn counts_as_missed(e: DaemonEvent) -> bool {
    e.status == EventStatus::Missed
}

pub open spec fn counts_as_failed(e: DaemonEvent) -> bool {
    e.status == EventStatus::Failed
}

pub open spec fn counts_as_cancelled(e: DaemonEvent) -> bool {
    e.status == EventStatus::Cancelled
}

pub open spec fn counts_as_abnormal(e: DaemonEvent) -> bool {
    e.abnormal_signals > 0
}

/// The number of events of `s` that satisfy `p`.
pub open spec fn count_where(s: Seq<DaemonEvent>, p: spec_fn(DaemonEvent) -> bool) -> nat
    decreases s.len(),
{
    if s.len() == 0 {
        0
    } else {
        count_where(s.drop_last(), p) + if p(s.last()) { 1nat } else { 0nat }
    }
}

proof fn lemma_count_bound(s: Seq<DaemonEvent>, p: spec_fn(DaemonEvent) -> bool)
    ensures
        count_where(s, p) <= s.len(),
    decreases s.len(),
{
    if s.len() > 0 {
        lemma_count_bound(s.drop_last(), p);
    }
}

/// Counts the events in each group of statuses, and those that saw an
/// abnormal signal.
pub fn summarize(events: &[DaemonEvent]) -> (r: EventSummary)
    ensures
        r.total == events@.len(),
        r.scheduled == count_where(events@, |e| counts_as_scheduled(e)),
        r.active == count_where(events@, |e| counts_as_active(e)),
        r.completed == count_where(events@, |e| counts_as_completed(e)),
        r.missed == count_where(events@, |e| counts_as_missed(e)),
        r.failed == count_where(events@, |e| counts_as_failed(e)),
        r.abnormal == count_where(events@, |e| counts_as_abnormal(e)),
{
    let mut summary = EventSummary { total: events.len(), ..EventSummary::default() };
    let mut i: usize = 0;
    while i < events.len()
        invariant
            i <= events@.len(),
            summary.total == events@.len(),
            summary.scheduled == count_where(events@.take(i as int), |e| counts_as_scheduled(e)),
            summary.active == count_where(events@.take(i as int), |e| counts_as_active(e)),
            summary.completed == count_where(events@.take(i as int), |e| counts_as_completed(e)),
            summary.missed == count_where(events@.take(i as int), |e| counts_as_missed(e)),
            summary.failed == count_where(events@.take(i as int), |e| counts_as_failed(e)),
            summary.abnormal == count_where(events@.take(i as int), |e| counts_as_abnormal(e)),
        decreases events@.len() - i,
    {
        let ghost prefix = events@.take(i as int);
        let ghost next = events@.take(i + 1);
        proof {
            assert(next.drop_last() =~= prefix);
            assert(next.last() == events@[i as int]);
            lemma_count_bound(prefix, |e| counts_as_scheduled(e));
            lemma_count_bound(prefix, |e| counts_as_active(e));
            lemma_count_bound(prefix, |e| counts_as_completed(e));
            lemma_count_bound(prefix, |e| counts_as_missed(e));
            lemma_count_bound(prefix, |e| counts_as_failed(e));
            lemma_count_bound(prefix, |e| counts_as_abnormal(e));
        }
        let event = &events[i];
        match event.status {
            EventStatus::Scheduled | EventStatus::Countdown => {
                summary.scheduled += 1;
            },
            EventStatus::Started | EventStatus::Monitoring | EventStatus::ExpectedCompletion => {
                summary.active += 1;
            },
            EventStatus::Verified | EventStatus::Updated => {
                summary.completed += 1;
            },
            EventStatus::Missed => {
                summary.missed += 1;
            },
            EventStatus::Failed => {
                summary.failed += 1;
            },
            EventStatus::Cancelled => {},
        }
        if event.abnormal_signals > 0 {
            summary.abnormal += 1;
        }
        i = i + 1;
    }
    proof {
        assert(events@.take(events@.len() as int) =~= events@);
    }
    summary
}

/// Counts add up over a concatenation: the counts of `a + b` are those of
/// `a` plus those of `b`, so the summary of two lists joined is the sum of
/// their summaries (and that of no events is all zero).
pub proof fn lemma_counts_add_up(a: Seq<DaemonEvent>, b: Seq<DaemonEvent>, p: spec_fn(DaemonEvent) -> bool)
    ensures
        count_where(a + b, p) == count_where(a, p) + count_where(b, p),
        count_where(Seq::<DaemonEvent>::empty(), p) == 0,
    decreases b.len(),
{
    if b.len() == 0 {
        assert(a + b =~= a);
    } else {
        lemma_counts_add_up(a, b.drop_last(), p);
        assert((a + b).drop_last() =~= a + b.drop_last());
        assert((a + b).last() == b.last());
    }
}

proof fn lemma_count_remove(t: Seq<DaemonEvent>, i: int, p: spec_fn(DaemonEvent) -> bool)
    requires
        0 <= i < t.len(),
    ensures
        count_where(t, p) == count_where(t.remove(i), p) + if p(t[i]) { 1nat } else { 0nat },
{
    let front = t.take(i);
    let back = t.skip(i + 1);
    assert(t =~= front + seq![t[i]] + back);
    assert(t.remove(i) =~= front + back);
    lemma_counts_add_up(front + seq![t[i]], back, p);
    lemma_counts_add_up(front, seq![t[i]], p);
    lemma_counts_add_up(front, back, p);
    assert(seq![t[i]].drop_last() =~= Seq::<DaemonEvent>::empty());
}

/// Counts ignore the order of the events: two lists holding the same events
/// (one a permutation of the other) have the same counts, so the same
/// summary.
pub proof fn lemma_counts_ignore_order(s: Seq<DaemonEvent>, t: Seq<DaemonEvent>, p: spec_fn(DaemonEvent) -> bool)
    requires
        s.to_multiset() == t.to_multiset(),
    ensures
        count_where(s, p) == count_where(t, p),
    decreases s.len(),
{
    broadcast use vstd::seq_lib::group_to_multiset_ensures;
    if s.len() == 0 {
        assert(t.len() == t.to_multiset().len());
        assert(t.len() == 0);
    } else {
        let x = s.last();
        let rest = s.drop_last();
        assert(s =~= rest.push(x));
        assert(s.to_multiset() == rest.to_multiset().insert(x));
        assert(t.to_multiset().count(x) > 0);
        assert(t.contains(x));
        let i = choose|i: int| 0 <= i < t.len() && t[i] == x;
        let t2 = t.remove(i);
        assert(t2.to_multiset() == t.to_multiset().remove(x));
        assert(rest.to_multiset() =~= t2.to_multiset());
        lemma_counts_ignore_order(rest, t2, p);
        lemma_count_remove(t, i, p);
    }
}

/// Every event falls in exactly one group of the summary, or is cancelled:
/// the group counts and the cancelled events add up to the total.
pub proof fn lemma_summary_groups_partition(events: Seq<DaemonEvent>)
    ensures
        count_where(events, |e| counts_as_scheduled(e)) + count_where(events, |e| counts_as_active(e))
            + count_where(events, |e| counts_as_completed(e)) + count_where(
            events,
            |e| counts_as_missed(e),
        ) + count_where(events, |e| counts_as_failed(e)) + count_where(
            events,
            |e| counts_as_cancelled(e),
        ) == events.len(),
    decreases events.len(),
{
    if events.len() > 0 {
        lemma_summary_groups_partition(events.drop_last());
    }
}

/// Counting the events that satisfy `p` is taking the length of the events
/// filtered by `p`.
proof fn lemma_count_is_filter_len(s: Seq<DaemonEvent>, p: spec_fn(DaemonEvent) -> bool)
    ensures
        count_where(s, p) == s.filter(p).len(),
    decreases s.len(),
{
    reveal(Seq::filter);
    if s.len() > 0 {
        lemma_count_is_filter_len(s.drop_last(), p);
    }
}

/// The summary's groups, stated over the events themselves: scheduled counts
/// the Scheduled and Countdown events, active the Started, Monitoring and
/// ExpectedCompletion ones, completed the Verified and Updated ones, missed
/// and failed their own status, and abnormal every event with a nonzero
/// number of abnormal signals (one abnormal signal is enough).
pub proof fn lemma_summary_counts_filtered_events(events: Seq<DaemonEvent>)
    ensures
        count_where(events, |e| counts_as_scheduled(e)) == events.filter(
            |e: DaemonEvent| e.status == EventStatus::Scheduled || e.status == EventStatus::Countdown,
        ).len(),
        count_where(events, |e| counts_as_active(e)) == events.filter(
            |e: DaemonEvent|
                e.status == EventStatus::Started || e.status == EventStatus::Monitoring || e.status
                    == EventStatus::ExpectedCompletion,
        ).len(),
        count_where(events, |e| counts_as_completed(e)) == events.filter(
            |e: DaemonEvent| e.status == EventStatus::Verified || e.status == EventStatus::Updated,
        ).len(),
        count_where(events, |e| counts_as_missed(e)) == events.filter(
            |e: DaemonEvent| e.status == EventStatus::Missed,
        ).len(),
        count_where(events, |e| counts_as_failed(e)) == events.filter(
            |e: DaemonEvent| e.status == EventStatus::Failed,
        ).len(),
        count_where(events, |e| counts_as_abnormal(e)) == events.filter(
            |e: DaemonEvent| e.abnormal_signals != 0,
        ).len(),
{
    let p1 = |e| counts_as_scheduled(e);
    let q1 = |e: DaemonEvent| e.status == EventStatus::Scheduled || e.status == EventStatus::Countdown;
    assert(p1 =~= q1);
    lemma_count_is_filter_len(events, p1);
    let p2 = |e| counts_as_active(e);
    let q2 = |e: DaemonEvent|
        e.status == EventStatus::Started || e.status == EventStatus::Monitoring || e.status
            == EventStatus::ExpectedCompletion;
    assert(p2 =~= q2);
    lemma_count_is_filter_len(events, p2);
    let p3 = |e| counts_as_completed(e);
    let q3 = |e: DaemonEvent| e.status == EventStatus::Verified || e.status == EventStatus::Updated;
    assert(p3 =~= q3);
    lemma_count_is_filter_len(events, p3);
    let p4 = |e| counts_as_missed(e);
    let q4 = |e: DaemonEvent| e.status == EventStatus::Missed;
    assert(p4 =~= q4);
    lemma_count_is_filter_len(events, p4);
    let p5 = |e| counts_as_failed(e);
    let q5 = |e: DaemonEvent| e.status == EventStatus::Failed;
    assert(p5 =~= q5);
    lemma_count_is_filter_len(events, p5);
    let p6 = |e| counts_as_abnormal(e);
    let q6 = |e: DaemonEvent| e.abnormal_signals != 0;
    assert(p6 =~= q6);
    lemma_count_is_filter_len(events, p6);
}

} // verus!
