use vstd::prelude::*;
use crate::history::HistoryRecord;
use crate::intelligence::IntelligenceResult;
use crate::ordering::{first_n, sort_by_stamp_desc, sort_desc, lemma_sort_map, Stamped};
use crate::text::str_eq;

verus! {

/// A notable moment in the history of observations.
#[derive(Clone, Debug)]
pub struct MemoryEvent {
    pub timestamp: u64,
    pub event_type: String,
    pub severity: String,
    pub summary: String,
}

/// The mathematical value of a [`MemoryEvent`].
pub struct MemoryEventView {
    pub timestamp: u64,
    pub event_type: Seq<char>,
    pub severity: Seq<char>,
    pub summary: Seq<char>,
}

impl View for MemoryEvent {
    type V = MemoryEventView;

    open spec fn view(&self) -> MemoryEventView {
        MemoryEventView {
            timestamp: self.timestamp,
            event_type: self.event_type@,
            severity: self.severity@,
            summary: self.summary@,
        }
    }
}

impl Stamped for MemoryEvent {
    open spec fn stamp_of(&self) -> u64 {
        self.timestamp
    }

    fn stamp(&self) -> (r: u64) {
        self.timestamp
    }
}

/// What the history says of the system: the current state, the dominant
/// pressure, and the notable moments, newest first.
#[derive(Clone, Debug)]
pub struct MemorySummary {
    pub observations: usize,
    pub events: Vec<MemoryEvent>,
    pub current_state: String,
    pub dominant_signal: String,
    pub recovery_detected: bool,
    pub recurring_issue: bool,
}

pub open spec fn event_views(s: Seq<MemoryEvent>) -> Seq<MemoryEventView> {
    s.map_values(|e: MemoryEvent| e@)
}

pub open spec fn moment(ts: u64, ty: Seq<char>, severity: Seq<char>, summary: Seq<char>) -> MemoryEventView {
    MemoryEventView { timestamp: ts, event_type: ty, severity, summary }
}

pub open spec fn when(b: bool, e: MemoryEventView) -> Seq<MemoryEventView> {
    if b { seq![e] } else { Seq::empty() }
}

/// The notable moments of one record, in the order anomaly, worsening trend,
/// improving trend, critical disk, critical memory, critical CPU.
pub open spec fn record_moments(r: HistoryRecord) -> Seq<MemoryEventView> {
    let i = r.intelligence;
    let t = r.timestamp;
    when(
        i.anomaly_detected,
        moment(t, "ANOMALY"@, i.status@, "Daemon detected a significant change in system behavior."@),
    ) + when(
        i.trend@ == "WORSENING"@,
        moment(t, "TREND_WORSENING"@, "WARNING"@, "System conditions are moving in a worsening direction."@),
    ) + when(
        i.trend@ == "IMPROVING"@,
        moment(t, "TREND_IMPROVING"@, "INFO"@, "System conditions are improving."@),
    ) + when(
        i.disk_status@ == "CRITICAL"@,
        moment(t, "DISK_PRESSURE"@, "CRITICAL"@, "Disk capacity reached a critical level."@),
    ) + when(
        i.memory_status@ == "CRITICAL"@,
        moment(t, "MEMORY_PRESSURE"@, "CRITICAL"@, "Memory utilization reached a critical level."@),
    ) + when(
        i.cpu_status@ == "CRITICAL"@,
        moment(t, "CPU_PRESSURE"@, "CRITICAL"@, "CPU utilization reached a critical level."@),
    )
}

/// The notable moments of the records, record after record.
pub open spec fn moments_of(rs: Seq<HistoryRecord>) -> Seq<MemoryEventView>
    decreases rs.len(),
{
    if rs.len() == 0 {
        Seq::empty()
    } else {
        moments_of(rs.drop_last()) + record_moments(rs.last())
    }
}

/// How many records the analysis looks at, newest first.
pub open spec fn window_size() -> nat {
    20
}

/// How many moments the summary keeps.
pub open spec fn moment_limit() -> nat {
    50
}

/// Whether the system recovered: the previous observation was bad (critical,
/// at risk or anomalous) and the current one has a higher score or an
/// improving trend.
pub open spec fn recovery_spec(records: Seq<HistoryRecord>) -> bool {
    records.len() >= 2 && {
        let current = records[0].intelligence;
        let previous = records[1].intelligence;
        let previous_bad = previous.status@ == "CRITICAL"@ || previous.status@ == "AT_RISK"@
            || previous.anomaly_detected;
        let current_better = current.health_score > previous.health_score || current.trend@
            == "IMPROVING"@;
        previous_bad && current_better
    }
}

/// Which resource status of an assessment.
pub enum Resource {
    Cpu,
    Memory,
    Disk,
}

pub open spec fn status_of(i: IntelligenceResult, r: Resource) -> Seq<char> {
    match r {
        Resource::Cpu => i.cpu_status@,
        Resource::Memory => i.memory_status@,
        Resource::Disk => i.disk_status@,
    }
}

/// How many of the records show the resource other than healthy.
pub open spec fn pressure_count(rs: Seq<HistoryRecord>, r: Resource) -> nat
    decreases rs.len(),
{
    if rs.len() == 0 {
        0
    } else {
        pressure_count(rs.drop_last(), r) + if status_of(rs.last().intelligence, r) != "HEALTHY"@ {
            1nat
        } else {
            0nat
        }
    }
}

/// Whether a resource pressure recurs: with at least four observations, one
/// resource is not healthy in at least three of the newest twenty.
pub open spec fn recurring_spec(records: Seq<HistoryRecord>) -> bool {
    let w = first_n(records, window_size());
    records.len() >= 4 && (pressure_count(w, Resource::Disk) >= 3 || pressure_count(
        w,
        Resource::Memory,
    ) >= 3 || pressure_count(w, Resource::Cpu) >= 3)
}

/// The dominant pressure of an assessment: the first critical resource in the
/// order disk, memory, CPU, else the first at warning in that order.
pub open spec fn dominant_spec(i: IntelligenceResult) -> Seq<char> {
    if i.disk_status@ == "CRITICAL"@ {
        "DISK"@
    } else if i.memory_status@ == "CRITICAL"@ {
        "MEMORY"@
    } else if i.cpu_status@ == "CRITICAL"@ {
        "CPU"@
    } else if i.disk_status@ == "WARNING"@ {
        "DISK"@
    } else if i.memory_status@ == "WARNING"@ {
        "MEMORY"@
    } else if i.cpu_status@ == "WARNING"@ {
        "CPU"@
    } else {
        "NONE"@
    }
}

/// Every moment found in a non-empty history, before ordering.
pub open spec fn collected_moments(records: Seq<HistoryRecord>) -> Seq<MemoryEventView> {
    let t = records[0].timestamp;
    moments_of(first_n(records, window_size())) + when(
        recovery_spec(records),
        moment(t, "RECOVERY"@, "INFO"@, "Daemon detected recovery toward a healthier system state."@),
    ) + when(
        recurring_spec(records),
        moment(
            t,
            "RECURRING_ISSUE"@,
            "WARNING"@,
            "Daemon detected a recurring resource pressure pattern in system history."@,
        ),
    )
}

/// The moments of a non-empty history: newest first, equal timestamps in
/// the order found, at most fifty.
pub open spec fn memory_moments(records: Seq<HistoryRecord>) -> Seq<MemoryEventView> {
    first_n(sort_desc(collected_moments(records), |v: MemoryEventView| v.timestamp), moment_limit())
}

fn moment_of(timestamp: u64, event_type: &str, severity: &str, summary: &str) -> (r: MemoryEvent)
    ensures
        r@ == moment(timestamp, event_type@, severity@, summary@),
{
    MemoryEvent {
        timestamp,
        event_type: event_type.to_owned(),
        severity: severity.to_owned(),
        summary: summary.to_owned(),
    }
}

fn push_when(events: &mut Vec<MemoryEvent>, b: bool, timestamp: u64, event_type: &str, severity: &str, summary: &str)
    ensures
        event_views(final(events)@) == event_views(old(events)@) + when(
            b,
            moment(timestamp, event_type@, severity@, summary@),
        ),
{
    let ghost before = events@;
    if b {
        events.push(moment_of(timestamp, event_type, severity, summary));
    }
    proof {
        assert(event_views(events@) =~= event_views(before) + when(
            b,
            moment(timestamp, event_type@, severity@, summary@),
        ));
    }
}

#[verifier::rlimit(50)]
fn push_record_moments(events: &mut Vec<MemoryEvent>, record: &HistoryRecord)
    ensures
        event_views(final(events)@) == event_views(old(events)@) + record_moments(*record),
{
    let ghost before = event_views(events@);
    let i = &record.intelligence;
    let t = record.timestamp;
    push_when(
        events,
        i.anomaly_detected,
        t,
        "ANOMALY",
        i.status.as_str(),
        "Daemon detected a significant change in system behavior.",
    );
    push_when(
        events,
        str_eq(i.trend.as_str(), "WORSENING"),
        t,
        "TREND_WORSENING",
        "WARNING",
        "System conditions are moving in a worsening direction.",
    );
    push_when(
        events,
        str_eq(i.trend.as_str(), "IMPROVING"),
        t,
        "TREND_IMPROVING",
        "INFO",
        "System conditions are improving.",
    );
    push_when(
        events,
        str_eq(i.disk_status.as_str(), "CRITICAL"),
        t,
        "DISK_PRESSURE",
        "CRITICAL",
        "Disk capacity reached a critical level.",
    );
    push_when(
        events,
        str_eq(i.memory_status.as_str(), "CRITICAL"),
        t,
        "MEMORY_PRESSURE",
        "CRITICAL",
        "Memory utilization reached a critical level.",
    );
    push_when(
        events,
        str_eq(i.cpu_status.as_str(), "CRITICAL"),
        t,
        "CPU_PRESSURE",
        "CRITICAL",
        "CPU utilization reached a critical level.",
    );
    proof {
        assert(event_views(events@) =~= before + record_moments(*record));
    }
}

fn dominant_signal(i: &IntelligenceResult) -> (r: String)
    ensures
        r@ == dominant_spec(*i),
{
    let s = if str_eq(i.disk_status.as_str(), "CRITICAL") {
        "DISK"
    } else if str_eq(i.memory_status.as_str(), "CRITICAL") {
        "MEMORY"
    } else if str_eq(i.cpu_status.as_str(), "CRITICAL") {
        "CPU"
    } else if str_eq(i.disk_status.as_str(), "WARNING") {
        "DISK"
    } else if str_eq(i.memory_status.as_str(), "WARNING") {
        "MEMORY"
    } else if str_eq(i.cpu_status.as_str(), "WARNING") {
        "CPU"
    } else {
        "NONE"
    };
    s.to_owned()
}

fn recovery(records: &[HistoryRecord]) -> (r: bool)
    ensures
        r == recovery_spec(records@),
{
    if records.len() >= 2 {
        let current = &records[0].intelligence;
        let previous = &records[1].intelligence;
        let previous_bad = str_eq(previous.status.as_str(), "CRITICAL") || str_eq(
            previous.status.as_str(),
            "AT_RISK",
        ) || previous.anomaly_detected;
        let current_better = current.health_score > previous.health_score || str_eq(
            current.trend.as_str(),
            "IMPROVING",
        );
        previous_bad && current_better
    } else {
        false
    }
}

fn window_len(n: usize) -> (r: usize)
    ensures
        r <= n,
        r == (if n <= 20 { n } else { 20 }),
{
    if n <= 20 { n } else { 20 }
}

proof fn lemma_pressure_bound(rs: Seq<HistoryRecord>, r: Resource)
    ensures
        pressure_count(rs, r) <= rs.len(),
    decreases rs.len(),
{
    if rs.len() > 0 {
        lemma_pressure_bound(rs.drop_last(), r);
    }
}

/// Builds the memory of the system from its history, newest record first.
pub struct MemoryEngine;

impl MemoryEngine {
    pub fn new() -> (r: Self)
        ensures
            r == MemoryEngine,
    {
        MemoryEngine
    }

    /// Summarizes a history given newest record first.
    pub fn analyze(&self, records: &[HistoryRecord]) -> (r: MemorySummary)
        ensures
            r.observations == records@.len(),
            records@.len() == 0 ==> {
                &&& event_views(r.events@) == Seq::<MemoryEventView>::empty()
                &&& r.current_state@ == "NO_HISTORY"@
                &&& r.dominant_signal@ == "NONE"@
                &&& !r.recovery_detected
                &&& !r.recurring_issue
            },
            records@.len() > 0 ==> {
                &&& event_views(r.events@) == memory_moments(records@)
                &&& r.current_state@ == records@[0].intelligence.status@
                &&& r.dominant_signal@ == dominant_spec(records@[0].intelligence)
                &&& r.recovery_detected == recovery_spec(records@)
                &&& r.recurring_issue == recurring_spec(records@)
            },
    {
        if records.len() == 0 {
            let events: Vec<MemoryEvent> = Vec::new();
            proof {
                assert(event_views(events@) =~= Seq::<MemoryEventView>::empty());
            }
            return MemorySummary {
                observations: 0,
                events,
                current_state: "NO_HISTORY".to_owned(),
                dominant_signal: "NONE".to_owned(),
                recovery_detected: false,
                recurring_issue: false,
            };
        }
        let current = &records[0];
        let current_state = current.intelligence.status.clone();
        let dominant_signal = dominant_signal(&current.intelligence);

        let ghost w = first_n(records@, window_size());
        let n = window_len(records.len());
        proof {
            assert(w.len() == n);
        }
        let mut events: Vec<MemoryEvent> = Vec::new();
        let mut i: usize = 0;
        proof {
            assert(w.take(0) =~= Seq::<HistoryRecord>::empty());
            assert(event_views(events@) =~= Seq::<MemoryEventView>::empty());
        }
        while i < n
            invariant
                n <= records@.len(),
                w == first_n(records@, window_size()),
                w.len() == n,
                i <= n,
                event_views(events@) == moments_of(w.take(i as int)),
            decreases n - i,
        {
            proof {
                assert(w.take(i + 1).drop_last() =~= w.take(i as int));
                assert(w[i as int] == records@[i as int]);
            }
            push_record_moments(&mut events, &records[i]);
            i = i + 1;
        }
        proof {
            assert(w.take(n as int) =~= w);
        }

        let recovery_detected = recovery(records);
        push_when(
            &mut events,
            recovery_detected,
            current.timestamp,
            "RECOVERY",
            "INFO",
            "Daemon detected recovery toward a healthier system state.",
        );

        let recurring_issue = self.detect_recurring_issue(records);
        push_when(
            &mut events,
            recurring_issue,
            current.timestamp,
            "RECURRING_ISSUE",
            "WARNING",
            "Daemon detected a recurring resource pressure pattern in system history.",
        );
        let ghost collected = events@;
        assert(event_views(collected) == collected_moments(records@));

        let mut events = sort_by_stamp_desc(events);
        proof {
            lemma_sort_map(
                collected,
                |x: MemoryEvent| x.stamp_of(),
                |e: MemoryEvent| e@,
                |v: MemoryEventView| v.timestamp,
            );
        }
        let ghost sorted = events@;
        events.truncate(50);
        proof {
            assert(event_views(events@) =~= first_n(event_views(sorted), moment_limit()));
        }

        MemorySummary {
            observations: records.len(),
            events,
            current_state,
            dominant_signal,
            recovery_detected,
            recurring_issue,
        }
    }

    fn detect_recurring_issue(&self, records: &[HistoryRecord]) -> (r: bool)
        ensures
            r == recurring_spec(records@),
    {
        if records.len() < 4 {
            return false;
        }
        let ghost w = first_n(records@, window_size());
        let n = window_len(records.len());
        proof {
            assert(w.len() == n);
        }
        let mut disk_events: usize = 0;
        let mut memory_events: usize = 0;
        let mut cpu_events: usize = 0;
        let mut i: usize = 0;
        while i < n
            invariant
                n <= records@.len(),
                w == first_n(records@, window_size()),
                w.len() == n,
                i <= n,
                disk_events == pressure_count(w.take(i as int), Resource::Disk),
                memory_events == pressure_count(w.take(i as int), Resource::Memory),
                cpu_events == pressure_count(w.take(i as int), Resource::Cpu),
            decreases n - i,
        {
            proof {
                assert(w.take(i + 1).drop_last() =~= w.take(i as int));
                assert(w[i as int] == records@[i as int]);
                lemma_pressure_bound(w.take(i as int), Resource::Disk);
                lemma_pressure_bound(w.take(i as int), Resource::Memory);
                lemma_pressure_bound(w.take(i as int), Resource::Cpu);
            }
            let record = &records[i];
            if !str_eq(record.intelligence.disk_status.as_str(), "HEALTHY") {
                disk_events += 1;
            }
            if !str_eq(record.intelligence.memory_status.as_str(), "HEALTHY") {
                memory_events += 1;
            }
            if !str_eq(record.intelligence.cpu_status.as_str(), "HEALTHY") {
                cpu_events += 1;
            }
            i = i + 1;
        }
        proof {
            assert(w.take(n as int) =~= w);
        }
        disk_events >= 3 || memory_events >= 3 || cpu_events >= 3
    }
}

/// The moments of a history come newest first and are at most fifty.
pub proof fn lemma_moments_newest_first(records: Seq<HistoryRecord>)
    requires
        records.len() > 0,
    ensures
        crate::ordering::is_desc(memory_moments(records), |v: MemoryEventView| v.timestamp),
        memory_moments(records).len() <= moment_limit(),
{
    let c = collected_moments(records);
    let key = |v: MemoryEventView| v.timestamp;
    crate::ordering::lemma_sort_desc_sorts(c, key);
}

/// Whether record `k` of `rs` shows the resource other than healthy.
spec fn strained(rs: Seq<HistoryRecord>, k: int, r: Resource) -> bool {
    status_of(rs[k].intelligence, r) != "HEALTHY"@
}

/// A strained record at `k` adds one to the count of the records before it.
proof fn lemma_count_past(rs: Seq<HistoryRecord>, k: int, r: Resource)
    requires
        0 <= k < rs.len(),
        strained(rs, k, r),
    ensures
        pressure_count(rs, r) >= pressure_count(rs.take(k), r) + 1,
    decreases rs.len(),
{
    if k == rs.len() - 1 {
        assert(rs.drop_last() =~= rs.take(k));
    } else {
        let d = rs.drop_last();
        assert(d[k] == rs[k]);
        lemma_count_past(d, k, r);
        assert(d.take(k) =~= rs.take(k));
    }
}

/// Three strained records give a count of at least three.
proof fn lemma_three_strained_count(rs: Seq<HistoryRecord>, i: int, j: int, k: int, r: Resource)
    requires
        0 <= i < j < k < rs.len(),
        strained(rs, i, r),
        strained(rs, j, r),
        strained(rs, k, r),
    ensures
        pressure_count(rs, r) >= 3,
{
    lemma_count_past(rs, k, r);
    let a = rs.take(k);
    assert(a[j] == rs[j]);
    lemma_count_past(a, j, r);
    let b = a.take(j);
    assert(b[i] == rs[i]);
    lemma_count_past(b, i, r);
}

/// A positive count has a strained record; a count of two, two of them; a
/// count of three, three of them.
proof fn lemma_count_witnesses(rs: Seq<HistoryRecord>, r: Resource)
    ensures
        pressure_count(rs, r) >= 1 ==> exists|i: int| 0 <= i < rs.len() && strained(rs, i, r),
        pressure_count(rs, r) >= 2 ==> exists|i: int, j: int|
            0 <= i < j < rs.len() && strained(rs, i, r) && strained(rs, j, r),
        pressure_count(rs, r) >= 3 ==> exists|i: int, j: int, k: int|
            0 <= i < j < k < rs.len() && strained(rs, i, r) && strained(rs, j, r) && strained(rs, k, r),
    decreases rs.len(),
{
    if rs.len() > 0 {
        let d = rs.drop_last();
        let last = rs.len() - 1;
        lemma_count_witnesses(d, r);
        assert(forall|x: int| 0 <= x < d.len() ==> #[trigger] d[x] == rs[x]);
        if strained(rs, last, r) {
            if pressure_count(d, r) >= 1 {
                let i0 = choose|i: int| 0 <= i < d.len() && strained(d, i, r);
                assert(strained(rs, i0, r));
            }
            if pressure_count(d, r) >= 2 {
                let (i0, j0) = choose|i: int, j: int|
                    0 <= i < j < d.len() && strained(d, i, r) && strained(d, j, r);
                assert(strained(rs, i0, r) && strained(rs, j0, r));
            }
        } else {
            if pressure_count(d, r) >= 1 {
                let i0 = choose|i: int| 0 <= i < d.len() && strained(d, i, r);
                assert(strained(rs, i0, r));
            }
            if pressure_count(d, r) >= 2 {
                let (i0, j0) = choose|i: int, j: int|
                    0 <= i < j < d.len() && strained(d, i, r) && strained(d, j, r);
                assert(strained(rs, i0, r) && strained(rs, j0, r));
            }
            if pressure_count(d, r) >= 3 {
                let (i0, j0, k0) = choose|i: int, j: int, k: int|
                    0 <= i < j < k < d.len() && strained(d, i, r) && strained(d, j, r) && strained(d, k, r);
                assert(strained(rs, i0, r) && strained(rs, j0, r) && strained(rs, k0, r));
            }
        }
    }
}

/// A count reaches three exactly when three records are strained.
proof fn lemma_count_three(rs: Seq<HistoryRecord>, r: Resource)
    ensures
        pressure_count(rs, r) >= 3 <==> exists|i: int, j: int, k: int|
            0 <= i < j < k < rs.len() && strained(rs, i, r) && strained(rs, j, r) && strained(rs, k, r),
{
    lemma_count_witnesses(rs, r);
    if exists|i: int, j: int, k: int|
        0 <= i < j < k < rs.len() && strained(rs, i, r) && strained(rs, j, r) && strained(rs, k, r) {
        let (i, j, k) = choose|i: int, j: int, k: int|
            0 <= i < j < k < rs.len() && strained(rs, i, r) && strained(rs, j, r) && strained(rs, k, r);
        lemma_three_strained_count(rs, i, j, k, r);
    }
}

/// Records `i`, `j` and `k`, in this order among the first `n`, all show
/// the resource other than healthy.
spec fn thrice_at(records: Seq<HistoryRecord>, n: int, i: int, j: int, k: int, r: Resource) -> bool {
    &&& 0 <= i < j < k < n
    &&& status_of(records[i].intelligence, r) != "HEALTHY"@
    &&& status_of(records[j].intelligence, r) != "HEALTHY"@
    &&& status_of(records[k].intelligence, r) != "HEALTHY"@
}

spec fn window_end(records: Seq<HistoryRecord>) -> int {
    if records.len() < 20 { records.len() as int } else { 20 }
}

proof fn lemma_window_thrice(records: Seq<HistoryRecord>, r: Resource)
    ensures
        pressure_count(first_n(records, window_size()), r) >= 3 <==> exists|i: int, j: int, k: int|
            thrice_at(records, window_end(records), i, j, k, r),
{
    let w = first_n(records, window_size());
    let n = window_end(records);
    assert(w.len() == n);
    assert(forall|x: int| 0 <= x < n ==> #[trigger] w[x] == records[x]);
    lemma_count_three(w, r);
    if pressure_count(w, r) >= 3 {
        let (i, j, k) = choose|i: int, j: int, k: int|
            0 <= i < j < k < w.len() && strained(w, i, r) && strained(w, j, r) && strained(w, k, r);
        assert(thrice_at(records, n, i, j, k, r));
    }
    if exists|i: int, j: int, k: int| thrice_at(records, n, i, j, k, r) {
        let (i, j, k) = choose|i: int, j: int, k: int| thrice_at(records, n, i, j, k, r);
        assert(strained(w, i, r) && strained(w, j, r) && strained(w, k, r));
    }
}

/// A recurring issue is one resource under pressure three times: it holds
/// exactly when there are at least four records and, among the newest
/// twenty, three distinct records show the disk not HEALTHY, or three show
/// memory not HEALTHY, or three show the CPU not HEALTHY. Pressure on
/// different resources is never added up, so a single record, whatever its
/// statuses, never makes an issue recur by itself.
pub proof fn lemma_recurring_means_one_resource_thrice(records: Seq<HistoryRecord>)
    ensures
        recurring_spec(records) <==> records.len() >= 4 && {
            let n = if records.len() < 20 { records.len() as int } else { 20 };
            ||| exists|i: int, j: int, k: int|
                0 <= i < j < k < n && records[i].intelligence.disk_status@ != "HEALTHY"@
                    && records[j].intelligence.disk_status@ != "HEALTHY"@
                    && records[k].intelligence.disk_status@ != "HEALTHY"@
            ||| exists|i: int, j: int, k: int|
                0 <= i < j < k < n && records[i].intelligence.memory_status@ != "HEALTHY"@
                    && records[j].intelligence.memory_status@ != "HEALTHY"@
                    && records[k].intelligence.memory_status@ != "HEALTHY"@
            ||| exists|i: int, j: int, k: int|
                0 <= i < j < k < n && records[i].intelligence.cpu_status@ != "HEALTHY"@
                    && records[j].intelligence.cpu_status@ != "HEALTHY"@
                    && records[k].intelligence.cpu_status@ != "HEALTHY"@
        },
{
    let n = window_end(records);
    lemma_window_thrice(records, Resource::Disk);
    lemma_window_thrice(records, Resource::Memory);
    lemma_window_thrice(records, Resource::Cpu);
    if exists|i: int, j: int, k: int|
        0 <= i < j < k < n && records[i].intelligence.disk_status@ != "HEALTHY"@
            && records[j].intelligence.disk_status@ != "HEALTHY"@
            && records[k].intelligence.disk_status@ != "HEALTHY"@ {
        let (i, j, k) = choose|i: int, j: int, k: int|
            0 <= i < j < k < n && records[i].intelligence.disk_status@ != "HEALTHY"@
                && records[j].intelligence.disk_status@ != "HEALTHY"@
                && records[k].intelligence.disk_status@ != "HEALTHY"@;
        assert(thrice_at(records, n, i, j, k, Resource::Disk));
    }
    if exists|i: int, j: int, k: int| thrice_at(records, n, i, j, k, Resource::Disk) {
        let (i, j, k) = choose|i: int, j: int, k: int| thrice_at(records, n, i, j, k, Resource::Disk);
        assert(records[i].intelligence.disk_status@ != "HEALTHY"@);
    }
    if exists|i: int, j: int, k: int|
        0 <= i < j < k < n && records[i].intelligence.memory_status@ != "HEALTHY"@
            && records[j].intelligence.memory_status@ != "HEALTHY"@
            && records[k].intelligence.memory_status@ != "HEALTHY"@ {
        let (i, j, k) = choose|i: int, j: int, k: int|
            0 <= i < j < k < n && records[i].intelligence.memory_status@ != "HEALTHY"@
                && records[j].intelligence.memory_status@ != "HEALTHY"@
                && records[k].intelligence.memory_status@ != "HEALTHY"@;
        assert(thrice_at(records, n, i, j, k, Resource::Memory));
    }
    if exists|i: int, j: int, k: int| thrice_at(records, n, i, j, k, Resource::Memory) {
        let (i, j, k) = choose|i: int, j: int, k: int| thrice_at(records, n, i, j, k, Resource::Memory);
        assert(records[i].intelligence.memory_status@ != "HEALTHY"@);
    }
    if exists|i: int, j: int, k: int|
        0 <= i < j < k < n && records[i].intelligence.cpu_status@ != "HEALTHY"@
            && records[j].intelligence.cpu_status@ != "HEALTHY"@
            && records[k].intelligence.cpu_status@ != "HEALTHY"@ {
        let (i, j, k) = choose|i: int, j: int, k: int|
            0 <= i < j < k < n && records[i].intelligence.cpu_status@ != "HEALTHY"@
                && records[j].intelligence.cpu_status@ != "HEALTHY"@
                && records[k].intelligence.cpu_status@ != "HEALTHY"@;
        assert(thrice_at(records, n, i, j, k, Resource::Cpu));
    }
    if exists|i: int, j: int, k: int| thrice_at(records, n, i, j, k, Resource::Cpu) {
        let (i, j, k) = choose|i: int, j: int, k: int| thrice_at(records, n, i, j, k, Resource::Cpu);
        assert(records[i].intelligence.cpu_status@ != "HEALTHY"@);
    }
}

} // verus!
