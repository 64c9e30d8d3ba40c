use vstd::prelude::*;
use crate::events::{texts, DaemonEvent, EventSource, EventStatus, EventView};
use crate::telemetry::SystemSnapshot;
use crate::text::{decimal_spec, push_decimal, starts_with, starts_with_spec, strip_repeated, strip_repeated_spec};

verus! {

/// The resource that a signal is about.
#[derive(Clone, Copy, Debug, PartialEq, Eq, Structural)]
pub enum Condition {
    Cpu,
    Memory,
    Disk,
}

/// A condition that the agent reports as an event.
#[derive(Clone, Copy, Debug, PartialEq, Eq, Structural)]
pub enum AgentSignal {
    /// At the first observation, the disk is already at least 90% full.
    DiskAlreadyHigh,
    /// At the first observation, the CPU is already at least 80% busy.
    CpuAlreadyHigh,
    /// At the first observation, memory is already at least 80% used.
    MemoryAlreadyHigh,
    /// The CPU crossed 80% since the previous observation.
    CpuSpike,
    /// Memory crossed 80% since the previous observation.
    MemorySpike,
    /// The disk crossed 90% since the previous observation.
    DiskCrossed,
    /// The CPU rose by more than 15 points since the previous observation.
    CpuJump,
}

/// The CPU comparisons of an observation, made on the floating-point
/// readings: the usage is at least 80%; the previous usage was below 80%;
/// the usage exceeds the previous one by more than 15 points.
#[derive(Clone, Copy, Debug)]
pub struct CpuFacts {
    pub high: bool,
    pub previous_below: bool,
    pub jumped: bool,
}

/// The figures of an observation written with one decimal: the CPU usage,
/// the previous CPU usage, their difference, and the memory and disk use in
/// percent of their totals.
#[derive(Clone, Debug)]
pub struct ObservationTexts {
    pub cpu: String,
    pub previous_cpu: String,
    pub cpu_delta: String,
    pub memory_percent: String,
    pub disk_percent: String,
}

/// Whether `used` reaches `percent` percent of `total`, in the integer
/// arithmetic of the agent (the product saturates, the quotient rounds down).
pub open spec fn reaches(used: u64, total: u64, percent: u64) -> bool {
    let product = if total * percent > u64::MAX { u64::MAX as int } else { total * percent };
    used >= product / 100
}

fn reaches_percent(used: u64, total: u64, percent: u64) -> (r: bool)
    requires
        percent > 0,
    ensures
        r == reaches(used, total, percent),
{
    let product = match total.checked_mul(percent) {
        Some(p) => p,
        None => u64::MAX,
    };
    used >= product / 100
}

/// The signals of an observation, in the order the agent reports them.
pub open spec fn detected_signals(snapshot: SystemSnapshot, previous: Option<SystemSnapshot>, cpu: CpuFacts) -> Seq<AgentSignal> {
    match previous {
        None => signal_if(reaches(snapshot.disk_used, snapshot.disk_total, 90), AgentSignal::DiskAlreadyHigh)
            + signal_if(cpu.high, AgentSignal::CpuAlreadyHigh) + signal_if(
            reaches(snapshot.memory_used, snapshot.memory_total, 80),
            AgentSignal::MemoryAlreadyHigh,
        ),
        Some(p) => signal_if(cpu.high && cpu.previous_below, AgentSignal::CpuSpike) + signal_if(
            reaches(snapshot.memory_used, snapshot.memory_total, 80) && !reaches(
                p.memory_used,
                p.memory_total,
                80,
            ),
            AgentSignal::MemorySpike,
        ) + signal_if(
            reaches(snapshot.disk_used, snapshot.disk_total, 90) && !reaches(p.disk_used, p.disk_total, 90),
            AgentSignal::DiskCrossed,
        ) + signal_if(cpu.jumped, AgentSignal::CpuJump),
    }
}

pub open spec fn signal_if(b: bool, s: AgentSignal) -> Seq<AgentSignal> {
    if b { seq![s] } else { Seq::empty() }
}

impl AgentSignal {
    pub open spec fn name(self) -> Seq<char> {
        match self {
            AgentSignal::DiskAlreadyHigh => "Disk capacity warning"@,
            AgentSignal::CpuAlreadyHigh => "CPU utilization warning"@,
            AgentSignal::MemoryAlreadyHigh => "Memory utilization warning"@,
            AgentSignal::CpuSpike => "CPU utilization spike"@,
            AgentSignal::MemorySpike => "Memory utilization spike"@,
            AgentSignal::DiskCrossed => "Disk capacity warning"@,
            AgentSignal::CpuJump => "Significant CPU change"@,
        }
    }

    /// The name in lower case with hyphens for spaces, as ids carry it.
    pub open spec fn slug(self) -> Seq<char> {
        match self {
            AgentSignal::DiskAlreadyHigh => "disk-capacity-warning"@,
            AgentSignal::CpuAlreadyHigh => "cpu-utilization-warning"@,
            AgentSignal::MemoryAlreadyHigh => "memory-utilization-warning"@,
            AgentSignal::CpuSpike => "cpu-utilization-spike"@,
            AgentSignal::MemorySpike => "memory-utilization-spike"@,
            AgentSignal::DiskCrossed => "disk-capacity-warning"@,
            AgentSignal::CpuJump => "significant-cpu-change"@,
        }
    }

    /// The resource that the name mentions.
    pub open spec fn condition(self) -> Condition {
        match self {
            AgentSignal::DiskAlreadyHigh | AgentSignal::DiskCrossed => Condition::Disk,
            AgentSignal::MemoryAlreadyHigh | AgentSignal::MemorySpike => Condition::Memory,
            _ => Condition::Cpu,
        }
    }

    /// The bit pattern of the `f32` confidence: 0.96 for the disk, 0.92 for
    /// CPU warnings and spikes, 0.90 for memory, 0.86 for a CPU jump.
    pub open spec fn confidence_bits(self) -> u32 {
        match self {
            AgentSignal::DiskAlreadyHigh | AgentSignal::DiskCrossed => 0x3f75_c28fu32,
            AgentSignal::CpuAlreadyHigh | AgentSignal::CpuSpike => 0x3f6b_851fu32,
            AgentSignal::MemoryAlreadyHigh | AgentSignal::MemorySpike => 0x3f66_6666u32,
            AgentSignal::CpuJump => 0x3f5c_28f6u32,
        }
    }

    /// The description of the signal, before the investigation.
    pub open spec fn description(self, t: ObservationTexts) -> Seq<char> {
        match self {
            AgentSignal::DiskAlreadyHigh => "Disk utilization is already above 90% at "@ + t.disk_percent@ + "%."@,
            AgentSignal::CpuAlreadyHigh => "CPU utilization is already elevated at "@ + t.cpu@ + "%."@,
            AgentSignal::MemoryAlreadyHigh => "Memory utilization is already above 80% at "@ + t.memory_percent@
                + "%."@,
            AgentSignal::CpuSpike => "CPU crossed 80%: "@ + t.previous_cpu@ + "% -> "@ + t.cpu@ + "%"@,
            AgentSignal::MemorySpike => "Memory crossed the 80% utilization threshold."@,
            AgentSignal::DiskCrossed => "Disk utilization crossed the 90% threshold."@,
            AgentSignal::CpuJump => "CPU increased by "@ + t.cpu_delta@ + " percentage points."@,
        }
    }
}

/// The evidence gathered for a condition: the top processes for CPU and
/// memory, the disk signal for the disk.
pub open spec fn condition_evidence(c: Condition, process_evidence: Seq<Seq<char>>) -> Seq<Seq<char>> {
    match c {
        Condition::Disk => seq!["signal=disk-capacity"@, "source=live-telemetry"@],
        _ => process_evidence,
    }
}

/// The first item of the evidence naming a process.
pub open spec fn first_process(evidence: Seq<Seq<char>>) -> Option<Seq<char>>
    decreases evidence.len(),
{
    if evidence.len() == 0 {
        None
    } else if starts_with_spec(evidence[0], "process="@) {
        Some(evidence[0])
    } else {
        first_process(evidence.drop_first())
    }
}

/// The findings drawn from the evidence: the first process for CPU and
/// memory, the disk being dominant for the disk.
pub open spec fn findings(c: Condition, evidence: Seq<Seq<char>>) -> Seq<Seq<char>> {
    match c {
        Condition::Disk => seq!["investigation=disk-capacity-is-the-dominant-signal"@],
        _ => match first_process(evidence) {
            Some(p) => seq!["investigation="@ + p],
            None => Seq::empty(),
        },
    }
}

/// The evidence with which an event of the condition is created.
pub open spec fn initial_evidence(c: Condition, process_evidence: Seq<Seq<char>>) -> Seq<Seq<char>> {
    let e = seq!["daemon-agent"@, "live-telemetry"@] + condition_evidence(c, process_evidence);
    e + findings(c, e)
}

/// The explanation of the investigation of a condition.
pub open spec fn explanation(c: Condition, evidence: Seq<Seq<char>>, has_previous: bool, t: ObservationTexts) -> Seq<char> {
    match c {
        Condition::Cpu => {
            let process = match first_process(evidence) {
                Some(p) => strip_repeated_spec(p, "process="@),
                None => "unknown process"@,
            };
            if has_previous {
                "CPU pressure is primarily associated with "@ + process + "; CPU changed by "@ + t.cpu_delta@
                    + " percentage points"@
            } else {
                "CPU pressure is primarily associated with "@ + process
                    + "; no previous CPU baseline available"@
            }
        },
        Condition::Memory => "memory pressure detected from live system telemetry"@,
        Condition::Disk => "disk capacity is the dominant system constraint"@,
    }
}

/// The recommendation for a condition.
pub open spec fn recommendation(c: Condition) -> Seq<char> {
    match c {
        Condition::Cpu => "Review the identified high-CPU process and determine whether it should be closed, restarted, or throttled"@,
        Condition::Memory => "Review the highest-memory processes and reclaim unnecessary memory pressure"@,
        Condition::Disk => "Free disk capacity by removing unnecessary files or expanding available storage"@,
    }
}

/// The event that the agent reports for a signal observed at `now`.
pub open spec fn agent_event(
    s: AgentSignal,
    now: u64,
    t: ObservationTexts,
    process_evidence: Seq<Seq<char>>,
    has_previous: bool,
) -> EventView {
    let c = s.condition();
    let evidence = initial_evidence(c, process_evidence);
    let why = explanation(c, evidence, has_previous, t);
    let advice = recommendation(c);
    EventView {
        id: "agent-"@ + decimal_spec(now as nat) + "-"@ + s.slug(),
        name: s.name(),
        description: s.description(t) + " Investigation: "@ + why + " Recommendation: "@ + advice,
        source: EventSource::System,
        status: EventStatus::Monitoring,
        scheduled_at: None,
        started_at: Some(now),
        expected_completion_at: None,
        completed_at: None,
        updated_at: now,
        expected_duration_seconds: None,
        monitoring_enabled: true,
        signals_monitored: 1,
        abnormal_signals: 1,
        outcome: None,
        evidence: evidence.push("cause="@ + why).push("recommendation="@ + advice),
        confidence_bits: s.confidence_bits(),
    }
}

fn signal_name(s: AgentSignal) -> (r: String)
    ensures
        r@ == s.name(),
{
    match s {
        AgentSignal::DiskAlreadyHigh => "Disk capacity warning".to_owned(),
        AgentSignal::CpuAlreadyHigh => "CPU utilization warning".to_owned(),
        AgentSignal::MemoryAlreadyHigh => "Memory utilization warning".to_owned(),
        AgentSignal::CpuSpike => "CPU utilization spike".to_owned(),
        AgentSignal::MemorySpike => "Memory utilization spike".to_owned(),
        AgentSignal::DiskCrossed => "Disk capacity warning".to_owned(),
        AgentSignal::CpuJump => "Significant CPU change".to_owned(),
    }
}

fn signal_id(s: AgentSignal, now: u64) -> (r: String)
    ensures
        r@ == "agent-"@ + decimal_spec(now as nat) + "-"@ + s.slug(),
{
    let mut id = "agent-".to_owned();
    push_decimal(&mut id, now);
    id.append("-");
    let slug = match s {
        AgentSignal::DiskAlreadyHigh => "disk-capacity-warning",
        AgentSignal::CpuAlreadyHigh => "cpu-utilization-warning",
        AgentSignal::MemoryAlreadyHigh => "memory-utilization-warning",
        AgentSignal::CpuSpike => "cpu-utilization-spike",
        AgentSignal::MemorySpike => "memory-utilization-spike",
        AgentSignal::DiskCrossed => "disk-capacity-warning",
        AgentSignal::CpuJump => "significant-cpu-change",
    };
    id.append(slug);
    id
}

fn signal_condition(s: AgentSignal) -> (r: Condition)
    ensures
        r == s.condition(),
{
    match s {
        AgentSignal::DiskAlreadyHigh | AgentSignal::DiskCrossed => Condition::Disk,
        AgentSignal::MemoryAlreadyHigh | AgentSignal::MemorySpike => Condition::Memory,
        _ => Condition::Cpu,
    }
}

fn signal_confidence(s: AgentSignal) -> (r: u32)
    ensures
        r == s.confidence_bits(),
{
    match s {
        AgentSignal::DiskAlreadyHigh | AgentSignal::DiskCrossed => 0x3f75_c28fu32,
        AgentSignal::CpuAlreadyHigh | AgentSignal::CpuSpike => 0x3f6b_851fu32,
        AgentSignal::MemoryAlreadyHigh | AgentSignal::MemorySpike => 0x3f66_6666u32,
        AgentSignal::CpuJump => 0x3f5c_28f6u32,
    }
}

fn signal_description(s: AgentSignal, t: &ObservationTexts) -> (r: String)
    ensures
        r@ == s.description(*t),
{
    match s {
        AgentSignal::DiskAlreadyHigh => {
            let mut d = "Disk utilization is already above 90% at ".to_owned();
            d.append(t.disk_percent.as_str());
            d.append("%.");
            d
        },
        AgentSignal::CpuAlreadyHigh => {
            let mut d = "CPU utilization is already elevated at ".to_owned();
            d.append(t.cpu.as_str());
            d.append("%.");
            d
        },
        AgentSignal::MemoryAlreadyHigh => {
            let mut d = "Memory utilization is already above 80% at ".to_owned();
            d.append(t.memory_percent.as_str());
            d.append("%.");
            d
        },
        AgentSignal::CpuSpike => {
            let mut d = "CPU crossed 80%: ".to_owned();
            d.append(t.previous_cpu.as_str());
            d.append("% -> ");
            d.append(t.cpu.as_str());
            d.append("%");
            d
        },
        AgentSignal::MemorySpike => "Memory crossed the 80% utilization threshold.".to_owned(),
        AgentSignal::DiskCrossed => "Disk utilization crossed the 90% threshold.".to_owned(),
        AgentSignal::CpuJump => {
            let mut d = "CPU increased by ".to_owned();
            d.append(t.cpu_delta.as_str());
            d.append(" percentage points.");
            d
        },
    }
}

/// The position of the first item naming a process, or the length.
fn find_process(evidence: &Vec<String>) -> (r: usize)
    ensures
        r <= evidence@.len(),
        r < evidence@.len() ==> first_process(texts(evidence@)) == Some(evidence@[r as int]@),
        r == evidence@.len() ==> first_process(texts(evidence@)) is None,
{
    let ghost all = texts(evidence@);
    let mut i: usize = 0;
    proof {
        assert(all.subrange(0, all.len() as int) =~= all);
    }
    while i < evidence.len() && !starts_with(evidence[i].as_str(), "process=")
        invariant
            i <= evidence@.len(),
            all == texts(evidence@),
            first_process(all) == first_process(all.subrange(i as int, all.len() as int)),
        decreases evidence@.len() - i,
    {
        proof {
            let rest = all.subrange(i as int, all.len() as int);
            assert(rest[0] == evidence@[i as int]@);
            assert(rest.drop_first() =~= all.subrange(i + 1, all.len() as int));
        }
        i = i + 1;
    }
    proof {
        let rest = all.subrange(i as int, all.len() as int);
        if i < evidence@.len() {
            assert(rest[0] == evidence@[i as int]@);
        }
    }
    i
}

fn base_evidence(c: Condition, process_evidence: &Vec<String>) -> (r: Vec<String>)
    ensures
        texts(r@) == initial_evidence(c, texts(process_evidence@)),
{
    let mut e: Vec<String> = Vec::new();
    e.push("daemon-agent".to_owned());
    e.push("live-telemetry".to_owned());
    match c {
        Condition::Disk => {
            e.push("signal=disk-capacity".to_owned());
            e.push("source=live-telemetry".to_owned());
        },
        _ => {
            let mut i: usize = 0;
            let ghost start = e@;
            while i < process_evidence.len()
                invariant
                    i <= process_evidence@.len(),
                    e@ == start + process_evidence@.take(i as int),
                decreases process_evidence@.len() - i,
            {
                e.push(process_evidence[i].clone());
                proof {
                    assert(process_evidence@.take(i + 1) =~= process_evidence@.take(i as int).push(
                        process_evidence@[i as int],
                    ));
                }
                i = i + 1;
            }
            proof {
                assert(process_evidence@.take(i as int) =~= process_evidence@);
            }
        },
    }
    let ghost gathered = texts(e@);
    proof {
        assert(gathered =~= seq!["daemon-agent"@, "live-telemetry"@] + condition_evidence(
            c,
            texts(process_evidence@),
        ));
    }
    match c {
        Condition::Disk => {
            e.push("investigation=disk-capacity-is-the-dominant-signal".to_owned());
        },
        _ => {
            let p = find_process(&e);
            if p < e.len() {
                let mut finding = "investigation=".to_owned();
                finding.append(e[p].as_str());
                e.push(finding);
            }
        },
    }
    proof {
        assert(texts(e@) =~= gathered + findings(c, gathered));
    }
    e
}

fn explain(c: Condition, evidence: &Vec<String>, has_previous: bool, t: &ObservationTexts) -> (r: String)
    ensures
        r@ == explanation(c, texts(evidence@), has_previous, *t),
{
    match c {
        Condition::Cpu => {
            let p = find_process(evidence);
            let mut why = "CPU pressure is primarily associated with ".to_owned();
            if p < evidence.len() {
                why.append(strip_repeated(evidence[p].as_str(), "process="));
            } else {
                why.append("unknown process");
            }
            if has_previous {
                why.append("; CPU changed by ");
                why.append(t.cpu_delta.as_str());
                why.append(" percentage points");
            } else {
                why.append("; no previous CPU baseline available");
            }
            why
        },
        Condition::Memory => "memory pressure detected from live system telemetry".to_owned(),
        Condition::Disk => "disk capacity is the dominant system constraint".to_owned(),
    }
}

fn advise(c: Condition) -> (r: &'static str)
    ensures
        r@ == recommendation(c),
{
    match c {
        Condition::Cpu => "Review the identified high-CPU process and determine whether it should be closed, restarted, or throttled",
        Condition::Memory => "Review the highest-memory processes and reclaim unnecessary memory pressure",
        Condition::Disk => "Free disk capacity by removing unnecessary files or expanding available storage",
    }
}

/// Builds the event of a signal observed at `now`, with its evidence, the
/// investigation of its condition and the recommendation.
pub fn signal_event(
    s: AgentSignal,
    now: u64,
    t: &ObservationTexts,
    process_evidence: &Vec<String>,
    has_previous: bool,
) -> (e: DaemonEvent)
    ensures
        e@ == agent_event(s, now, *t, texts(process_evidence@), has_previous),
{
    let c = signal_condition(s);
    let mut evidence = base_evidence(c, process_evidence);
    let ghost initial = texts(evidence@);
    let why = explain(c, &evidence, has_previous, t);
    let advice = advise(c);

    let mut cause = "cause=".to_owned();
    cause.append(why.as_str());
    evidence.push(cause);
    let mut rec = "recommendation=".to_owned();
    rec.append(advice);
    evidence.push(rec);

    let mut description = signal_description(s, t);
    description.append(" Investigation: ");
    description.append(why.as_str());
    description.append(" Recommendation: ");
    description.append(advice);

    let e = DaemonEvent {
        id: signal_id(s, now),
        name: signal_name(s),
        description,
        source: EventSource::System,
        status: EventStatus::Monitoring,
        scheduled_at: None,
        started_at: Some(now),
        expected_completion_at: None,
        completed_at: None,
        updated_at: now,
        expected_duration_seconds: None,
        monitoring_enabled: true,
        signals_monitored: 1,
        abnormal_signals: 1,
        outcome: None,
        evidence,
        confidence_bits: signal_confidence(s),
    };
    proof {
        assert(texts(e.evidence@) =~= initial.push("cause="@ + why@).push(
            "recommendation="@ + recommendation(c),
        ));
    }
    e
}

/// The agent's memory between two observations.
pub struct DaemonAgent {
    previous: Option<SystemSnapshot>,
}

impl DaemonAgent {
    pub fn new() -> (r: Self)
        ensures
            r.previous_snapshot() is None,
    {
        DaemonAgent { previous: None }
    }

    /// The snapshot of the previous observation.
    pub closed spec fn previous_snapshot(&self) -> Option<SystemSnapshot> {
        self.previous
    }

    /// The snapshot of the previous observation.
    pub fn previous(&self) -> (r: Option<SystemSnapshot>)
        ensures
            r == self.previous_snapshot(),
    {
        self.previous
    }

    /// The signals of an observation against the previous one.
    pub fn detect(&self, snapshot: &SystemSnapshot, cpu: CpuFacts) -> (r: Vec<AgentSignal>)
        ensures
            r@ == detected_signals(*snapshot, self.previous_snapshot(), cpu),
    {
        let mut signals: Vec<AgentSignal> = Vec::new();
        let disk_high = reaches_percent(snapshot.disk_used, snapshot.disk_total, 90);
        let memory_high = reaches_percent(snapshot.memory_used, snapshot.memory_total, 80);
        match &self.previous {
            None => {
                if disk_high {
                    signals.push(AgentSignal::DiskAlreadyHigh);
                }
                if cpu.high {
                    signals.push(AgentSignal::CpuAlreadyHigh);
                }
                if memory_high {
                    signals.push(AgentSignal::MemoryAlreadyHigh);
                }
            },
            Some(previous) => {
                if cpu.high && cpu.previous_below {
                    signals.push(AgentSignal::CpuSpike);
                }
                if memory_high && !reaches_percent(previous.memory_used, previous.memory_total, 80) {
                    signals.push(AgentSignal::MemorySpike);
                }
                if disk_high && !reaches_percent(previous.disk_used, previous.disk_total, 90) {
                    signals.push(AgentSignal::DiskCrossed);
                }
                if cpu.jumped {
                    signals.push(AgentSignal::CpuJump);
                }
            },
        }
        proof {
            assert(signals@ =~= detected_signals(*snapshot, self.previous_snapshot(), cpu));
        }
        signals
    }

    /// Observes a snapshot taken at `now`: reports an event for each signal,
    /// then remembers the snapshot for the next observation.
    pub fn observe(
        &mut self,
        snapshot: SystemSnapshot,
        now: u64,
        cpu: CpuFacts,
        texts_of: &ObservationTexts,
        process_evidence: &Vec<String>,
    ) -> (events: Vec<DaemonEvent>)
        ensures
            crate::events::views(events@) == detected_signals(snapshot, old(self).previous_snapshot(), cpu).map_values(
                |s: AgentSignal|
                    agent_event(
                        s,
                        now,
                        *texts_of,
                        texts(process_evidence@),
                        old(self).previous_snapshot() is Some,
                    ),
            ),
            final(self).previous_snapshot() == Some(snapshot),
    {
        let signals = self.detect(&snapshot, cpu);
        let has_previous = self.previous.is_some();
        let ghost f = |s: AgentSignal|
            agent_event(s, now, *texts_of, texts(process_evidence@), has_previous);
        assert(forall|s: AgentSignal| #[trigger] f(s) == agent_event(s, now, *texts_of, texts(process_evidence@), has_previous));
        let mut events: Vec<DaemonEvent> = Vec::new();
        let mut i: usize = 0;
        proof {
            assert(crate::events::views(events@) =~= signals@.take(0).map_values(f));
        }
        while i < signals.len()
            invariant
                i <= signals@.len(),
                crate::events::views(events@) == signals@.take(i as int).map_values(f),
                forall|s: AgentSignal| #[trigger] f(s) == agent_event(s, now, *texts_of, texts(process_evidence@), has_previous),
            decreases signals@.len() - i,
        {
            let e = signal_event(signals[i], now, texts_of, process_evidence, has_previous);
            let ghost before = events@;
            events.push(e);
            proof {
                assert(f(signals@[i as int]) == e@);
                assert(crate::events::views(events@) =~= crate::events::views(before).push(e@));
                assert(crate::events::views(events@) =~= signals@.take(i + 1).map_values(f));
            }
            i = i + 1;
        }
        proof {
            assert(signals@.take(signals@.len() as int) =~= signals@);
        }
        self.previous = Some(snapshot);
        events
    }
}

/// Where a signal stands in the order the agent reports signals.
pub open spec fn report_rank(s: AgentSignal) -> int {
    match s {
        AgentSignal::DiskAlreadyHigh => 0,
        AgentSignal::CpuAlreadyHigh => 1,
        AgentSignal::MemoryAlreadyHigh => 2,
        AgentSignal::CpuSpike => 3,
        AgentSignal::MemorySpike => 4,
        AgentSignal::DiskCrossed => 5,
        AgentSignal::CpuJump => 6,
    }
}

/// `s` lists signals in report order, each at most once.
pub open spec fn in_report_order(s: Seq<AgentSignal>) -> bool {
    forall|i: int, j: int| 0 <= i < j < s.len() ==> report_rank(s[i]) < report_rank(s[j])
}

proof fn lemma_signal_if_facts(b: bool, s: AgentSignal)
    ensures
        forall|x: AgentSignal| #[trigger] signal_if(b, s).contains(x) == (b && x == s),
        in_report_order(signal_if(b, s)),
        forall|k: int| 0 <= k < signal_if(b, s).len() ==> #[trigger] signal_if(b, s)[k] == s,
{
    if b {
        assert(signal_if(b, s)[0] == s);
    }
}

/// Joining two lists in report order, the first ranked below the second.
proof fn lemma_join(a: Seq<AgentSignal>, b: Seq<AgentSignal>)
    requires
        in_report_order(a),
        in_report_order(b),
        forall|i: int, j: int|
            0 <= i < a.len() && 0 <= j < b.len() ==> report_rank(#[trigger] a[i]) < report_rank(#[trigger] b[j]),
    ensures
        in_report_order(a + b),
        forall|x: AgentSignal| #[trigger] (a + b).contains(x) == (a.contains(x) || b.contains(x)),
{
    let r = a + b;
    assert forall|x: AgentSignal| #[trigger] r.contains(x) == (a.contains(x) || b.contains(x)) by {
        if r.contains(x) {
            let k = choose|k: int| 0 <= k < r.len() && r[k] == x;
            if k < a.len() {
                assert(a[k] == x);
            } else {
                assert(b[k - a.len()] == x);
            }
        }
        if a.contains(x) {
            let k = choose|k: int| 0 <= k < a.len() && a[k] == x;
            assert(r[k] == x);
        }
        if b.contains(x) {
            let k = choose|k: int| 0 <= k < b.len() && b[k] == x;
            assert(r[k + a.len()] == x);
        }
    }
    assert forall|i: int, j: int| 0 <= i < j < r.len() implies report_rank(r[i]) < report_rank(r[j]) by {
        if j < a.len() {
        } else if i < a.len() {
            assert(r[j] == b[j - a.len()]);
        } else {
            assert(r[i] == b[i - a.len()]);
            assert(r[j] == b[j - a.len()]);
        }
    }
}

/// `used` is at least `percent` percent of `total`, the product saturating
/// at `u64::MAX` and the quotient rounded down.
pub open spec fn at_least_percent(used: u64, total: u64, percent: int) -> bool {
    used >= (if total * percent <= u64::MAX { total * percent } else { u64::MAX as int }) / 100
}

/// What the agent reports at each observation. At the first one (no
/// previous snapshot) only the conditions already present: the disk at 90%,
/// the CPU at 80%, memory at 80%. Afterwards only crossings and jumps: a CPU
/// spike exactly when the CPU is high now and was below 80% before (a CPU
/// that stays high never yields a spike), a memory spike exactly when memory
/// reaches 80% now and did not before, a disk warning exactly when the disk
/// reaches 90% now and did not before, a CPU jump exactly when the CPU rose
/// by more than 15 points. Each signal comes at most once, in a fixed order.
pub proof fn lemma_signals_are_crossings(snapshot: SystemSnapshot, previous: Option<SystemSnapshot>, cpu: CpuFacts)
    ensures
        ({
            let r = detected_signals(snapshot, previous, cpu);
            let disk_now = at_least_percent(snapshot.disk_used, snapshot.disk_total, 90);
            let memory_now = at_least_percent(snapshot.memory_used, snapshot.memory_total, 80);
            &&& forall|i: int, j: int| 0 <= i < j < r.len() ==> report_rank(r[i]) < report_rank(r[j])
            &&& previous is None ==> {
                &&& r.contains(AgentSignal::DiskAlreadyHigh) == disk_now
                &&& r.contains(AgentSignal::CpuAlreadyHigh) == cpu.high
                &&& r.contains(AgentSignal::MemoryAlreadyHigh) == memory_now
                &&& !r.contains(AgentSignal::CpuSpike)
                &&& !r.contains(AgentSignal::MemorySpike)
                &&& !r.contains(AgentSignal::DiskCrossed)
                &&& !r.contains(AgentSignal::CpuJump)
            }
            &&& previous matches Some(p) ==> {
                &&& !r.contains(AgentSignal::DiskAlreadyHigh)
                &&& !r.contains(AgentSignal::CpuAlreadyHigh)
                &&& !r.contains(AgentSignal::MemoryAlreadyHigh)
                &&& r.contains(AgentSignal::CpuSpike) == (cpu.high && cpu.previous_below)
                &&& r.contains(AgentSignal::MemorySpike) == (memory_now && !at_least_percent(
                    p.memory_used,
                    p.memory_total,
                    80,
                ))
                &&& r.contains(AgentSignal::DiskCrossed) == (disk_now && !at_least_percent(
                    p.disk_used,
                    p.disk_total,
                    90,
                ))
                &&& r.contains(AgentSignal::CpuJump) == cpu.jumped
            }
        }),
{
    let d90 = reaches(snapshot.disk_used, snapshot.disk_total, 90);
    let m80 = reaches(snapshot.memory_used, snapshot.memory_total, 80);
    match previous {
        None => {
            let a = signal_if(d90, AgentSignal::DiskAlreadyHigh);
            let b = signal_if(cpu.high, AgentSignal::CpuAlreadyHigh);
            let c = signal_if(m80, AgentSignal::MemoryAlreadyHigh);
            lemma_signal_if_facts(d90, AgentSignal::DiskAlreadyHigh);
            lemma_signal_if_facts(cpu.high, AgentSignal::CpuAlreadyHigh);
            lemma_signal_if_facts(m80, AgentSignal::MemoryAlreadyHigh);
            lemma_join(a, b);
            lemma_join(a + b, c);
        },
        Some(p) => {
            let spike = cpu.high && cpu.previous_below;
            let mem = m80 && !reaches(p.memory_used, p.memory_total, 80);
            let disk = d90 && !reaches(p.disk_used, p.disk_total, 90);
            let a = signal_if(spike, AgentSignal::CpuSpike);
            let b = signal_if(mem, AgentSignal::MemorySpike);
            let c = signal_if(disk, AgentSignal::DiskCrossed);
            let d = signal_if(cpu.jumped, AgentSignal::CpuJump);
            lemma_signal_if_facts(spike, AgentSignal::CpuSpike);
            lemma_signal_if_facts(mem, AgentSignal::MemorySpike);
            lemma_signal_if_facts(disk, AgentSignal::DiskCrossed);
            lemma_signal_if_facts(cpu.jumped, AgentSignal::CpuJump);
            lemma_join(a, b);
            lemma_join(a + b, c);
            lemma_join(a + b + c, d);
        },
    }
}

} // verus!
