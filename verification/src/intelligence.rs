use vstd::prelude::*;
use crate::events::texts;
use crate::text::str_eq;

pub mod bloom;

verus! {

/// Outcome of a threat check.
#[derive(Clone, Debug)]
pub struct ThreatResult {
    pub detected: bool,
    pub severity: String,
}

/// The assessment of a health report, with the recommendations that follow
/// from it and the trend since the previous observation.
///
/// The `*_change_bits` fields hold the IEEE-754 bit patterns (`f32::to_bits`)
/// of the change in percentage points of each resource.
#[derive(Clone, Debug)]
pub struct IntelligenceResult {
    pub health_score: u8,
    pub status: String,
    pub cpu_status: String,
    pub memory_status: String,
    pub disk_status: String,
    pub recommendations: Vec<String>,
    pub trend: String,
    pub anomaly_detected: bool,
    pub anomaly_signals: Vec<String>,
    pub cpu_change_bits: u32,
    pub memory_change_bits: u32,
    pub disk_change_bits: u32,
}

/// How a resource stands against its warning and critical thresholds.
#[derive(Clone, Copy, Debug, PartialEq, Eq, Structural)]
pub enum ResourceStatus {
    Healthy,
    Warning,
    Critical,
}

/// The status of a value that does or does not reach the critical and the
/// warning threshold: the critical threshold wins.
pub open spec fn status_from(reaches_critical: bool, reaches_warning: bool) -> ResourceStatus {
    if reaches_critical {
        ResourceStatus::Critical
    } else if reaches_warning {
        ResourceStatus::Warning
    } else {
        ResourceStatus::Healthy
    }
}

impl ResourceStatus {
    /// The label of the status in reports.
    pub open spec fn label(self) -> Seq<char> {
        match self {
            ResourceStatus::Healthy => "HEALTHY"@,
            ResourceStatus::Warning => "WARNING"@,
            ResourceStatus::Critical => "CRITICAL"@,
        }
    }

    /// The points that the status takes off the health score.
    pub open spec fn penalty(self) -> int {
        match self {
            ResourceStatus::Healthy => 0,
            ResourceStatus::Warning => 15,
            ResourceStatus::Critical => 30,
        }
    }

    /// The status of a value that does or does not reach the critical and
    /// the warning threshold: the critical threshold wins.
    pub fn from_thresholds(reaches_critical: bool, reaches_warning: bool) -> (r: Self)
        ensures
            r == status_from(reaches_critical, reaches_warning),
    {
        if reaches_critical {
            ResourceStatus::Critical
        } else if reaches_warning {
            ResourceStatus::Warning
        } else {
            ResourceStatus::Healthy
        }
    }

    /// The label of the status in reports.
    pub fn to_label(&self) -> (r: String)
        ensures
            r@ == self.label(),
    {
        match self {
            ResourceStatus::Healthy => "HEALTHY".to_owned(),
            ResourceStatus::Warning => "WARNING".to_owned(),
            ResourceStatus::Critical => "CRITICAL".to_owned(),
        }
    }
}

/// How one resource moved since the previous observation.
///
/// `change_bits` is the bit pattern of the change in percentage points;
/// `worsening` and `improving` say whether the change reaches the worsening
/// or the improving threshold of the resource; `anomaly` holds the change
/// written with one decimal when its size reaches the anomaly threshold.
#[derive(Clone, Debug)]
pub struct ChangeSignal {
    pub change_bits: u32,
    pub worsening: bool,
    pub improving: bool,
    pub anomaly: Option<String>,
}

/// How the three resources moved since the previous observation.
#[derive(Clone, Debug)]
pub struct ResourceChanges {
    pub cpu: ChangeSignal,
    pub memory: ChangeSignal,
    pub disk: ChangeSignal,
}

/// The trend reported when there is nothing to compare with.
pub fn default_trend() -> (r: String)
    ensures
        r@ == "STABLE"@,
{
    "STABLE".to_owned()
}

/// The recommendation that a resource's status calls for, if any.
pub open spec fn recommendation_for(
    resource: Seq<char>,
    status: Seq<char>,
    critical_action: Seq<char>,
    warning_action: Seq<char>,
) -> Seq<Seq<char>> {
    if status == "CRITICAL"@ {
        seq![resource + " utilization is critically high. "@ + critical_action]
    } else if status == "WARNING"@ {
        seq![resource + " utilization is elevated. "@ + warning_action]
    } else {
        Seq::empty()
    }
}

/// Adds to `recommendations` the recommendation that a resource's status
/// calls for: its critical action when the status is "CRITICAL", its warning
/// action when it is "WARNING", nothing otherwise.
pub fn add_resource_recommendation(
    recommendations: &mut Vec<String>,
    resource: &str,
    status: &str,
    critical_action: &str,
    warning_action: &str,
)
    ensures
        texts(final(recommendations)@) == texts(old(recommendations)@) + recommendation_for(
            resource@,
            status@,
            critical_action@,
            warning_action@,
        ),
{
    let ghost before = recommendations@;
    if str_eq(status, "CRITICAL") {
        let mut line = resource.to_owned();
        line.append(" utilization is critically high. ");
        line.append(critical_action);
        recommendations.push(line);
        proof {
            assert(texts(recommendations@) =~= texts(before) + recommendation_for(
                resource@,
                status@,
                critical_action@,
                warning_action@,
            ));
        }
    } else if str_eq(status, "WARNING") {
        let mut line = resource.to_owned();
        line.append(" utilization is elevated. ");
        line.append(warning_action);
        recommendations.push(line);
        proof {
            assert(texts(recommendations@) =~= texts(before) + recommendation_for(
                resource@,
                status@,
                critical_action@,
                warning_action@,
            ));
        }
    } else {
        proof {
            assert(texts(recommendations@) =~= texts(before) + recommendation_for(
                resource@,
                status@,
                critical_action@,
                warning_action@,
            ));
        }
    }
}

/// The health score of three resource statuses.
pub open spec fn health_score_spec(cpu: ResourceStatus, memory: ResourceStatus, disk: ResourceStatus) -> int {
    100 - cpu.penalty() - memory.penalty() - disk.penalty()
}

/// The overall status of a health score.
pub open spec fn health_label(score: int) -> Seq<char> {
    if score >= 90 {
        "HEALTHY"@
    } else if score >= 70 {
        "DEGRADED"@
    } else if score >= 40 {
        "AT_RISK"@
    } else {
        "CRITICAL"@
    }
}

/// The recommendations that the three resource statuses call for, in the
/// order CPU, memory, disk.
pub open spec fn status_recommendations(
    cpu: ResourceStatus,
    memory: ResourceStatus,
    disk: ResourceStatus,
) -> Seq<Seq<char>> {
    recommendation_for(
        "CPU"@,
        cpu.label(),
        "Investigate the processes consuming the most CPU."@,
        "Monitor active workloads for sustained CPU pressure."@,
    ) + recommendation_for(
        "Memory"@,
        memory.label(),
        "Investigate memory-heavy processes and reclaim available memory."@,
        "Monitor workloads for increasing memory pressure."@,
    ) + recommendation_for(
        "Disk"@,
        disk.label(),
        "Free space or expand storage immediately."@,
        "Plan cleanup or additional storage."@,
    )
}

pub open spec fn flag(b: bool) -> int {
    if b { 1 } else { 0 }
}

/// How many resources reached their worsening threshold.
pub open spec fn worsening_signals(ch: ResourceChanges) -> int {
    flag(ch.cpu.worsening) + flag(ch.memory.worsening) + flag(ch.disk.worsening)
}

/// How many resources reached their improving threshold.
pub open spec fn improving_signals(ch: ResourceChanges) -> int {
    flag(ch.cpu.improving) + flag(ch.memory.improving) + flag(ch.disk.improving)
}

/// The trend of the changes: worsening when two resources worsen, else
/// improving when two improve, else stable.
pub open spec fn trend_spec(ch: ResourceChanges) -> Seq<char> {
    if worsening_signals(ch) >= 2 {
        "WORSENING"@
    } else if improving_signals(ch) >= 2 {
        "IMPROVING"@
    } else {
        "STABLE"@
    }
}

/// The anomaly sentence of one resource, if its change is anomalous.
pub open spec fn anomaly_line(lead: Seq<char>, anomaly: Option<String>) -> Seq<Seq<char>> {
    match anomaly {
        Some(amount) => seq![lead + amount@ + " percentage points."@],
        None => Seq::empty(),
    }
}

/// The anomaly sentences of the changes, in the order CPU, memory, disk.
pub open spec fn anomaly_lines(ch: ResourceChanges) -> Seq<Seq<char>> {
    anomaly_line("CPU changed by "@, ch.cpu.anomaly) + anomaly_line(
        "Memory utilization changed by "@,
        ch.memory.anomaly,
    ) + anomaly_line("Disk utilization changed by "@, ch.disk.anomaly)
}

/// The recommendation that the changes call for, if any.
pub open spec fn change_recommendation(ch: ResourceChanges) -> Seq<Seq<char>> {
    if anomaly_lines(ch).len() > 0 {
        seq![
            "A significant resource change was detected. Investigate the earliest abnormal signal before it becomes sustained pressure."@,
        ]
    } else if trend_spec(ch) == "WORSENING"@ {
        seq![
            "Multiple infrastructure signals are worsening. Investigate the underlying cause before service degradation occurs."@,
        ]
    } else {
        Seq::empty()
    }
}

/// Whether `r` is the assessment of the three statuses and the changes.
pub open spec fn assessment_of(
    r: IntelligenceResult,
    cpu: ResourceStatus,
    memory: ResourceStatus,
    disk: ResourceStatus,
    changes: Option<ResourceChanges>,
) -> bool {
    let score = health_score_spec(cpu, memory, disk);
    &&& r.health_score == score
    &&& r.status@ == health_label(score)
    &&& r.cpu_status@ == cpu.label()
    &&& r.memory_status@ == memory.label()
    &&& r.disk_status@ == disk.label()
    &&& match changes {
        None => {
            &&& texts(r.recommendations@) == status_recommendations(cpu, memory, disk)
            &&& r.trend@ == "STABLE"@
            &&& texts(r.anomaly_signals@) == Seq::<Seq<char>>::empty()
            &&& !r.anomaly_detected
            &&& r.cpu_change_bits == 0 && r.memory_change_bits == 0 && r.disk_change_bits == 0
        },
        Some(ch) => {
            &&& texts(r.recommendations@) == status_recommendations(cpu, memory, disk)
                + change_recommendation(ch)
            &&& r.trend@ == trend_spec(ch)
            &&& texts(r.anomaly_signals@) == anomaly_lines(ch)
            &&& r.anomaly_detected == (anomaly_lines(ch).len() > 0)
            &&& r.cpu_change_bits == ch.cpu.change_bits
            &&& r.memory_change_bits == ch.memory.change_bits
            &&& r.disk_change_bits == ch.disk.change_bits
        },
    }
}

fn push_anomaly(lines: &mut Vec<String>, lead: &str, anomaly: &Option<String>)
    ensures
        texts(final(lines)@) == texts(old(lines)@) + anomaly_line(lead@, *anomaly),
{
    let ghost before = lines@;
    match anomaly {
        Some(amount) => {
            let mut line = lead.to_owned();
            line.append(amount.as_str());
            line.append(" percentage points.");
            lines.push(line);
        },
        None => {},
    }
    proof {
        assert(texts(lines@) =~= texts(before) + anomaly_line(lead@, *anomaly));
    }
}

fn penalty(s: ResourceStatus) -> (p: i32)
    ensures
        p == s.penalty(),
{
    match s {
        ResourceStatus::Critical => 30,
        ResourceStatus::Warning => 15,
        ResourceStatus::Healthy => 0,
    }
}

fn health_score(cpu: ResourceStatus, memory: ResourceStatus, disk: ResourceStatus) -> (r: u8)
    ensures
        r == health_score_spec(cpu, memory, disk),
{
    let mut health_score: i32 = 100;
    health_score = health_score - penalty(cpu);
    health_score = health_score - penalty(memory);
    health_score = health_score - penalty(disk);
    health_score as u8
}

fn status_of_score(score: u8) -> (r: String)
    ensures
        r@ == health_label(score as int),
{
    let status = if score >= 90 {
        "HEALTHY"
    } else if score >= 70 {
        "DEGRADED"
    } else if score >= 40 {
        "AT_RISK"
    } else {
        "CRITICAL"
    };
    status.to_owned()
}

fn status_recommendation_list(cpu: &String, memory: &String, disk: &String) -> (r: Vec<String>)
    ensures
        texts(r@) == recommendation_for(
            "CPU"@,
            cpu@,
            "Investigate the processes consuming the most CPU."@,
            "Monitor active workloads for sustained CPU pressure."@,
        ) + recommendation_for(
            "Memory"@,
            memory@,
            "Investigate memory-heavy processes and reclaim available memory."@,
            "Monitor workloads for increasing memory pressure."@,
        ) + recommendation_for(
            "Disk"@,
            disk@,
            "Free space or expand storage immediately."@,
            "Plan cleanup or additional storage."@,
        ),
{
    let mut recommendations: Vec<String> = Vec::new();
    add_resource_recommendation(
        &mut recommendations,
        "CPU",
        cpu.as_str(),
        "Investigate the processes consuming the most CPU.",
        "Monitor active workloads for sustained CPU pressure.",
    );
    add_resource_recommendation(
        &mut recommendations,
        "Memory",
        memory.as_str(),
        "Investigate memory-heavy processes and reclaim available memory.",
        "Monitor workloads for increasing memory pressure.",
    );
    add_resource_recommendation(
        &mut recommendations,
        "Disk",
        disk.as_str(),
        "Free space or expand storage immediately.",
        "Plan cleanup or additional storage.",
    );
    proof {
        assert(texts(Seq::<String>::empty()) =~= Seq::<Seq<char>>::empty());
    }
    recommendations
}

fn trend_of(ch: &ResourceChanges) -> (r: String)
    ensures
        r@ == trend_spec(*ch),
{
    let worsening = (if ch.cpu.worsening { 1u8 } else { 0u8 }) + (if ch.memory.worsening {
        1u8
    } else {
        0u8
    }) + (if ch.disk.worsening { 1u8 } else { 0u8 });
    let improving = (if ch.cpu.improving { 1u8 } else { 0u8 }) + (if ch.memory.improving {
        1u8
    } else {
        0u8
    }) + (if ch.disk.improving { 1u8 } else { 0u8 });
    if worsening >= 2 {
        "WORSENING".to_owned()
    } else if improving >= 2 {
        "IMPROVING".to_owned()
    } else {
        "STABLE".to_owned()
    }
}

fn anomalies_of(ch: &ResourceChanges) -> (r: Vec<String>)
    ensures
        texts(r@) == anomaly_lines(*ch),
{
    let mut anomaly_signals: Vec<String> = Vec::new();
    push_anomaly(&mut anomaly_signals, "CPU changed by ", &ch.cpu.anomaly);
    push_anomaly(&mut anomaly_signals, "Memory utilization changed by ", &ch.memory.anomaly);
    push_anomaly(&mut anomaly_signals, "Disk utilization changed by ", &ch.disk.anomaly);
    proof {
        assert(texts(Seq::<String>::empty()) =~= Seq::<Seq<char>>::empty());
        assert(texts(anomaly_signals@) =~= anomaly_lines(*ch));
    }
    anomaly_signals
}

fn add_change_recommendation(
    recommendations: &mut Vec<String>,
    ch: &ResourceChanges,
    anomaly_signals: &Vec<String>,
    trend: &String,
)
    requires
        texts(anomaly_signals@) == anomaly_lines(*ch),
        trend@ == trend_spec(*ch),
    ensures
        texts(final(recommendations)@) == texts(old(recommendations)@) + change_recommendation(*ch),
{
    let ghost before = recommendations@;
    if !anomaly_signals.is_empty() {
        recommendations.push(
            "A significant resource change was detected. Investigate the earliest abnormal signal before it becomes sustained pressure.".to_owned(),
        );
    } else if str_eq(trend.as_str(), "WORSENING") {
        recommendations.push(
            "Multiple infrastructure signals are worsening. Investigate the underlying cause before service degradation occurs.".to_owned(),
        );
    }
    proof {
        assert(texts(recommendations@) =~= texts(before) + change_recommendation(*ch));
    }
}

/// Assesses system health from resource statuses and recent changes.
pub struct IntelligenceEngine;

impl IntelligenceEngine {
    pub fn new() -> (r: Self)
        ensures
            r == IntelligenceEngine,
    {
        IntelligenceEngine
    }

    /// Assesses the statuses of CPU, memory and disk, and, when there is a
    /// previous observation, how the three moved since.
    ///
    /// The health score starts at 100 and loses 30 points for each critical
    /// and 15 for each warning resource; the overall status follows from it.
    pub fn analyze(
        &self,
        cpu: ResourceStatus,
        memory: ResourceStatus,
        disk: ResourceStatus,
        changes: Option<ResourceChanges>,
    ) -> (r: IntelligenceResult)
        ensures
            assessment_of(r, cpu, memory, disk, changes),
    {
        let cpu_status = cpu.to_label();
        let memory_status = memory.to_label();
        let disk_status = disk.to_label();
        let score = health_score(cpu, memory, disk);
        let status = status_of_score(score);
        let mut recommendations = status_recommendation_list(&cpu_status, &memory_status, &disk_status);

        let mut anomaly_signals: Vec<String> = Vec::new();
        let mut trend = default_trend();
        let mut cpu_change_bits: u32 = 0;
        let mut memory_change_bits: u32 = 0;
        let mut disk_change_bits: u32 = 0;
        proof {
            assert(texts(anomaly_signals@) =~= Seq::<Seq<char>>::empty());
        }

        match &changes {
            Some(ch) => {
                cpu_change_bits = ch.cpu.change_bits;
                memory_change_bits = ch.memory.change_bits;
                disk_change_bits = ch.disk.change_bits;
                trend = trend_of(ch);
                anomaly_signals = anomalies_of(ch);
                add_change_recommendation(&mut recommendations, ch, &anomaly_signals, &trend);
            },
            None => {},
        }

        let anomaly_detected = !anomaly_signals.is_empty();
        IntelligenceResult {
            health_score: score,
            status,
            cpu_status,
            memory_status,
            disk_status,
            recommendations,
            trend,
            anomaly_detected,
            anomaly_signals,
            cpu_change_bits,
            memory_change_bits,
            disk_change_bits,
        }
    }
}

/// The health score never leaves the range [10, 100], and it is 100 exactly
/// when no resource is under warning or critical pressure.
pub proof fn lemma_health_score_range(cpu: ResourceStatus, memory: ResourceStatus, disk: ResourceStatus)
    ensures
        10 <= health_score_spec(cpu, memory, disk) <= 100,
        health_score_spec(cpu, memory, disk) == 100 <==> (cpu == ResourceStatus::Healthy && memory
            == ResourceStatus::Healthy && disk == ResourceStatus::Healthy),
{
}

/// A worse status never raises the health score: the score is monotone in
/// each resource's status.
pub proof fn lemma_health_score_monotone(
    cpu: ResourceStatus,
    memory: ResourceStatus,
    disk: ResourceStatus,
    cpu2: ResourceStatus,
    memory2: ResourceStatus,
    disk2: ResourceStatus,
)
    requires
        cpu.penalty() <= cpu2.penalty(),
        memory.penalty() <= memory2.penalty(),
        disk.penalty() <= disk2.penalty(),
    ensures
        health_score_spec(cpu2, memory2, disk2) <= health_score_spec(cpu, memory, disk),
{
}

/// Whether a change signal reports no movement: a zero change that reaches
/// no threshold, as a snapshot compared with itself gives.
pub open spec fn is_quiet(c: ChangeSignal) -> bool {
    c.change_bits == 0 && !c.worsening && !c.improving && c.anomaly is None
}

/// Comparing with a previous observation that shows no movement changes
/// nothing: with quiet changes, an assessment is exactly the one made
/// without a previous observation (stable trend, no anomaly, zero changes,
/// the same score, status and recommendations).
pub proof fn lemma_quiet_changes_match_no_history(
    r: IntelligenceResult,
    cpu: ResourceStatus,
    memory: ResourceStatus,
    disk: ResourceStatus,
    ch: ResourceChanges,
)
    requires
        is_quiet(ch.cpu),
        is_quiet(ch.memory),
        is_quiet(ch.disk),
    ensures
        assessment_of(r, cpu, memory, disk, Some(ch)) == assessment_of(r, cpu, memory, disk, None),
{
    assert(anomaly_lines(ch) =~= Seq::<Seq<char>>::empty());
    assert(trend_spec(ch) == "STABLE"@);
    reveal_strlit("STABLE");
    reveal_strlit("WORSENING");
    assert(change_recommendation(ch) =~= Seq::<Seq<char>>::empty());
    assert(status_recommendations(cpu, memory, disk) + change_recommendation(ch) =~= status_recommendations(
        cpu,
        memory,
        disk,
    ));
}

/// More load never raises the health score: when, for every resource, each
/// threshold reached at the lighter load is also reached at the heavier one,
/// the assessment of the heavier load scores no higher, whatever the changes.
pub proof fn lemma_more_load_never_raises_score(
    light: IntelligenceResult,
    heavy: IntelligenceResult,
    cpu: (bool, bool),
    memory: (bool, bool),
    disk: (bool, bool),
    cpu2: (bool, bool),
    memory2: (bool, bool),
    disk2: (bool, bool),
    changes: Option<ResourceChanges>,
    changes2: Option<ResourceChanges>,
)
    requires
        cpu.0 ==> cpu2.0,
        cpu.1 ==> cpu2.1,
        memory.0 ==> memory2.0,
        memory.1 ==> memory2.1,
        disk.0 ==> disk2.0,
        disk.1 ==> disk2.1,
        assessment_of(
            light,
            status_from(cpu.0, cpu.1),
            status_from(memory.0, memory.1),
            status_from(disk.0, disk.1),
            changes,
        ),
        assessment_of(
            heavy,
            status_from(cpu2.0, cpu2.1),
            status_from(memory2.0, memory2.1),
            status_from(disk2.0, disk2.1),
            changes2,
        ),
    ensures
        heavy.health_score <= light.health_score,
{
}

/// The trend needs two resources moving together: it is WORSENING exactly
/// when at least two of CPU, memory and disk reach their worsening threshold;
/// otherwise IMPROVING exactly when at least two reach their improving
/// threshold; otherwise STABLE, so a single worsening resource gives STABLE.
/// Without an anomaly, the recommendation about worsening signals comes
/// exactly when the trend is WORSENING.
pub proof fn lemma_trend_needs_two_resources(
    r: IntelligenceResult,
    cpu: ResourceStatus,
    memory: ResourceStatus,
    disk: ResourceStatus,
    ch: ResourceChanges,
)
    requires
        assessment_of(r, cpu, memory, disk, Some(ch)),
    ensures
        ({
            let w = (ch.cpu.worsening && ch.memory.worsening) || (ch.cpu.worsening && ch.disk.worsening)
                || (ch.memory.worsening && ch.disk.worsening);
            let i = (ch.cpu.improving && ch.memory.improving) || (ch.cpu.improving && ch.disk.improving)
                || (ch.memory.improving && ch.disk.improving);
            &&& (r.trend@ == "WORSENING"@ <==> w)
            &&& (r.trend@ == "IMPROVING"@ <==> !w && i)
            &&& (r.trend@ == "STABLE"@ <==> !w && !i)
            &&& (ch.cpu.anomaly is None && ch.memory.anomaly is None && ch.disk.anomaly is None) ==> (
            texts(r.recommendations@).len() > status_recommendations(cpu, memory, disk).len() <==> w)
        }),
{
    reveal_strlit("WORSENING");
    reveal_strlit("IMPROVING");
    reveal_strlit("STABLE");
    assert("WORSENING"@ != "IMPROVING"@ && "WORSENING"@ != "STABLE"@ && "IMPROVING"@ != "STABLE"@) by {
        assert("WORSENING"@[0] != "IMPROVING"@[0]);
        assert("WORSENING"@[0] != "STABLE"@[0]);
        assert("IMPROVING"@[0] != "STABLE"@[0]);
    }
    if ch.cpu.anomaly is None && ch.memory.anomaly is None && ch.disk.anomaly is None {
        assert(anomaly_lines(ch) =~= Seq::<Seq<char>>::empty());
    }
}

} // verus!
