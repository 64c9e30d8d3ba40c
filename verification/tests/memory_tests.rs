use daemon_core::history::{HistoryRecord, HistoryStore, HistoryTimer};
use daemon_core::intelligence::IntelligenceResult;
use daemon_core::memory::MemoryEngine;
use daemon_core::telemetry::SystemSnapshot;

fn snapshot() -> SystemSnapshot {
    SystemSnapshot { cpu_usage_bits: 0, memory_used: 1, memory_total: 2, disk_used: 3, disk_total: 4, uptime: 5 }
}

fn record(ts: u64, score: u8, status: &str, cpu: &str, memory: &str, disk: &str, trend: &str, anomaly: bool) -> HistoryRecord {
    HistoryRecord {
        timestamp: ts,
        telemetry: snapshot(),
        intelligence: IntelligenceResult {
            health_score: score,
            status: status.to_string(),
            cpu_status: cpu.to_string(),
            memory_status: memory.to_string(),
            disk_status: disk.to_string(),
            recommendations: vec![],
            trend: trend.to_string(),
            anomaly_detected: anomaly,
            anomaly_signals: vec![],
            cpu_change_bits: 0,
            memory_change_bits: 0,
            disk_change_bits: 0,
        },
    }
}

fn healthy(ts: u64) -> HistoryRecord {
    record(ts, 100, "HEALTHY", "HEALTHY", "HEALTHY", "HEALTHY", "STABLE", false)
}

#[test]
fn empty_history_has_no_memory() {
    let s = MemoryEngine::new().analyze(&[]);
    assert_eq!(s.observations, 0);
    assert!(s.events.is_empty());
    assert_eq!(s.current_state, "NO_HISTORY");
    assert_eq!(s.dominant_signal, "NONE");
    assert!(!s.recovery_detected);
    assert!(!s.recurring_issue);
}

#[test]
fn dominant_signal_prefers_critical_disk() {
    let r = record(10, 40, "AT_RISK", "CRITICAL", "WARNING", "CRITICAL", "STABLE", false);
    let s = MemoryEngine::new().analyze(&[r]);
    assert_eq!(s.dominant_signal, "DISK");
    assert_eq!(s.current_state, "AT_RISK");
    let types: Vec<&str> = s.events.iter().map(|e| e.event_type.as_str()).collect();
    assert_eq!(types, vec!["DISK_PRESSURE", "CPU_PRESSURE"]);
    let w = record(10, 85, "DEGRADED", "WARNING", "WARNING", "HEALTHY", "STABLE", false);
    assert_eq!(MemoryEngine::new().analyze(&[w]).dominant_signal, "MEMORY");
}

#[test]
fn recovery_after_a_bad_observation() {
    let current = record(20, 100, "HEALTHY", "HEALTHY", "HEALTHY", "HEALTHY", "STABLE", false);
    let previous = record(10, 55, "AT_RISK", "HEALTHY", "HEALTHY", "CRITICAL", "STABLE", false);
    let s = MemoryEngine::new().analyze(&[current, previous]);
    assert!(s.recovery_detected);
    assert!(!s.recurring_issue);
    assert_eq!(s.events[0].event_type, "RECOVERY");
    assert_eq!(s.events[0].timestamp, 20);
    assert_eq!(s.events[1].event_type, "DISK_PRESSURE");
}

#[test]
fn recurring_pressure_needs_four_observations() {
    let pressured = |ts| record(ts, 85, "DEGRADED", "WARNING", "HEALTHY", "HEALTHY", "STABLE", false);
    let three = [pressured(3), pressured(2), pressured(1)];
    assert!(!MemoryEngine::new().analyze(&three).recurring_issue);
    let four = [pressured(4), pressured(3), pressured(2), healthy(1)];
    let s = MemoryEngine::new().analyze(&four);
    assert!(s.recurring_issue);
    assert_eq!(s.events.last().unwrap().event_type, "RECURRING_ISSUE");
    assert_eq!(s.observations, 4);
}

#[test]
fn moments_newest_first_at_most_fifty() {
    let mut records = Vec::new();
    for i in 0..30u64 {
        records.push(record(1_000 - i, 10, "CRITICAL", "CRITICAL", "CRITICAL", "CRITICAL", "WORSENING", true));
    }
    let s = MemoryEngine::new().analyze(&records);
    assert_eq!(s.events.len(), 50);
    for pair in s.events.windows(2) {
        assert!(pair[0].timestamp >= pair[1].timestamp);
    }
    assert_eq!(s.events[0].timestamp, 1_000);
    let first: Vec<&str> = s.events.iter().take(6).map(|e| e.event_type.as_str()).collect();
    assert_eq!(first, vec!["ANOMALY", "TREND_WORSENING", "DISK_PRESSURE", "MEMORY_PRESSURE", "CPU_PRESSURE", "RECURRING_ISSUE"]);
    assert_eq!(s.events[0].severity, "CRITICAL");
}

#[test]
fn improving_trend_is_remembered() {
    let r = record(7, 100, "HEALTHY", "HEALTHY", "HEALTHY", "HEALTHY", "IMPROVING", false);
    let s = MemoryEngine::new().analyze(&[r]);
    assert_eq!(s.events.len(), 1);
    assert_eq!(s.events[0].event_type, "TREND_IMPROVING");
    assert_eq!(s.events[0].severity, "INFO");
    assert_eq!(s.events[0].summary, "System conditions are improving.");
}

#[test]
fn recent_records_newest_first() {
    let records = vec![healthy(1), healthy(2), healthy(3)];
    let recent = HistoryStore::recent_records(records, 2);
    let stamps: Vec<u64> = recent.iter().map(|r| r.timestamp).collect();
    assert_eq!(stamps, vec![3, 2]);
    let all = HistoryStore::recent_records(vec![healthy(1), healthy(2)], 10);
    assert_eq!(all.len(), 2);
    assert_eq!(HistoryStore::new("data/history.jsonl").path(), "data/history.jsonl");
}

#[test]
fn history_writes_are_spaced() {
    let mut timer = HistoryTimer::new();
    assert!(timer.claim(true, 60, 100));
    assert_eq!(timer.last_write, 100);
    assert!(!timer.claim(true, 60, 159));
    assert!(timer.claim(true, 60, 160));
    assert!(!timer.claim(false, 60, 10_000));
    assert_eq!(timer.last_write, 160);
    assert!(timer.is_due(60, 220));
    assert!(!timer.is_due(60, 50));
    timer.record_write(300);
    assert!(!timer.is_due(1, 300));
    assert!(timer.is_due(0, 300));
}
