use daemon_core::agent::{AgentSignal, CpuFacts, DaemonAgent, ObservationTexts};
use daemon_core::api::{
    change_open_event, check_config_switches, create_event, event_id, intelligence_available, not_found,
    required_text, start_event, telemetry_available, validate_schedule, ApiStatus, OpenEventChange, RequiredText,
};
use daemon_core::config::DaemonConfig;
use daemon_core::events::{DaemonEvent, EventSource, EventStatus};
use daemon_core::telemetry::SystemSnapshot;

fn texts() -> ObservationTexts {
    ObservationTexts {
        cpu: "85.0".to_string(),
        previous_cpu: "40.0".to_string(),
        cpu_delta: "45.0".to_string(),
        memory_percent: "50.0".to_string(),
        disk_percent: "95.0".to_string(),
    }
}

fn snap(memory_used: u64, disk_used: u64) -> SystemSnapshot {
    SystemSnapshot { cpu_usage_bits: 0, memory_used, memory_total: 100, disk_used, disk_total: 100, uptime: 1 }
}

#[test]
fn required_texts_are_trimmed() {
    assert_eq!(required_text("  deploy ", RequiredText::EventName).unwrap(), "deploy");
    let e = required_text(" \t ", RequiredText::FailureReason).unwrap_err();
    assert_eq!(e.status, ApiStatus::BadRequest);
    assert_eq!(e.message, "failure reason cannot be empty.");
    let e = required_text("", RequiredText::EventName).unwrap_err();
    assert_eq!(e.message, "event name cannot be empty.");
}

#[test]
fn schedules_need_positive_durations() {
    assert!(validate_schedule(Some(10), Some(5)).is_ok());
    assert!(validate_schedule(Some(u64::MAX), Some(5)).is_ok());
    let e = validate_schedule(None, Some(0)).unwrap_err();
    assert_eq!(e.message, "expected_duration_seconds must be greater than zero.");
}

#[test]
fn event_ids_and_creation() {
    assert_eq!(event_id(1_700_000_000, 42, 7), "evt-1700000000-42-7");
    let e = create_event("evt-1".to_string(), "  Deploy  ", " notes ", EventSource::CiCd, Some(5), Some(10));
    assert_eq!(e.name, "Deploy");
    assert_eq!(e.description, "notes");
    assert_eq!(e.expected_completion_at, Some(15));
    assert_eq!(e.status, EventStatus::Scheduled);
}

#[test]
fn starting_terminal_events_conflicts() {
    let mut e = DaemonEvent::new_at("a".to_string(), "A".to_string(), EventSource::User, None, None, 1);
    assert!(start_event(&mut e).is_ok());
    assert_eq!(e.status, EventStatus::Started);
    e.status = EventStatus::Cancelled;
    let err = start_event(&mut e).unwrap_err();
    assert_eq!(err.status, ApiStatus::Conflict);
    assert_eq!(err.message, "event has already reached a terminal state.");
    assert_eq!(e.status, EventStatus::Cancelled);
}

#[test]
fn completed_events_refuse_changes() {
    let mut e = DaemonEvent::new_at("a".to_string(), "A".to_string(), EventSource::User, None, None, 1);
    assert!(change_open_event(&mut e, OpenEventChange::Monitor { signals: 4 }).is_ok());
    assert_eq!(e.signals_monitored, 4);
    assert_eq!(e.status, EventStatus::Monitoring);
    e.verify_at("ok".to_string(), 0, 2);
    let err = change_open_event(&mut e, OpenEventChange::MarkMissed).unwrap_err();
    assert_eq!(err.message, "completed events cannot be marked missed.");
    let err = change_open_event(&mut e, OpenEventChange::ExpectCompletion).unwrap_err();
    assert_eq!(err.message, "event has already completed.");
    assert_eq!(e.status, EventStatus::Verified);
}

#[test]
fn availability_and_errors() {
    let mut c = DaemonConfig::default();
    assert!(telemetry_available(&c).is_ok());
    assert!(intelligence_available(&c).is_ok());
    c.intelligence_enabled = false;
    assert_eq!(intelligence_available(&c).unwrap_err().message, "Daemon intelligence is disabled.");
    c.monitoring_enabled = false;
    assert_eq!(intelligence_available(&c).unwrap_err().status, ApiStatus::ServiceUnavailable);
    assert_eq!(telemetry_available(&c).unwrap_err().message, "Daemon monitoring is disabled.");
    c.intelligence_enabled = true;
    assert_eq!(check_config_switches(&c).unwrap_err().status, ApiStatus::BadRequest);
    let nf = not_found("evt-9");
    assert_eq!(nf.status, ApiStatus::NotFound);
    assert_eq!(nf.message, "event 'evt-9' was not found.");
}

#[test]
fn first_observation_reports_high_usage() {
    let mut agent = DaemonAgent::new();
    let facts = CpuFacts { high: true, previous_below: false, jumped: false };
    let snapshot = snap(80, 95);
    assert_eq!(
        agent.detect(&snapshot, facts),
        vec![AgentSignal::DiskAlreadyHigh, AgentSignal::CpuAlreadyHigh, AgentSignal::MemoryAlreadyHigh]
    );
    let events = agent.observe(snapshot, 1_700, facts, &texts(), &vec!["process=chrome pid=1".to_string()]);
    assert_eq!(events.len(), 3);
    assert_eq!(events[0].id, "agent-1700-disk-capacity-warning");
    assert_eq!(events[0].name, "Disk capacity warning");
    assert_eq!(
        events[0].description,
        "Disk utilization is already above 90% at 95.0%. Investigation: disk capacity is the dominant system constraint Recommendation: Free disk capacity by removing unnecessary files or expanding available storage"
    );
    assert_eq!(
        events[0].evidence,
        vec![
            "daemon-agent",
            "live-telemetry",
            "signal=disk-capacity",
            "source=live-telemetry",
            "investigation=disk-capacity-is-the-dominant-signal",
            "cause=disk capacity is the dominant system constraint",
            "recommendation=Free disk capacity by removing unnecessary files or expanding available storage",
        ]
    );
    assert_eq!(f32::from_bits(events[0].confidence_bits), 0.96);
    assert_eq!(events[1].id, "agent-1700-cpu-utilization-warning");
    assert_eq!(
        events[1].description,
        "CPU utilization is already elevated at 85.0%. Investigation: CPU pressure is primarily associated with chrome pid=1; no previous CPU baseline available Recommendation: Review the identified high-CPU process and determine whether it should be closed, restarted, or throttled"
    );
    assert_eq!(events[1].evidence[3], "investigation=process=chrome pid=1");
    assert_eq!(events[2].status, EventStatus::Monitoring);
    assert_eq!(events[2].started_at, Some(1_700));
    assert_eq!(events[2].signals_monitored, 1);
    assert_eq!(events[2].abnormal_signals, 1);
    assert_eq!(agent.previous().unwrap().disk_used, 95);
}

#[test]
fn later_observations_report_crossings() {
    let mut agent = DaemonAgent::new();
    let calm = CpuFacts { high: false, previous_below: false, jumped: false };
    assert!(agent.observe(snap(10, 10), 1, calm, &texts(), &vec![]).is_empty());
    let spike = CpuFacts { high: true, previous_below: true, jumped: true };
    let events = agent.observe(snap(80, 90), 2, spike, &texts(), &vec![]);
    let names: Vec<&str> = events.iter().map(|e| e.name.as_str()).collect();
    assert_eq!(
        names,
        vec!["CPU utilization spike", "Memory utilization spike", "Disk capacity warning", "Significant CPU change"]
    );
    assert_eq!(
        events[0].description,
        "CPU crossed 80%: 40.0% -> 85.0% Investigation: CPU pressure is primarily associated with unknown process; CPU changed by 45.0 percentage points Recommendation: Review the identified high-CPU process and determine whether it should be closed, restarted, or throttled"
    );
    assert_eq!(events[3].id, "agent-2-significant-cpu-change");
    assert_eq!(f32::from_bits(events[3].confidence_bits), 0.86);
    let again = agent.observe(snap(80, 90), 3, calm, &texts(), &vec![]);
    assert!(again.is_empty());
}
