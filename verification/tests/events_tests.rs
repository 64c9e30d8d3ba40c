use daemon_core::event_engine::EventEngine;
use daemon_core::events::{summarize, DaemonEvent, EventSource, EventStatus, EventSummary};

fn scheduled(id: &str, at: Option<u64>, duration: Option<u64>) -> DaemonEvent {
    DaemonEvent::new_at(id.to_string(), "Deploy".to_string(), EventSource::CiCd, at, duration, 1_000)
}

#[test]
fn new_event_is_scheduled_with_completion_time() {
    let e = scheduled("evt-1", Some(2_000), Some(600));
    assert_eq!(e.status, EventStatus::Scheduled);
    assert_eq!(e.expected_completion_at, Some(2_600));
    assert_eq!(e.updated_at, 1_000);
    assert!(e.monitoring_enabled);
    assert_eq!(e.signals_monitored, 0);
    assert_eq!(e.description, "");
    assert_eq!(e.confidence_bits, 0);
    assert!(e.evidence.is_empty());
}

#[test]
fn completion_time_saturates() {
    let e = scheduled("evt-2", Some(u64::MAX - 5), Some(600));
    assert_eq!(e.expected_completion_at, Some(u64::MAX));
    let no_duration = scheduled("evt-3", Some(10), None);
    assert_eq!(no_duration.expected_completion_at, None);
}

#[test]
fn new_event_reads_the_clock() {
    let e = DaemonEvent::new("evt-4".to_string(), "Backup".to_string(), EventSource::Database, None, None);
    assert!(e.updated_at > 1_600_000_000);
    assert_eq!(e.status, EventStatus::Scheduled);
}

#[test]
fn lifecycle_transitions_stamp_the_time() {
    let mut e = scheduled("evt-5", Some(2_000), Some(100));
    e.start_at(2_000);
    assert_eq!(e.status, EventStatus::Started);
    assert_eq!(e.started_at, Some(2_000));
    e.begin_monitoring_at(3, 2_010);
    assert_eq!(e.status, EventStatus::Monitoring);
    assert_eq!(e.signals_monitored, 3);
    e.mark_expected_completion_at(2_100);
    assert_eq!(e.status, EventStatus::ExpectedCompletion);
    e.verify_at("done".to_string(), 0.75f32.to_bits(), 2_200);
    assert_eq!(e.status, EventStatus::Verified);
    assert_eq!(e.completed_at, Some(2_200));
    assert_eq!(e.outcome.as_deref(), Some("done"));
    assert_eq!(f32::from_bits(e.confidence_bits), 0.75);
    assert_eq!(e.updated_at, 2_200);
}

#[test]
fn update_fail_missed_and_evidence() {
    let mut e = scheduled("evt-6", None, None);
    e.update_at("rolled forward".to_string(), 5);
    assert_eq!(e.status, EventStatus::Updated);
    assert_eq!(e.outcome.as_deref(), Some("rolled forward"));
    e.mark_failed_at("broken".to_string(), 6);
    assert_eq!(e.status, EventStatus::Failed);
    assert_eq!(e.outcome.as_deref(), Some("broken"));
    e.mark_missed_at(7);
    assert_eq!(e.status, EventStatus::Missed);
    e.add_evidence_at("log line".to_string(), 8);
    assert_eq!(e.evidence, vec!["log line".to_string()]);
    assert_eq!(e.updated_at, 8);
    e.abnormal_signals = u32::MAX;
    e.add_abnormal_signal_at(9);
    assert_eq!(e.abnormal_signals, u32::MAX);
}

#[test]
fn clock_reading_methods_keep_other_fields() {
    let mut e = scheduled("evt-7", Some(1), Some(1));
    e.start();
    assert_eq!(e.started_at, Some(e.updated_at));
    e.add_abnormal_signal();
    assert_eq!(e.abnormal_signals, 1);
    e.add_evidence("x".to_string());
    e.begin_monitoring(2);
    e.mark_expected_completion();
    e.update("u".to_string());
    e.mark_failed("f".to_string());
    e.verify("v".to_string(), 1.0f32.to_bits());
    e.mark_missed();
    assert_eq!(e.status, EventStatus::Missed);
    assert_eq!(e.id, "evt-7");
}

#[test]
fn overdue_needs_passed_completion_and_open_event() {
    let mut e = scheduled("evt-8", Some(100), Some(50));
    assert!(!e.is_overdue(150));
    assert!(e.is_overdue(151));
    e.update_at("fine".to_string(), 151);
    assert!(!e.is_overdue(200));
    let unscheduled = scheduled("evt-9", None, Some(5));
    assert!(!unscheduled.is_overdue(u64::MAX));
    let mut completed = scheduled("evt-10", Some(100), Some(50));
    completed.completed_at = Some(120);
    assert!(!completed.is_overdue(500));
}

#[test]
fn seconds_remaining_until_completion() {
    let e = scheduled("evt-11", Some(100), Some(50));
    assert_eq!(e.expected_update_seconds_remaining(120), Some(30));
    assert_eq!(e.expected_update_seconds_remaining(200), Some(-50));
    assert_eq!(scheduled("evt-12", None, None).expected_update_seconds_remaining(5), None);
}

#[test]
fn summary_counts_each_group() {
    let mut events = Vec::new();
    for (i, status) in [
        EventStatus::Scheduled,
        EventStatus::Countdown,
        EventStatus::Started,
        EventStatus::Monitoring,
        EventStatus::ExpectedCompletion,
        EventStatus::Verified,
        EventStatus::Updated,
        EventStatus::Missed,
        EventStatus::Failed,
        EventStatus::Cancelled,
    ]
    .into_iter()
    .enumerate()
    {
        let mut e = scheduled(&format!("evt-{i}"), None, None);
        e.status = status;
        if i % 3 == 0 {
            e.abnormal_signals = 2;
        }
        events.push(e);
    }
    let s = summarize(&events);
    assert_eq!(s.total, 10);
    assert_eq!(s.scheduled, 2);
    assert_eq!(s.active, 3);
    assert_eq!(s.completed, 2);
    assert_eq!(s.missed, 1);
    assert_eq!(s.failed, 1);
    assert_eq!(s.abnormal, 4);
    // every event but the cancelled one falls in a group
    assert_eq!(s.scheduled + s.active + s.completed + s.missed + s.failed + 1, s.total);
}

#[test]
fn summary_of_nothing_is_empty() {
    let s = summarize(&[]);
    assert_eq!(s.total, 0);
    let d = EventSummary::default();
    assert_eq!(d.scheduled, 0);
    assert_eq!(EventStatus::default(), EventStatus::Scheduled);
}

#[test]
fn engine_starts_due_event_and_monitors_it() {
    let engine = EventEngine::new();
    let mut e = scheduled("evt-20", Some(1_000), Some(600));
    assert!(engine.evaluate(&mut e, 1_000));
    assert_eq!(e.status, EventStatus::Monitoring);
    assert_eq!(e.signals_monitored, 0);
    assert!(e.started_at.is_some());
}

#[test]
fn engine_enters_countdown_within_five_minutes() {
    let engine = EventEngine::default();
    let mut e = scheduled("evt-21", Some(1_300), None);
    assert!(engine.evaluate(&mut e, 1_000));
    assert_eq!(e.status, EventStatus::Countdown);
    assert_eq!(e.updated_at, 1_000);
    let mut far = scheduled("evt-22", Some(1_301), None);
    assert!(!engine.evaluate(&mut far, 1_000));
    assert_eq!(far.status, EventStatus::Scheduled);
}

#[test]
fn engine_marks_overdue_event_missed() {
    let engine = EventEngine::new();
    let mut e = scheduled("evt-23", Some(100), Some(50));
    assert!(engine.evaluate(&mut e, 151));
    assert_eq!(e.status, EventStatus::Missed);
}

#[test]
fn engine_reaches_expected_completion_on_time() {
    let engine = EventEngine::new();
    let mut e = scheduled("evt-24", Some(100), Some(50));
    e.status = EventStatus::Monitoring;
    e.signals_monitored = 2;
    assert!(engine.evaluate(&mut e, 150));
    assert_eq!(e.status, EventStatus::ExpectedCompletion);
}

#[test]
fn second_evaluation_changes_nothing() {
    let engine = EventEngine::new();
    let mut e = scheduled("evt-25", Some(100), Some(50));
    assert!(engine.evaluate(&mut e, 400));
    let status = e.status;
    let updated = e.updated_at;
    assert!(!engine.evaluate(&mut e, 400));
    assert_eq!(e.status, status);
    assert_eq!(e.updated_at, updated);
}

#[test]
fn final_events_are_left_alone() {
    let engine = EventEngine::new();
    for status in [
        EventStatus::Missed,
        EventStatus::Verified,
        EventStatus::Updated,
        EventStatus::Failed,
        EventStatus::Cancelled,
    ] {
        let mut e = scheduled("evt-26", Some(100), Some(50));
        e.status = status;
        e.updated_at = 7;
        assert!(!engine.evaluate(&mut e, 10_000));
        assert_eq!(e.status, status);
        assert_eq!(e.updated_at, 7);
    }
}

#[test]
fn evaluate_all_counts_changed_events() {
    let engine = EventEngine::new();
    let mut events = vec![
        scheduled("a", Some(100), None),
        scheduled("b", Some(10_000), None),
        scheduled("c", None, None),
    ];
    assert_eq!(engine.evaluate_all(&mut events, 100), 1);
    assert_eq!(events[0].status, EventStatus::Monitoring);
    assert_eq!(events[1].status, EventStatus::Scheduled);
}

#[test]
fn counted_down_event_starts_when_its_time_comes() {
    let engine = EventEngine::new();
    let mut e = scheduled("evt-27", Some(1_300), Some(600));
    assert!(engine.evaluate(&mut e, 1_000));
    assert_eq!(e.status, EventStatus::Countdown);
    assert!(!engine.evaluate(&mut e, 1_200));
    assert_eq!(e.status, EventStatus::Countdown);
    assert!(engine.evaluate(&mut e, 1_300));
    assert_eq!(e.status, EventStatus::Monitoring);
    assert!(e.started_at.is_some());
    assert!(!engine.evaluate(&mut e, 1_300));
}

#[test]
fn summaries_add_up_and_ignore_order() {
    let mut a = Vec::new();
    for (i, status) in [EventStatus::Scheduled, EventStatus::Failed, EventStatus::Verified].into_iter().enumerate() {
        let mut e = scheduled(&format!("a{i}"), None, None);
        e.status = status;
        a.push(e);
    }
    let mut b = Vec::new();
    for (i, status) in [EventStatus::Missed, EventStatus::Scheduled].into_iter().enumerate() {
        let mut e = scheduled(&format!("b{i}"), None, None);
        e.status = status;
        e.abnormal_signals = 1;
        b.push(e);
    }
    let (sa, sb) = (summarize(&a), summarize(&b));
    let mut joined = a.clone();
    joined.extend(b.iter().cloned());
    let s = summarize(&joined);
    assert_eq!(s.total, sa.total + sb.total);
    assert_eq!(s.scheduled, sa.scheduled + sb.scheduled);
    assert_eq!(s.abnormal, sa.abnormal + sb.abnormal);
    joined.reverse();
    let r = summarize(&joined);
    assert_eq!((r.scheduled, r.completed, r.missed, r.failed), (s.scheduled, s.completed, s.missed, s.failed));
}
