use daemon_core::intelligence::bloom::ThreatShield;
use daemon_core::intelligence::{
    add_resource_recommendation, default_trend, ChangeSignal, IntelligenceEngine, ResourceChanges, ResourceStatus,
    ThreatResult,
};

fn steady() -> ChangeSignal {
    ChangeSignal { change_bits: 0, worsening: false, improving: false, anomaly: None }
}

#[test]
fn healthy_system_scores_full_marks() {
    let r = IntelligenceEngine::new().analyze(ResourceStatus::Healthy, ResourceStatus::Healthy, ResourceStatus::Healthy, None);
    assert_eq!(r.health_score, 100);
    assert_eq!(r.status, "HEALTHY");
    assert_eq!(r.cpu_status, "HEALTHY");
    assert!(r.recommendations.is_empty());
    assert_eq!(r.trend, "STABLE");
    assert!(!r.anomaly_detected);
    assert_eq!(r.cpu_change_bits, 0);
}

#[test]
fn critical_disk_and_warning_cpu() {
    let r = IntelligenceEngine::new().analyze(ResourceStatus::Warning, ResourceStatus::Healthy, ResourceStatus::Critical, None);
    assert_eq!(r.health_score, 55);
    assert_eq!(r.status, "AT_RISK");
    assert_eq!(r.disk_status, "CRITICAL");
    assert_eq!(
        r.recommendations,
        vec![
            "CPU utilization is elevated. Monitor active workloads for sustained CPU pressure.".to_string(),
            "Disk utilization is critically high. Free space or expand storage immediately.".to_string(),
        ]
    );
}

#[test]
fn status_labels_follow_the_score() {
    let e = IntelligenceEngine::new();
    assert_eq!(e.analyze(ResourceStatus::Warning, ResourceStatus::Healthy, ResourceStatus::Healthy, None).status, "DEGRADED");
    assert_eq!(e.analyze(ResourceStatus::Critical, ResourceStatus::Critical, ResourceStatus::Critical, None).health_score, 10);
    assert_eq!(e.analyze(ResourceStatus::Critical, ResourceStatus::Critical, ResourceStatus::Critical, None).status, "CRITICAL");
    let r = e.analyze(ResourceStatus::Healthy, ResourceStatus::Critical, ResourceStatus::Healthy, None);
    assert_eq!(r.health_score, 70);
    assert_eq!(r.status, "DEGRADED");
}

#[test]
fn worsening_trend_with_two_signals() {
    let changes = ResourceChanges {
        cpu: ChangeSignal { change_bits: 12.0f32.to_bits(), worsening: true, improving: false, anomaly: None },
        memory: ChangeSignal { change_bits: 6.0f32.to_bits(), worsening: true, improving: false, anomaly: None },
        disk: steady(),
    };
    let r = IntelligenceEngine::new().analyze(ResourceStatus::Healthy, ResourceStatus::Healthy, ResourceStatus::Healthy, Some(changes));
    assert_eq!(r.trend, "WORSENING");
    assert!(!r.anomaly_detected);
    assert_eq!(f32::from_bits(r.cpu_change_bits), 12.0);
    assert_eq!(
        r.recommendations,
        vec!["Multiple infrastructure signals are worsening. Investigate the underlying cause before service degradation occurs.".to_string()]
    );
}

#[test]
fn anomalies_are_reported_in_resource_order() {
    let changes = ResourceChanges {
        cpu: ChangeSignal { change_bits: (-25.0f32).to_bits(), worsening: false, improving: true, anomaly: Some("-25.0".to_string()) },
        memory: steady(),
        disk: ChangeSignal { change_bits: (-6.0f32).to_bits(), worsening: false, improving: true, anomaly: Some("-6.0".to_string()) },
    };
    let r = IntelligenceEngine::new().analyze(ResourceStatus::Healthy, ResourceStatus::Healthy, ResourceStatus::Healthy, Some(changes));
    assert_eq!(r.trend, "IMPROVING");
    assert!(r.anomaly_detected);
    assert_eq!(
        r.anomaly_signals,
        vec![
            "CPU changed by -25.0 percentage points.".to_string(),
            "Disk utilization changed by -6.0 percentage points.".to_string(),
        ]
    );
    assert_eq!(
        r.recommendations,
        vec!["A significant resource change was detected. Investigate the earliest abnormal signal before it becomes sustained pressure.".to_string()]
    );
}

#[test]
fn one_signal_is_not_a_trend() {
    let changes = ResourceChanges {
        cpu: ChangeSignal { change_bits: 0, worsening: true, improving: false, anomaly: None },
        memory: ChangeSignal { change_bits: 0, worsening: false, improving: true, anomaly: None },
        disk: steady(),
    };
    let r = IntelligenceEngine::new().analyze(ResourceStatus::Healthy, ResourceStatus::Warning, ResourceStatus::Healthy, Some(changes));
    assert_eq!(r.trend, "STABLE");
    assert_eq!(r.recommendations.len(), 1);
}

#[test]
fn resource_recommendation_by_status() {
    let mut recs = Vec::new();
    add_resource_recommendation(&mut recs, "GPU", "CRITICAL", "Act now.", "Watch it.");
    add_resource_recommendation(&mut recs, "GPU", "WARNING", "Act now.", "Watch it.");
    add_resource_recommendation(&mut recs, "GPU", "HEALTHY", "Act now.", "Watch it.");
    assert_eq!(
        recs,
        vec![
            "GPU utilization is critically high. Act now.".to_string(),
            "GPU utilization is elevated. Watch it.".to_string(),
        ]
    );
}

#[test]
fn thresholds_and_labels() {
    assert_eq!(ResourceStatus::from_thresholds(true, true), ResourceStatus::Critical);
    assert_eq!(ResourceStatus::from_thresholds(true, false), ResourceStatus::Critical);
    assert_eq!(ResourceStatus::from_thresholds(false, true), ResourceStatus::Warning);
    assert_eq!(ResourceStatus::from_thresholds(false, false), ResourceStatus::Healthy);
    assert_eq!(ResourceStatus::Warning.to_label(), "WARNING");
    assert_eq!(default_trend(), "STABLE");
    let t = ThreatResult { detected: true, severity: "HIGH".to_string() };
    assert!(t.detected);
}

#[test]
fn ingested_rule_is_always_detected() {
    let mut shield = ThreatShield::with_bitmap_size(1024, 100);
    assert!(!shield.evaluate_threat("a1b2c3"));
    shield.ingest_hashed_rule("a1b2c3");
    assert!(shield.evaluate_threat("a1b2c3"));
    for i in 0..50 {
        shield.ingest_hashed_rule(&format!("rule-{i}"));
    }
    assert!(shield.evaluate_threat("a1b2c3"));
    assert!(shield.evaluate_threat("rule-17"));
}

#[test]
fn health_score_stays_between_ten_and_hundred() {
    let all = [ResourceStatus::Healthy, ResourceStatus::Warning, ResourceStatus::Critical];
    let engine = IntelligenceEngine::new();
    for cpu in all {
        for memory in all {
            for disk in all {
                let r = engine.analyze(cpu, memory, disk, None);
                assert!((10..=100).contains(&r.health_score));
                assert_eq!(r.health_score == 100, cpu == ResourceStatus::Healthy && memory == ResourceStatus::Healthy && disk == ResourceStatus::Healthy);
            }
        }
    }
}
