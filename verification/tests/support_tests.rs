use daemon_core::config::{validate_switches, ConfigError, ConfigStore, DaemonConfig};
use daemon_core::security::{assess, count_memory_heavy, is_memory_heavy};
use daemon_core::service::{plan_cycle, should_persist, CycleAction};
use daemon_core::history::HistoryTimer;
use daemon_core::telemetry::{disk_usage, DiskSpace};
use daemon_core::text::{is_whitespace, push_decimal, starts_with, str_eq, strip_repeated, trim};

#[test]
fn trim_matches_std() {
    for s in ["  hello \t\n", "", "   ", "a", "\u{3000}x y\u{85}", " \u{a0}mid dle\u{2028}"] {
        assert_eq!(trim(s), s.trim());
    }
    assert!(is_whitespace('\u{2009}'));
    assert!(!is_whitespace('x'));
}

#[test]
fn prefixes() {
    assert!(starts_with("process=foo", "process="));
    assert!(!starts_with("proc", "process="));
    assert_eq!(strip_repeated("process=process=foo", "process="), "foo");
    assert_eq!(strip_repeated("foo", "process="), "foo");
    assert_eq!(strip_repeated("foo", ""), "foo".trim_start_matches(""));
    assert!(str_eq("abc", "abc"));
    assert!(!str_eq("abc", "abd"));
}

#[test]
fn decimal_notation() {
    let mut s = "n=".to_string();
    push_decimal(&mut s, 0);
    assert_eq!(s, "n=0");
    let mut t = String::new();
    push_decimal(&mut t, u64::MAX);
    assert_eq!(t, u64::MAX.to_string());
    let mut u = String::new();
    push_decimal(&mut u, 1_700_000_123);
    assert_eq!(u, "1700000123");
}

#[test]
fn default_config_values() {
    let c = DaemonConfig::default();
    assert!(c.monitoring_enabled && c.intelligence_enabled && c.history_enabled);
    assert_eq!(c.history_interval_seconds, 60);
    assert_eq!(f32::from_bits(c.cpu_warning_percent_bits), 75.0);
    assert_eq!(f32::from_bits(c.cpu_critical_percent_bits), 90.0);
    assert_eq!(f32::from_bits(c.memory_warning_percent_bits), 80.0);
    assert_eq!(f32::from_bits(c.memory_critical_percent_bits), 90.0);
    assert_eq!(f32::from_bits(c.disk_warning_percent_bits), 85.0);
    assert_eq!(f32::from_bits(c.disk_critical_percent_bits), 95.0);
    assert_eq!(ConfigStore::new("data/config.json").path(), "data/config.json");
}

#[test]
fn config_switch_validation() {
    let mut c = DaemonConfig::default();
    assert_eq!(validate_switches(&c), Ok(()));
    c.monitoring_enabled = false;
    assert_eq!(validate_switches(&c), Err(ConfigError::IntelligenceWithoutMonitoring));
    c.intelligence_enabled = false;
    c.history_interval_seconds = 0;
    assert_eq!(validate_switches(&c), Err(ConfigError::ZeroHistoryInterval));
    assert_eq!(
        ConfigError::IntelligenceWithoutMonitoring.message(),
        "Intelligence cannot be enabled while monitoring is disabled."
    );
}

#[test]
fn security_scoring() {
    let s = assess(120, 0, 0);
    assert_eq!(s.security_score, 100);
    assert_eq!(s.status, "SECURE");
    assert_eq!(s.processes, 120);
    let s = assess(120, 3, 4);
    assert_eq!(s.security_score, 73);
    assert_eq!(s.status, "ELEVATED");
    let s = assess(120, 100, 100);
    assert_eq!(s.security_score, 50);
    assert_eq!(s.status, "AT RISK");
    assert_eq!(count_memory_heavy(&[0, 524_288_000, 524_287_999, u64::MAX]), 2);
    assert!(is_memory_heavy(500 * 1024 * 1024));
}

#[test]
fn cycle_planning() {
    assert_eq!(plan_cycle(None), CycleAction::Wait);
    let mut c = DaemonConfig::default();
    assert_eq!(plan_cycle(Some(&c)), CycleAction::Observe { analyze: true });
    c.intelligence_enabled = false;
    assert_eq!(plan_cycle(Some(&c)), CycleAction::Observe { analyze: false });
    c.monitoring_enabled = false;
    assert_eq!(plan_cycle(Some(&c)), CycleAction::Wait);
    let timer = HistoryTimer::new();
    let c = DaemonConfig::default();
    assert!(should_persist(&timer, &c, true, 60));
    assert!(!should_persist(&timer, &c, true, 59));
    assert!(!should_persist(&timer, &c, false, 600));
}

#[test]
fn disk_totals() {
    let disks = [
        DiskSpace { total_space: 100, available_space: 40 },
        DiskSpace { total_space: 50, available_space: 80 },
    ];
    assert_eq!(disk_usage(&disks), (60, 150));
    assert_eq!(disk_usage(&[]), (0, 0));
}
