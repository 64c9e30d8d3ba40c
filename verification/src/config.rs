use vstd::prelude::*;

verus! {

/// The daemon's settings.
///
/// Each `*_percent_bits` field holds the IEEE-754 bit pattern (`f32::to_bits`)
/// of a threshold in percent.
#[derive(Clone, Copy, Debug)]
pub struct DaemonConfig {
    pub monitoring_enabled: bool,
    pub intelligence_enabled: bool,
    pub history_enabled: bool,
    pub history_interval_seconds: u64,
    pub cpu_warning_percent_bits: u32,
    pub cpu_critical_percent_bits: u32,
    pub memory_warning_percent_bits: u32,
    pub memory_critical_percent_bits: u32,
    pub disk_warning_percent_bits: u32,
    pub disk_critical_percent_bits: u32,
}

/// The bit patterns of the default thresholds: 75, 90, 80, 90, 85 and 95
/// percent.
pub const CPU_WARNING_DEFAULT_BITS: u32 = 0x4296_0000u32;
pub const CPU_CRITICAL_DEFAULT_BITS: u32 = 0x42b4_0000u32;
pub const MEMORY_WARNING_DEFAULT_BITS: u32 = 0x42a0_0000u32;
pub const MEMORY_CRITICAL_DEFAULT_BITS: u32 = 0x42b4_0000u32;
pub const DISK_WARNING_DEFAULT_BITS: u32 = 0x42aa_0000u32;
pub const DISK_CRITICAL_DEFAULT_BITS: u32 = 0x42be_0000u32;

impl Default for DaemonConfig {
    /// Everything enabled, history every minute, the default thresholds.
    fn default() -> (r: Self)
        ensures
            r.monitoring_enabled && r.intelligence_enabled && r.history_enabled,
            r.history_interval_seconds == 60,
            r.cpu_warning_percent_bits == CPU_WARNING_DEFAULT_BITS,
            r.cpu_critical_percent_bits == CPU_CRITICAL_DEFAULT_BITS,
            r.memory_warning_percent_bits == MEMORY_WARNING_DEFAULT_BITS,
            r.memory_critical_percent_bits == MEMORY_CRITICAL_DEFAULT_BITS,
            r.disk_warning_percent_bits == DISK_WARNING_DEFAULT_BITS,
            r.disk_critical_percent_bits == DISK_CRITICAL_DEFAULT_BITS,
    {
        DaemonConfig {
            monitoring_enabled: true,
            intelligence_enabled: true,
            history_enabled: true,
            history_interval_seconds: 60,
            cpu_warning_percent_bits: CPU_WARNING_DEFAULT_BITS,
            cpu_critical_percent_bits: CPU_CRITICAL_DEFAULT_BITS,
            memory_warning_percent_bits: MEMORY_WARNING_DEFAULT_BITS,
            memory_critical_percent_bits: MEMORY_CRITICAL_DEFAULT_BITS,
            disk_warning_percent_bits: DISK_WARNING_DEFAULT_BITS,
            disk_critical_percent_bits: DISK_CRITICAL_DEFAULT_BITS,
        }
    }
}

/// The location of the configuration file.
pub struct ConfigStore {
    path: String,
}

impl ConfigStore {
    pub fn new(path: &str) -> (r: Self)
        ensures
            r.path_view() == path@,
    {
        ConfigStore { path: path.to_owned() }
    }

    pub closed spec fn path_view(&self) -> Seq<char> {
        self.path@
    }

    /// Where the configuration is kept.
    pub fn path(&self) -> (r: &str)
        ensures
            r@ == self.path_view(),
    {
        self.path.as_str()
    }
}

/// A configuration whose switches contradict each other or whose history
/// interval is empty.
#[derive(Clone, Copy, Debug, PartialEq, Eq, Structural)]
pub enum ConfigError {
    IntelligenceWithoutMonitoring,
    ZeroHistoryInterval,
}

impl ConfigError {
    pub open spec fn message_spec(self) -> Seq<char> {
        match self {
            ConfigError::IntelligenceWithoutMonitoring => "Intelligence cannot be enabled while monitoring is disabled."@,
            ConfigError::ZeroHistoryInterval => "history_interval_seconds must be greater than zero."@,
        }
    }

    /// The explanation given to the user.
    pub fn message(&self) -> (r: String)
        ensures
            r@ == self.message_spec(),
    {
        match self {
            ConfigError::IntelligenceWithoutMonitoring => "Intelligence cannot be enabled while monitoring is disabled.".to_owned(),
            ConfigError::ZeroHistoryInterval => "history_interval_seconds must be greater than zero.".to_owned(),
        }
    }
}

/// What is wrong with the switches and the history interval of a
/// configuration, checked in that order: intelligence needs monitoring, and
/// the interval must be positive.
pub open spec fn switches_error(config: DaemonConfig) -> Option<ConfigError> {
    if !config.monitoring_enabled && config.intelligence_enabled {
        Some(ConfigError::IntelligenceWithoutMonitoring)
    } else if config.history_interval_seconds == 0 {
        Some(ConfigError::ZeroHistoryInterval)
    } else {
        None
    }
}

/// Checks the switches and the history interval of a configuration.
pub fn validate_switches(config: &DaemonConfig) -> (r: Result<(), ConfigError>)
    ensures
        match switches_error(*config) {
            Some(c) => r == Err::<(), ConfigError>(c),
            None => r == Ok::<(), ConfigError>(()),
        },
{
    if !config.monitoring_enabled && config.intelligence_enabled {
        return Err(ConfigError::IntelligenceWithoutMonitoring);
    }
    if config.history_interval_seconds == 0 {
        return Err(ConfigError::ZeroHistoryInterval);
    }
    Ok(())
}

} // verus!
