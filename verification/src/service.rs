use vstd::prelude::*;
use crate::config::DaemonConfig;
use crate::history::HistoryTimer;

verus! {

/// What one cycle of the agent loop does.
#[derive(Clone, Copy, Debug, PartialEq, Eq, Structural)]
pub enum CycleAction {
    /// Sleep until the next cycle: the configuration could not be read, or
    /// monitoring is disabled.
    Wait,
    /// Take a snapshot, and assess it when `analyze` holds.
    Observe { analyze: bool },
}

/// The action of one cycle, given the configuration read for it (`None` when
/// it could not be read).
pub fn plan_cycle(config: Option<&DaemonConfig>) -> (r: CycleAction)
    ensures
        r == match config {
            None => CycleAction::Wait,
            Some(c) => if !c.monitoring_enabled {
                CycleAction::Wait
            } else {
                CycleAction::Observe { analyze: c.intelligence_enabled }
            },
        },
{
    match config {
        None => CycleAction::Wait,
        Some(c) => if !c.monitoring_enabled {
            CycleAction::Wait
        } else {
            CycleAction::Observe { analyze: c.intelligence_enabled }
        },
    }
}

/// Whether the cycle at `now` persists its assessment: history is enabled,
/// the snapshot was assessed, and the history interval has passed since the
/// last successful write.
pub fn should_persist(timer: &HistoryTimer, config: &DaemonConfig, analyzed: bool, now: u64) -> (r: bool)
    ensures
        r == (config.history_enabled && analyzed && timer.due(config.history_interval_seconds, now)),
{
    config.history_enabled && analyzed && timer.is_due(config.history_interval_seconds, now)
}

} // verus!
