use vstd::prelude::*;
use crate::config::{switches_error, validate_switches, DaemonConfig};
use crate::events::{is_settled, DaemonEvent, EventSource, EventStatus, EventView};
use crate::text::{decimal_spec, push_decimal, trim, trim_spec};

verus! {

/// How a refused request is answered.
#[derive(Clone, Copy, Debug, PartialEq, Eq, Structural)]
pub enum ApiStatus {
    BadRequest,
    NotFound,
    Conflict,
    ServiceUnavailable,
}

/// A refused request: its status and the explanation given.
#[derive(Clone, Debug)]
pub struct ApiError {
    pub status: ApiStatus,
    pub message: String,
}

fn refuse(status: ApiStatus, message: &str) -> (r: ApiError)
    ensures
        r.status == status,
        r.message@ == message@,
{
    ApiError { status, message: message.to_owned() }
}

/// The free texts that a request must not leave blank.
#[derive(Clone, Copy, Debug, PartialEq, Eq, Structural)]
pub enum RequiredText {
    EventName,
    VerificationOutcome,
    UpdateMessage,
    FailureReason,
}

impl RequiredText {
    pub open spec fn blank_message(self) -> Seq<char> {
        match self {
            RequiredText::EventName => "event name cannot be empty."@,
            RequiredText::VerificationOutcome => "verification outcome cannot be empty."@,
            RequiredText::UpdateMessage => "event update message cannot be empty."@,
            RequiredText::FailureReason => "failure reason cannot be empty."@,
        }
    }
}

/// The text trimmed of surrounding whitespace, refused as a bad request when
/// nothing is left.
pub fn required_text(text: &str, field: RequiredText) -> (r: Result<String, ApiError>)
    ensures
        match r {
            Ok(t) => t@ == trim_spec(text@) && trim_spec(text@).len() > 0,
            Err(e) => trim_spec(text@).len() == 0 && e.status == ApiStatus::BadRequest
                && e.message@ == field.blank_message(),
        },
{
    let trimmed = trim(text);
    if trimmed.is_empty() {
        let message = match field {
            RequiredText::EventName => "event name cannot be empty.",
            RequiredText::VerificationOutcome => "verification outcome cannot be empty.",
            RequiredText::UpdateMessage => "event update message cannot be empty.",
            RequiredText::FailureReason => "failure reason cannot be empty.",
        };
        Err(refuse(ApiStatus::BadRequest, message))
    } else {
        Ok(trimmed.to_owned())
    }
}

/// Checks the timing of a new event: a duration must be positive, and the
/// completion time must not overflow (it saturates, so it never does).
pub fn validate_schedule(scheduled_at: Option<u64>, expected_duration_seconds: Option<u64>) -> (r:
    Result<(), ApiError>)
    ensures
        match r {
            Ok(()) => expected_duration_seconds != Some(0u64),
            Err(e) => expected_duration_seconds == Some(0u64) && e.status == ApiStatus::BadRequest
                && e.message@ == "expected_duration_seconds must be greater than zero."@,
        },
{
    if let Some(duration) = expected_duration_seconds {
        if duration == 0 {
            return Err(
                refuse(ApiStatus::BadRequest, "expected_duration_seconds must be greater than zero."),
            );
        }
    }
    if let (Some(scheduled_at), Some(duration)) = (scheduled_at, expected_duration_seconds) {
        if scheduled_at.saturating_add(duration) < scheduled_at {
            return Err(refuse(ApiStatus::BadRequest, "event completion time overflowed."));
        }
    }
    Ok(())
}

/// The id of an event created at `secs` seconds and `nanos` nanoseconds past
/// the epoch, as the `sequence`-th event of the process.
pub open spec fn event_id_spec(secs: u64, nanos: u32, sequence: u64) -> Seq<char> {
    "evt-"@ + decimal_spec(secs as nat) + "-"@ + decimal_spec(nanos as nat) + "-"@ + decimal_spec(
        sequence as nat,
    )
}

/// Builds the id `evt-{secs}-{nanos}-{sequence}` of a new event.
pub fn event_id(secs: u64, nanos: u32, sequence: u64) -> (r: String)
    ensures
        r@ == event_id_spec(secs, nanos, sequence),
{
    let mut id = "evt-".to_owned();
    push_decimal(&mut id, secs);
    id.append("-");
    push_decimal(&mut id, nanos as u64);
    id.append("-");
    push_decimal(&mut id, sequence);
    id
}

/// Creates the event that a request describes: its name and description
/// trimmed of surrounding whitespace, stamped with the current time.
pub fn create_event(
    id: String,
    name: &str,
    description: &str,
    source: EventSource,
    scheduled_at: Option<u64>,
    expected_duration_seconds: Option<u64>,
) -> (e: DaemonEvent)
    ensures
        e@ == EventView::created(
            id@,
            trim_spec(name@),
            source,
            scheduled_at,
            expected_duration_seconds,
            e.updated_at,
        ).described(trim_spec(description@)),
{
    let trimmed_name = trim(name).to_owned();
    let mut event = DaemonEvent::new(id, trimmed_name, source, scheduled_at, expected_duration_seconds);
    event.description = trim(description).to_owned();
    event
}

/// Whether an event can no longer be started: it completed, or it was
/// verified, updated, failed or cancelled.
pub open spec fn start_refused(e: EventView) -> bool {
    e.completed_at is Some || is_settled(e.status)
}

/// Starts an event now, unless it reached a terminal state.
pub fn start_event(event: &mut DaemonEvent) -> (r: Result<(), ApiError>)
    ensures
        match r {
            Ok(()) => !start_refused(old(event)@) && final(event)@ == old(event)@.started(
                final(event).updated_at,
            ),
            Err(e) => start_refused(old(event)@) && final(event)@ == old(event)@ && e.status
                == ApiStatus::Conflict && e.message@ == "event has already reached a terminal state."@,
        },
{
    if event.completed_at.is_some() || matches!(
        event.status,
        EventStatus::Verified | EventStatus::Updated | EventStatus::Failed | EventStatus::Cancelled
    ) {
        return Err(refuse(ApiStatus::Conflict, "event has already reached a terminal state."));
    }
    event.start();
    Ok(())
}

/// A change that only an event not yet completed accepts.
#[derive(Clone, Copy, Debug, PartialEq, Eq, Structural)]
pub enum OpenEventChange {
    /// Monitor the given number of signals.
    Monitor { signals: u32 },
    /// Record that the expected completion was reached.
    ExpectCompletion,
    /// Mark the event missed.
    MarkMissed,
}

impl OpenEventChange {
    /// The event after the change at `now`.
    pub open spec fn applied(self, e: EventView, now: u64) -> EventView {
        match self {
            OpenEventChange::Monitor { signals } => e.monitoring(signals, now),
            OpenEventChange::ExpectCompletion => e.expecting_completion(now),
            OpenEventChange::MarkMissed => e.missed(now),
        }
    }

    /// Why a completed event refuses the change.
    pub open spec fn refusal(self) -> Seq<char> {
        match self {
            OpenEventChange::Monitor { .. } => "cannot monitor a completed event."@,
            OpenEventChange::ExpectCompletion => "event has already completed."@,
            OpenEventChange::MarkMissed => "completed events cannot be marked missed."@,
        }
    }
}

/// Applies a change to an event now, unless the event has completed.
pub fn change_open_event(event: &mut DaemonEvent, change: OpenEventChange) -> (r: Result<(), ApiError>)
    ensures
        match r {
            Ok(()) => old(event).completed_at is None && final(event)@ == change.applied(
                old(event)@,
                final(event).updated_at,
            ),
            Err(e) => old(event).completed_at is Some && final(event)@ == old(event)@ && e.status
                == ApiStatus::Conflict && e.message@ == change.refusal(),
        },
{
    if event.completed_at.is_some() {
        let message = match change {
            OpenEventChange::Monitor { .. } => "cannot monitor a completed event.",
            OpenEventChange::ExpectCompletion => "event has already completed.",
            OpenEventChange::MarkMissed => "completed events cannot be marked missed.",
        };
        return Err(refuse(ApiStatus::Conflict, message));
    }
    match change {
        OpenEventChange::Monitor { signals } => event.begin_monitoring(signals),
        OpenEventChange::ExpectCompletion => event.mark_expected_completion(),
        OpenEventChange::MarkMissed => event.mark_missed(),
    }
    Ok(())
}

/// The answer to a request for an event that does not exist.
pub fn not_found(id: &str) -> (r: ApiError)
    ensures
        r.status == ApiStatus::NotFound,
        r.message@ == "event '"@ + id@ + "' was not found."@,
{
    let mut message = "event '".to_owned();
    message.append(id);
    message.append("' was not found.");
    ApiError { status: ApiStatus::NotFound, message }
}

/// Whether fresh telemetry may be served: only while monitoring is enabled.
pub fn telemetry_available(config: &DaemonConfig) -> (r: Result<(), ApiError>)
    ensures
        match r {
            Ok(()) => config.monitoring_enabled,
            Err(e) => !config.monitoring_enabled && e.status == ApiStatus::ServiceUnavailable
                && e.message@ == "Daemon monitoring is disabled."@,
        },
{
    if !config.monitoring_enabled {
        return Err(refuse(ApiStatus::ServiceUnavailable, "Daemon monitoring is disabled."));
    }
    Ok(())
}

/// Whether an assessment may be served: monitoring and intelligence must both
/// be enabled, monitoring checked first.
pub fn intelligence_available(config: &DaemonConfig) -> (r: Result<(), ApiError>)
    ensures
        match r {
            Ok(()) => config.monitoring_enabled && config.intelligence_enabled,
            Err(e) => e.status == ApiStatus::ServiceUnavailable && if !config.monitoring_enabled {
                e.message@ == "Daemon monitoring is disabled."@
            } else {
                !config.intelligence_enabled && e.message@ == "Daemon intelligence is disabled."@
            },
        },
{
    telemetry_available(config)?;
    if !config.intelligence_enabled {
        return Err(refuse(ApiStatus::ServiceUnavailable, "Daemon intelligence is disabled."));
    }
    Ok(())
}

/// Checks the switches and the history interval of a configuration sent to
/// be saved; a refusal is a bad request.
pub fn check_config_switches(config: &DaemonConfig) -> (r: Result<(), ApiError>)
    ensures
        match r {
            Ok(()) => switches_error(*config) is None,
            Err(e) => e.status == ApiStatus::BadRequest && switches_error(*config) is Some
                && e.message@ == switches_error(*config)->0.message_spec(),
        },
{
    match validate_switches(config) {
        Ok(()) => Ok(()),
        Err(c) => Err(ApiError { status: ApiStatus::BadRequest, message: c.message() }),
    }
}

} // verus!
