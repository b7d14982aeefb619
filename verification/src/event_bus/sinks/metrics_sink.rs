//! The metrics sink takes telemetry and hands it to an observer.

use vstd::prelude::*;
use crate::event_bus::event::{EventCategory, EventPayload, SystemEvent, TelemetryPayload};
use crate::observability::prometheus::ObserverEvent;
use crate::time::Duration;

verus! {

broadcast use vstd::string::group_string_axioms;

/// `observed` reports this telemetry.
pub open spec fn reports(observed: ObserverEvent, telemetry: TelemetryPayload) -> bool {
    match telemetry {
        TelemetryPayload::LlmCall { provider, model, duration_ms, tokens_used, success } => {
            observed matches ObserverEvent::LlmResponse {
                provider: p,
                model: m,
                duration: d,
                success: s,
                error_message: e,
            } && p@ == provider@ && m@ == model@ && d.secs == duration_ms / 1000 && d.nanos == (
            duration_ms % 1000) * 1_000_000 && s == success && e is None
        },
        TelemetryPayload::ChannelMessage { channel, direction } => {
            observed matches ObserverEvent::ChannelMessage { channel: c, direction: d } && c@
                == channel@ && d@ == direction@
        },
        TelemetryPayload::HeartbeatTick => observed == ObserverEvent::HeartbeatTick,
    }
}

/// What the observer is told of an event: telemetry under the metric
/// category, and nothing of any other event.
pub fn forward_if_metric(event: &SystemEvent) -> (r: Option<ObserverEvent>)
    ensures
        r is Some == (event.category == EventCategory::Metric && event.payload is Telemetry),
        r is Some ==> reports(r->0, event.payload->Telemetry_0),
{
    if event.category != EventCategory::Metric {
        return None;
    }
    match &event.payload {
        EventPayload::Telemetry(telemetry) => match telemetry {
            TelemetryPayload::LlmCall { provider, model, duration_ms, success, .. } => Some(
                ObserverEvent::LlmResponse {
                    provider: provider.clone(),
                    model: model.clone(),
                    duration: Duration::from_millis(*duration_ms),
                    success: *success,
                    error_message: None,
                },
            ),
            TelemetryPayload::ChannelMessage { channel, direction } => Some(
                ObserverEvent::ChannelMessage {
                    channel: channel.clone(),
                    direction: direction.clone(),
                },
            ),
            TelemetryPayload::HeartbeatTick => Some(ObserverEvent::HeartbeatTick),
        },
        _ => None,
    }
}

// ── Laws ────────────────────────────────────────────────────

/// The observer hears of telemetry under the metric category and of nothing
/// else; of a model call it hears who answered, how long it took, to the
/// millisecond, and whether it went well.
pub proof fn law_metrics_are_forwarded(event: SystemEvent, r: Option<ObserverEvent>)
    requires
        call_ensures(forward_if_metric, (&event,), r),
    ensures
        r is Some <==> event.category is Metric && event.payload is Telemetry,
        r matches Some(seen) ==> {
            let told = event.payload->Telemetry_0;
            &&& told matches TelemetryPayload::LlmCall {
                provider,
                model,
                duration_ms,
                tokens_used,
                success,
            } ==> (seen matches ObserverEvent::LlmResponse {
                provider: p,
                model: m,
                duration: d,
                success: s,
                error_message: e,
            } && p@ == provider@ && m@ == model@ && s == success && e is None && d.secs * 1000
                + d.nanos / 1_000_000 == duration_ms && d.nanos % 1_000_000 == 0 && d.nanos
                < 1_000_000_000)
            &&& told matches TelemetryPayload::ChannelMessage { channel, direction } ==> (
            seen matches ObserverEvent::ChannelMessage { channel: c, direction: d } && c@
                == channel@ && d@ == direction@)
            &&& told is HeartbeatTick ==> seen is HeartbeatTick
        },
{
}

} // verus!
