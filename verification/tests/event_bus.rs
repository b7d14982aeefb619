use std::sync::Arc;

use ironclaw::db::sql::DatabaseError;
use ironclaw::event_bus::bus::EventBus;
use ironclaw::event_bus::event::{
    DomainEvent, EventCategory, EventContext, EventPayload, EventSource, StateChange, SystemEvent,
    TelemetryPayload,
};
use ironclaw::event_bus::sinks::audit_sink::{
    event_type_name, fallback_records, flush_batch, AuditSink, SinkInput, BATCH_SIZE,
};
use ironclaw::event_bus::sinks::metrics_sink::forward_if_metric;
use ironclaw::event_bus::sinks::plan::{spawn_sinks, SinkKind};
use ironclaw::event_bus::sinks::sse_sink::forward_if_domain;
use ironclaw::event_bus::sinks::state_sink::forward_if_state_change;
use ironclaw::json::{render, JsonValue};
use ironclaw::observability::prometheus::ObserverEvent;
use ironclaw::time::Timestamp;

fn transition() -> EventPayload {
    EventPayload::StateTransition {
        entity_type: "thread".to_string(),
        entity_id: "abc".to_string(),
        from_state: "Idle".to_string(),
        to_state: "Processing".to_string(),
        reason: None,
    }
}

fn heartbeat(bus: &mut EventBus, component: &str) -> SystemEvent {
    bus.emit_domain(
        EventSource::new("test", component),
        EventContext::empty(),
        DomainEvent::Heartbeat,
    )
}

#[test]
fn event_source_construction() {
    let source = EventSource::new("agent", "dispatcher");
    assert_eq!(source.module, "agent");
    assert_eq!(source.component, "dispatcher");
}

#[test]
fn event_context_builders() {
    let ctx = EventContext::empty();
    assert!(ctx.session_id.is_none());

    let job_id = uuid::Uuid::new_v4().as_u128();
    let ctx = EventContext::with_job(job_id);
    assert_eq!(ctx.job_id, Some(job_id));

    let sid = uuid::Uuid::new_v4().as_u128();
    let tid = uuid::Uuid::new_v4().as_u128();
    let ctx = EventContext::with_thread(sid, tid);
    assert_eq!(ctx.session_id, Some(sid));
    assert_eq!(ctx.thread_id, Some(tid));

    let ctx = EventContext::with_user("alice");
    assert_eq!(ctx.user_id.as_deref(), Some("alice"));
}

#[test]
fn payload_default_categories() {
    assert_eq!(
        EventPayload::Domain(DomainEvent::Heartbeat).default_category(),
        EventCategory::Ephemeral
    );
    assert_eq!(transition().default_category(), EventCategory::Audit);
    assert_eq!(
        EventPayload::Telemetry(TelemetryPayload::HeartbeatTick).default_category(),
        EventCategory::Metric
    );
}

#[test]
fn event_type_names() {
    assert_eq!(
        event_type_name(&EventPayload::StateTransition {
            entity_type: "t".to_string(),
            entity_id: "i".to_string(),
            from_state: "a".to_string(),
            to_state: "b".to_string(),
            reason: None,
        }),
        "state_transition"
    );
    assert_eq!(
        event_type_name(&EventPayload::ToolExecution {
            tool_name: "echo".to_string(),
            parameters_hash: "abc".to_string(),
            duration_ms: 10,
            success: true,
            error: None,
        }),
        "tool_execution"
    );
}

#[test]
fn emit_and_receive() {
    let mut bus = EventBus::new();
    let event = heartbeat(&mut bus, "unit");
    assert_eq!(event.id, 1);
    assert_eq!(event.category, EventCategory::Ephemeral);
    assert!(matches!(event.payload, EventPayload::Domain(DomainEvent::Heartbeat)));
    assert!(event.timestamp.is_valid());
    assert_eq!(bus.current_seq(), 2);
}

#[test]
fn monotonic_sequence() {
    let mut bus = EventBus::new();
    let mut last_id = 0;
    for _ in 0..5 {
        let event = heartbeat(&mut bus, "seq");
        assert!(event.id > last_id);
        assert_eq!(event.id, last_id + 1);
        last_id = event.id;
    }
}

#[test]
fn auto_category_from_payload() {
    let mut bus = EventBus::default();
    let event = bus.emit_auto(EventSource::new("test", "auto"), EventContext::empty(), transition());
    assert_eq!(event.category, EventCategory::Audit);
}

#[test]
fn emitters_fill_the_envelope() {
    let mut bus = EventBus::new();
    let change = bus.emit_state_change(StateChange::ConfigReloaded);
    assert_eq!(change.source.module, "system");
    assert_eq!(change.source.component, "state_bus");
    assert_eq!(change.category, EventCategory::StateChange);
    assert!(change.context.user_id.is_none());

    let moved = bus.emit_transition(
        EventSource::new("agent", "loop"),
        EventContext::with_user("bob"),
        "thread".to_string(),
        "t1".to_string(),
        "Idle".to_string(),
        "Done".to_string(),
        Some("finished".to_string()),
    );
    assert_eq!(moved.category, EventCategory::Audit);
    assert!(matches!(moved.payload, EventPayload::StateTransition { ref reason, .. } if reason.as_deref() == Some("finished")));

    let ran = bus.emit_tool_execution(
        EventSource::new("agent", "tools"),
        EventContext::empty(),
        "echo".to_string(),
        "ff".to_string(),
        12,
        false,
        Some("boom".to_string()),
    );
    assert_eq!(ran.category, EventCategory::Audit);
    assert!(matches!(ran.payload, EventPayload::ToolExecution { duration_ms: 12, success: false, .. }));

    let tick = bus.emit_telemetry(
        EventSource::new("agent", "beat"),
        EventContext::empty(),
        TelemetryPayload::HeartbeatTick,
    );
    assert_eq!(tick.category, EventCategory::Metric);
    assert_eq!(tick.id, 4);

    let at = Timestamp { secs: 5, nanos: 6 };
    let fixed = bus.emit_at(
        at,
        EventSource::new("a", "b"),
        EventCategory::Ephemeral,
        EventContext::empty(),
        EventPayload::AuthEvent { action: "login".to_string(), target: "x".to_string(), success: true },
    );
    assert_eq!(fixed.timestamp, at);
    assert_eq!(fixed.category, EventCategory::Ephemeral);
}

#[test]
fn forwards_domain_events() {
    let mut bus = EventBus::new();
    let event = heartbeat(&mut bus, "sse");
    assert!(matches!(forward_if_domain(&event), Some(DomainEvent::Heartbeat)));
}

#[test]
fn ignores_non_domain_events() {
    let mut bus = EventBus::new();
    let event = bus.emit_state_change(StateChange::ConfigReloaded);
    assert!(forward_if_domain(&event).is_none());
}

#[test]
fn forwards_state_changes() {
    let mut bus = EventBus::new();
    let event = bus.emit_state_change(StateChange::ConfigReloaded);
    assert!(matches!(forward_if_state_change(&event), Some(StateChange::ConfigReloaded)));
    let other = heartbeat(&mut bus, "state");
    assert!(forward_if_state_change(&other).is_none());
}

#[test]
fn forwards_telemetry_to_observer() {
    let mut bus = EventBus::new();
    let event = bus.emit_telemetry(
        EventSource::new("test", "metrics"),
        EventContext::empty(),
        TelemetryPayload::HeartbeatTick,
    );
    assert!(matches!(forward_if_metric(&event), Some(ObserverEvent::HeartbeatTick)));
}

#[test]
fn telemetry_needs_its_category() {
    let mut bus = EventBus::new();
    let call = TelemetryPayload::LlmCall {
        provider: "p".to_string(),
        model: "m".to_string(),
        duration_ms: 1234,
        tokens_used: Some(9),
        success: true,
    };
    let event = bus.emit_telemetry(EventSource::new("t", "m"), EventContext::empty(), call);
    match forward_if_metric(&event) {
        Some(ObserverEvent::LlmResponse { provider, model, duration, success, error_message }) => {
            assert_eq!(provider, "p");
            assert_eq!(model, "m");
            assert_eq!(duration.secs, 1);
            assert_eq!(duration.nanos, 234_000_000);
            assert!(success);
            assert!(error_message.is_none());
        }
        _ => panic!("expected a model response"),
    }
    let hidden = bus.emit(
        EventSource::new("t", "m"),
        EventCategory::Audit,
        EventContext::empty(),
        EventPayload::Telemetry(TelemetryPayload::HeartbeatTick),
    );
    assert!(forward_if_metric(&hidden).is_none());
    let plain = bus.emit(
        EventSource::new("t", "m"),
        EventCategory::Metric,
        EventContext::empty(),
        transition(),
    );
    assert!(forward_if_metric(&plain).is_none());
}

fn audit(bus: &mut EventBus) -> Arc<SystemEvent> {
    Arc::new(bus.emit_auto(EventSource::new("a", "b"), EventContext::with_user("u"), transition()))
}

#[test]
fn batches_flush_when_full() {
    let mut bus = EventBus::new();
    let mut sink = AuditSink::new();
    for _ in 0..BATCH_SIZE - 1 {
        let step = sink.step(SinkInput::Received(audit(&mut bus)));
        assert!(step.flush.is_none());
        assert!(!step.stop);
    }
    let skipped = Arc::new(heartbeat(&mut bus, "x"));
    assert!(sink.step(SinkInput::Received(skipped)).flush.is_none());
    assert!(sink.step(SinkInput::Lagged(3)).flush.is_none());
    let step = sink.step(SinkInput::Received(audit(&mut bus)));
    let written = step.flush.expect("a full batch");
    assert_eq!(written.len(), 32);
    assert_eq!(written[0].id, 1);
    assert_eq!(written[30].id, 31);
    assert_eq!(written[31].id, 33);
    assert!(sink.step(SinkInput::Tick).flush.is_none());
}

#[test]
fn partial_batches_flush_on_tick_and_close() {
    let mut bus = EventBus::new();
    let mut sink = AuditSink::new();
    sink.step(SinkInput::Received(audit(&mut bus)));
    sink.step(SinkInput::Received(audit(&mut bus)));
    let step = sink.step(SinkInput::Tick);
    let ids: Vec<u64> = step.flush.expect("waiting events").iter().map(|e| e.id).collect();
    assert_eq!(ids, vec![1, 2]);
    sink.step(SinkInput::Received(audit(&mut bus)));
    let step = sink.step(SinkInput::Closed);
    assert!(step.stop);
    assert_eq!(step.flush.expect("the rest").len(), 1);
    let step = sink.step(SinkInput::Closed);
    assert!(step.stop);
    assert!(step.flush.is_none());
}

#[test]
fn records_of_a_batch() {
    let mut bus = EventBus::new();
    let event = audit(&mut bus);
    let at = event.timestamp;
    let records = flush_batch(&vec![event], vec![JsonValue::Str("payload".to_string())]);
    assert_eq!(records.len(), 1);
    let r = &records[0];
    assert_eq!(r.event_id, 1);
    assert_eq!(r.event_type, "state_transition");
    assert_eq!(r.source_module, "a");
    assert_eq!(r.source_component, "b");
    assert_eq!(r.category, "Audit");
    assert_eq!(r.user_id.as_deref(), Some("u"));
    assert_eq!(r.session_id, None);
    assert_eq!(render(&r.payload), "\"payload\"");
    assert_eq!(r.created_at, at);
}

#[test]
fn refused_batches_go_to_the_fallback() {
    let mut bus = EventBus::new();
    let batch = vec![audit(&mut bus), audit(&mut bus), audit(&mut bus)];
    let payloads = |n: usize| vec![JsonValue::Null; n];
    let stored = flush_batch(&batch, payloads(3));
    assert!(fallback_records(&Ok(()), stored).is_empty());
    let refused = flush_batch(&batch, payloads(3));
    let answer = Err(DatabaseError::Query("locked".to_string()));
    let ids: Vec<u64> = fallback_records(&answer, refused).iter().map(|r| r.event_id).collect();
    assert_eq!(ids, [1, 2, 3]);
}

#[test]
fn sinks_start_in_order() {
    assert_eq!(
        spawn_sinks(true, true, true, true),
        vec![SinkKind::Sse, SinkKind::State, SinkKind::Metrics, SinkKind::Audit]
    );
    assert_eq!(spawn_sinks(false, true, false, true), vec![SinkKind::State, SinkKind::Audit]);
    assert!(spawn_sinks(false, false, false, false).is_empty());
}
