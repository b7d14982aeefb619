//! The bus: it stamps events with their sequence number and time.

use vstd::prelude::*;
use crate::engine::types::opt_text;
use crate::event_bus::event::{
    category_of, no_context, DomainEvent, EventCategory, EventContext, EventPayload, EventSource,
    SourceView, StateChange, SystemEvent, TelemetryPayload,
};
use crate::time::{now, Timestamp};

verus! {

broadcast use vstd::string::group_string_axioms;

/// How many events a subscriber may fall behind before it loses some.
pub const BUS_BUFFER: usize = 1024;

/// Numbers events in the order in which they are emitted, from 1 on.
#[derive(Debug)]
pub struct EventBus {
    seq: u64,
}

/// `event` carries exactly these parts.
pub open spec fn carries(
    event: SystemEvent,
    source: EventSource,
    category: EventCategory,
    context: EventContext,
    payload: EventPayload,
) -> bool {
    &&& event.source == source
    &&& event.category == category
    &&& event.context == context
    &&& event.payload == payload
}

impl EventBus {
    /// The number of the next event.
    pub closed spec fn next_id(self) -> u64 {
        self.seq
    }

    /// One event was emitted: it took the next number and a time of the
    /// calendar, and the counter moved on by one.
    pub open spec fn stamped(before: EventBus, after: EventBus, event: SystemEvent) -> bool {
        &&& event.id == before.next_id()
        &&& event.timestamp.valid()
        &&& after.next_id() == before.next_id().wrapping_add(1)
    }

    /// A bus that has emitted nothing.
    pub fn new() -> (r: EventBus)
        ensures
            r.next_id() == 1,
    {
        EventBus { seq: 1 }
    }

    /// The event that stands for this emission at time `at`.
    pub fn emit_at(
        &mut self,
        at: Timestamp,
        source: EventSource,
        category: EventCategory,
        context: EventContext,
        payload: EventPayload,
    ) -> (r: SystemEvent)
        ensures
            r.id == old(self).next_id(),
            r.timestamp == at,
            final(self).next_id() == old(self).next_id().wrapping_add(1),
            carries(r, source, category, context, payload),
    {
        let id: u64 = self.seq;
        self.seq = self.seq.wrapping_add(1);
        SystemEvent { id, timestamp: at, source, category, context, payload }
    }

    /// Emits an event under an explicit category.
    pub fn emit(
        &mut self,
        source: EventSource,
        category: EventCategory,
        context: EventContext,
        payload: EventPayload,
    ) -> (r: SystemEvent)
        ensures
            EventBus::stamped(*old(self), *final(self), r),
            carries(r, source, category, context, payload),
    {
        self.emit_at(now(), source, category, context, payload)
    }

    /// Emits an event under the category of its payload.
    pub fn emit_auto(
        &mut self,
        source: EventSource,
        context: EventContext,
        payload: EventPayload,
    ) -> (r: SystemEvent)
        ensures
            EventBus::stamped(*old(self), *final(self), r),
            carries(r, source, category_of(payload), context, payload),
    {
        let category = payload.default_category();
        self.emit(source, category, context, payload)
    }

    /// Emits a domain event.
    pub fn emit_domain(
        &mut self,
        source: EventSource,
        context: EventContext,
        event: DomainEvent,
    ) -> (r: SystemEvent)
        ensures
            EventBus::stamped(*old(self), *final(self), r),
            carries(r, source, EventCategory::Ephemeral, context, EventPayload::Domain(event)),
    {
        self.emit(source, EventCategory::Ephemeral, context, EventPayload::Domain(event))
    }

    /// Emits a change of state, from the system's state bus.
    pub fn emit_state_change(&mut self, change: StateChange) -> (r: SystemEvent)
        ensures
            EventBus::stamped(*old(self), *final(self), r),
            r.source@ == (SourceView { module: "system"@, component: "state_bus"@ }),
            r.category == EventCategory::StateChange,
            r.context@ == no_context(),
            r.payload == EventPayload::StateChange(change),
    {
        self.emit(
            EventSource::new("system", "state_bus"),
            EventCategory::StateChange,
            EventContext::empty(),
            EventPayload::StateChange(change),
        )
    }

    /// Emits a transition of a state machine.
    pub fn emit_transition(
        &mut self,
        source: EventSource,
        context: EventContext,
        entity_type: String,
        entity_id: String,
        from_state: String,
        to_state: String,
        reason: Option<String>,
    ) -> (r: SystemEvent)
        ensures
            EventBus::stamped(*old(self), *final(self), r),
            carries(
                r,
                source,
                EventCategory::Audit,
                context,
                (EventPayload::StateTransition {
                    entity_type,
                    entity_id,
                    from_state,
                    to_state,
                    reason,
                }),
            ),
    {
        self.emit(
            source,
            EventCategory::Audit,
            context,
            EventPayload::StateTransition { entity_type, entity_id, from_state, to_state, reason },
        )
    }

    /// Emits the record of a tool execution.
    pub fn emit_tool_execution(
        &mut self,
        source: EventSource,
        context: EventContext,
        tool_name: String,
        parameters_hash: String,
        duration_ms: u64,
        success: bool,
        error: Option<String>,
    ) -> (r: SystemEvent)
        ensures
            EventBus::stamped(*old(self), *final(self), r),
            carries(
                r,
                source,
                EventCategory::Audit,
                context,
                (EventPayload::ToolExecution {
                    tool_name,
                    parameters_hash,
                    duration_ms,
                    success,
                    error,
                }),
            ),
    {
        self.emit(
            source,
            EventCategory::Audit,
            context,
            EventPayload::ToolExecution { tool_name, parameters_hash, duration_ms, success, error },
        )
    }

    /// Emits telemetry.
    pub fn emit_telemetry(
        &mut self,
        source: EventSource,
        context: EventContext,
        telemetry: TelemetryPayload,
    ) -> (r: SystemEvent)
        ensures
            EventBus::stamped(*old(self), *final(self), r),
            carries(r, source, EventCategory::Metric, context, EventPayload::Telemetry(telemetry)),
    {
        self.emit(source, EventCategory::Metric, context, EventPayload::Telemetry(telemetry))
    }

    /// The number that the next event will get.
    pub fn current_seq(&self) -> (r: u64)
        ensures
            r == self.next_id(),
    {
        self.seq
    }
}

impl Default for EventBus {
    fn default() -> (r: Self)
        ensures
            r.next_id() == 1,
    {
        EventBus::new()
    }
}

// ── Laws ────────────────────────────────────────────────────

/// The states of a bus over a run of emissions, and the events it gave out.
pub open spec fn is_run(states: Seq<EventBus>, events: Seq<SystemEvent>) -> bool {
    &&& states.len() == events.len() + 1
    &&& forall|i: int|
        0 <= i < events.len() ==> EventBus::stamped(
            states[i],
            #[trigger] states[i + 1],
            events[i],
        )
}

proof fn lemma_ids_count_up(states: Seq<EventBus>, events: Seq<SystemEvent>, i: int)
    requires
        is_run(states, events),
        0 <= i <= events.len(),
        states[0].next_id() + events.len() <= u64::MAX,
    ensures
        states[i].next_id() == states[0].next_id() + i,
        i < events.len() ==> events[i].id == states[0].next_id() + i,
    decreases i,
{
    if i > 0 {
        lemma_ids_count_up(states, events, i - 1);
        assert(EventBus::stamped(states[i - 1], states[i - 1 + 1], events[i - 1]));
    }
    if i < events.len() {
        assert(EventBus::stamped(states[i], states[i + 1], events[i]));
    }
}

/// Events are numbered in the order of their emission, without gaps: a later
/// event has the greater number, for as long as the counter does not wrap.
pub proof fn law_sequence_is_monotonic(
    states: Seq<EventBus>,
    events: Seq<SystemEvent>,
    i: int,
    j: int,
)
    requires
        is_run(states, events),
        states[0].next_id() + events.len() <= u64::MAX,
        0 <= i < j < events.len(),
    ensures
        events[j].id - events[i].id == j - i,
        events[i].id < events[j].id,
{
    lemma_ids_count_up(states, events, i);
    lemma_ids_count_up(states, events, j);
}

/// A new bus gives its first event the number 1.
pub proof fn law_numbers_begin_at_one(bus: EventBus, r: u64)
    requires
        call_ensures(EventBus::new, (), bus),
        call_ensures(EventBus::current_seq, (&bus,), r),
    ensures
        r == 1,
{
}

/// An event carries what it was emitted with, and the number that the bus had
/// announced; the bus then announces the next number.
pub proof fn law_events_carry_their_parts(
    bus: &mut EventBus,
    at: Timestamp,
    source: EventSource,
    category: EventCategory,
    context: EventContext,
    payload: EventPayload,
    r: SystemEvent,
    before: u64,
    after: u64,
)
    requires
        call_ensures(EventBus::emit_at, (bus, at, source, category, context, payload), r),
        call_ensures(EventBus::current_seq, (&*old(bus),), before),
        call_ensures(EventBus::current_seq, (&*final(bus),), after),
    ensures
        r.id == before,
        before < u64::MAX ==> after == before + 1,
        before == u64::MAX ==> after == 0,
        r.timestamp == at,
        r.source == source && r.category == category && r.context == context,
        r.payload == payload,
{
}

/// Every way to emit takes the announced number and moves on by one.
pub proof fn law_every_emission_is_numbered(
    bus: &mut EventBus,
    source: EventSource,
    category: EventCategory,
    context: EventContext,
    payload: EventPayload,
    r: SystemEvent,
    before: u64,
    after: u64,
)
    requires
        call_ensures(EventBus::emit, (bus, source, category, context, payload), r),
        call_ensures(EventBus::current_seq, (&*old(bus),), before),
        call_ensures(EventBus::current_seq, (&*final(bus),), after),
    ensures
        r.id == before,
        before < u64::MAX ==> after == before + 1,
        r.source == source && r.category == category && r.context == context,
        r.payload == payload,
{
}

/// What is emitted without a category gets that of its kind: domain events are
/// transient, changes of state and telemetry have categories of their own, and
/// all others go to the audit log.
pub proof fn law_emissions_get_their_category(
    bus: &mut EventBus,
    source: EventSource,
    context: EventContext,
    payload: EventPayload,
    r: SystemEvent,
    before: u64,
)
    requires
        call_ensures(EventBus::emit_auto, (bus, source, context, payload), r),
        call_ensures(EventBus::current_seq, (&*old(bus),), before),
    ensures
        r.id == before,
        r.category is Ephemeral <==> payload is Domain,
        r.category is StateChange <==> payload is StateChange,
        r.category is Metric <==> payload is Telemetry,
        r.category is Audit <==> payload is StateTransition || payload is ToolExecution || payload
            is AuthEvent || payload is ConfigChange,
        r.source == source && r.context == context && r.payload == payload,
{
}

/// Domain events are emitted as transient ones.
pub proof fn law_domain_events_are_emitted(
    bus: &mut EventBus,
    source: EventSource,
    context: EventContext,
    event: DomainEvent,
    r: SystemEvent,
    before: u64,
)
    requires
        call_ensures(EventBus::emit_domain, (bus, source, context, event), r),
        call_ensures(EventBus::current_seq, (&*old(bus),), before),
    ensures
        r.id == before && r.category is Ephemeral && r.source == source && r.context == context,
        r.payload matches EventPayload::Domain(x) && x == event,
{
}

/// Changes of state come from the system's state bus and relate to nothing.
pub proof fn law_state_changes_are_emitted(
    bus: &mut EventBus,
    change: StateChange,
    r: SystemEvent,
    before: u64,
)
    requires
        call_ensures(EventBus::emit_state_change, (bus, change), r),
        call_ensures(EventBus::current_seq, (&*old(bus),), before),
    ensures
        r.id == before && r.category is StateChange,
        r.payload matches EventPayload::StateChange(x) && x == change,
        r.source.module@ == "system"@ && r.source.component@ == "state_bus"@,
        r.context.session_id is None && r.context.thread_id is None && r.context.job_id is None,
        r.context.user_id is None,
{
    assert(r.source@.module == r.source.module@ && r.source@.component == r.source.component@);
    assert(r.context@.session_id == r.context.session_id);
    assert(r.context@.user_id == opt_text(r.context.user_id));
}

/// Transitions go to the audit log, with both states and the reason.
pub proof fn law_transitions_are_emitted(
    bus: &mut EventBus,
    source: EventSource,
    context: EventContext,
    entity: (String, String),
    from: String,
    to: String,
    reason: Option<String>,
    r: SystemEvent,
    before: u64,
)
    requires
        call_ensures(
            EventBus::emit_transition,
            (bus, source, context, entity.0, entity.1, from, to, reason),
            r,
        ),
        call_ensures(EventBus::current_seq, (&*old(bus),), before),
    ensures
        r.id == before && r.category is Audit && r.source == source && r.context == context,
        r.payload matches EventPayload::StateTransition {
            entity_type,
            entity_id,
            from_state,
            to_state,
            reason: why,
        } && entity_type@ == entity.0@ && entity_id@ == entity.1@ && from_state@ == from@
            && to_state@ == to@ && why == reason,
{
}

/// Tool executions go to the audit log, with how long they took and how they
/// ended.
pub proof fn law_tool_executions_are_emitted(
    bus: &mut EventBus,
    source: EventSource,
    context: EventContext,
    tool: String,
    hash: String,
    duration: u64,
    ok: bool,
    cause: Option<String>,
    r: SystemEvent,
    before: u64,
)
    requires
        call_ensures(
            EventBus::emit_tool_execution,
            (bus, source, context, tool, hash, duration, ok, cause),
            r,
        ),
        call_ensures(EventBus::current_seq, (&*old(bus),), before),
    ensures
        r.id == before && r.category is Audit && r.source == source && r.context == context,
        r.payload matches EventPayload::ToolExecution {
            tool_name,
            parameters_hash,
            duration_ms,
            success,
            error,
        } && tool_name@ == tool@ && parameters_hash@ == hash@ && duration_ms == duration
            && success == ok && error == cause,
{
}

/// Telemetry is emitted as numbers.
pub proof fn law_telemetry_is_emitted(
    bus: &mut EventBus,
    source: EventSource,
    context: EventContext,
    telemetry: TelemetryPayload,
    r: SystemEvent,
    before: u64,
)
    requires
        call_ensures(EventBus::emit_telemetry, (bus, source, context, telemetry), r),
        call_ensures(EventBus::current_seq, (&*old(bus),), before),
    ensures
        r.id == before && r.category is Metric && r.source == source && r.context == context,
        r.payload matches EventPayload::Telemetry(x) && x == telemetry,
{
}

} // verus!
