//! The audit sink: it gathers audit events and writes them in batches.

use std::sync::Arc;
use vstd::prelude::*;
use crate::db::audit::{AuditRecord, RecordView};
use crate::db::sql::DatabaseError;
use crate::engine::types::{copy_opt_text, opt_text};
use crate::event_bus::event::{category_name, EventCategory, EventPayload, SystemEvent};
use crate::json::JsonValue;

verus! {

broadcast use vstd::string::group_string_axioms;

/// A batch of this many events is written at once.
pub const BATCH_SIZE: usize = 32;

/// A partial batch waits at most this long, in milliseconds.
pub const FLUSH_INTERVAL_MS: u64 = 500;

/// What reaches the sink.
pub enum SinkInput {
    /// An event from the bus.
    Received(Arc<SystemEvent>),
    /// The sink fell behind and lost this many events.
    Lagged(u64),
    /// The bus is gone.
    Closed,
    /// The flush timer fired.
    Tick,
}

/// What the sink does next.
pub struct SinkStep {
    /// Events to write now.
    pub flush: Option<Vec<Arc<SystemEvent>>>,
    /// Whether the sink ends.
    pub stop: bool,
}

/// The audit event that an input brings, if it brings one.
pub open spec fn audit_events(input: SinkInput) -> Seq<Arc<SystemEvent>> {
    match input {
        SinkInput::Received(event) => if event.category == EventCategory::Audit {
            seq![event]
        } else {
            seq![]
        },
        _ => seq![],
    }
}

/// The events that a step writes.
pub open spec fn written(step: SinkStep) -> Seq<Arc<SystemEvent>> {
    match step.flush {
        Some(events) => events@,
        None => seq![],
    }
}

/// The events that wait to be written.
pub struct AuditSink {
    batch: Vec<Arc<SystemEvent>>,
}

impl AuditSink {
    /// The waiting events, oldest first.
    pub closed spec fn waiting(self) -> Seq<Arc<SystemEvent>> {
        self.batch@
    }

    /// A full batch never waits.
    pub open spec fn wf(self) -> bool {
        self.waiting().len() < BATCH_SIZE
    }

    /// The waiting events are written on this input.
    pub open spec fn flushes(self, input: SinkInput) -> bool {
        match input {
            SinkInput::Received(event) => event.category == EventCategory::Audit
                && self.waiting().len() + 1 >= BATCH_SIZE,
            SinkInput::Lagged(_) => false,
            SinkInput::Closed => self.waiting().len() > 0,
            SinkInput::Tick => self.waiting().len() > 0,
        }
    }

    /// A sink with nothing waiting.
    pub fn new() -> (r: AuditSink)
        ensures
            r.wf(),
            r.waiting() == Seq::<Arc<SystemEvent>>::empty(),
    {
        AuditSink { batch: Vec::new() }
    }

    fn take(&mut self) -> (r: Vec<Arc<SystemEvent>>)
        ensures
            r@ == old(self).waiting(),
            final(self).waiting() == Seq::<Arc<SystemEvent>>::empty(),
    {
        let mut out: Vec<Arc<SystemEvent>> = Vec::new();
        std::mem::swap(&mut out, &mut self.batch);
        out
    }

    /// Takes one input: an audit event joins the batch, and the batch is
    /// written when it is full, when the timer fires and when the bus closes.
    pub fn step(&mut self, input: SinkInput) -> (r: SinkStep)
        requires
            old(self).wf(),
        ensures
            final(self).wf(),
            r.stop == (input is Closed),
            r.flush is Some == old(self).flushes(input),
            r.flush is Some ==> written(r) == old(self).waiting() + audit_events(input)
                && final(self).waiting() == Seq::<Arc<SystemEvent>>::empty(),
            r.flush is None ==> final(self).waiting() == old(self).waiting() + audit_events(input),
    {
        match input {
            SinkInput::Received(event) => {
                if event.category == EventCategory::Audit {
                    self.batch.push(event);
                    assert(self.batch@ =~= old(self).waiting() + seq![event]);
                    if self.batch.len() >= BATCH_SIZE {
                        return SinkStep { flush: Some(self.take()), stop: false };
                    }
                }
                assert(self.waiting() =~= old(self).waiting() + audit_events(input));
                SinkStep { flush: None, stop: false }
            },
            SinkInput::Lagged(_) => {
                assert(self.waiting() =~= old(self).waiting() + audit_events(input));
                SinkStep { flush: None, stop: false }
            },
            SinkInput::Closed => {
                assert(self.waiting() =~= old(self).waiting() + audit_events(input));
                if self.batch.len() > 0 {
                    SinkStep { flush: Some(self.take()), stop: true }
                } else {
                    SinkStep { flush: None, stop: true }
                }
            },
            SinkInput::Tick => {
                assert(self.waiting() =~= old(self).waiting() + audit_events(input));
                if self.batch.len() > 0 {
                    SinkStep { flush: Some(self.take()), stop: false }
                } else {
                    SinkStep { flush: None, stop: false }
                }
            },
        }
    }
}

/// The short name of a payload's kind.
pub open spec fn payload_label(payload: EventPayload) -> Seq<char> {
    match payload {
        EventPayload::Domain(_) => "domain"@,
        EventPayload::StateChange(_) => "state_change"@,
        EventPayload::Telemetry(_) => "telemetry"@,
        EventPayload::StateTransition { .. } => "state_transition"@,
        EventPayload::ToolExecution { .. } => "tool_execution"@,
        EventPayload::AuthEvent { .. } => "auth_event"@,
        EventPayload::ConfigChange { .. } => "config_change"@,
    }
}

/// The short name by which the audit log finds events of this kind.
pub fn event_type_name(payload: &EventPayload) -> (r: String)
    ensures
        r@ == payload_label(*payload),
{
    match payload {
        EventPayload::Domain(_) => "domain".to_string(),
        EventPayload::StateChange(_) => "state_change".to_string(),
        EventPayload::Telemetry(_) => "telemetry".to_string(),
        EventPayload::StateTransition { .. } => "state_transition".to_string(),
        EventPayload::ToolExecution { .. } => "tool_execution".to_string(),
        EventPayload::AuthEvent { .. } => "auth_event".to_string(),
        EventPayload::ConfigChange { .. } => "config_change".to_string(),
    }
}

/// The audit record of an event whose payload has this JSON form.
pub open spec fn record_of_event(e: SystemEvent, payload: JsonValue) -> RecordView {
    RecordView {
        event_id: e.id,
        event_type: payload_label(e.payload),
        source_module: e.source.module@,
        source_component: e.source.component@,
        category: category_name(e.category),
        session_id: e.context.session_id,
        thread_id: e.context.thread_id,
        job_id: e.context.job_id,
        user_id: opt_text(e.context.user_id),
        payload: payload@,
        created_at: e.timestamp,
    }
}

/// The records of a batch, one for each event in its order. `payloads` holds
/// the JSON forms of the events' payloads.
pub fn flush_batch(batch: &Vec<Arc<SystemEvent>>, payloads: Vec<JsonValue>) -> (r: Vec<
    AuditRecord,
>)
    requires
        batch.len() == payloads.len(),
    ensures
        r.len() == batch.len(),
        forall|i: int|
            0 <= i < batch.len() ==> (#[trigger] r@[i])@ == record_of_event(
                *batch@[i],
                payloads@[i],
            ),
{
    let mut records: Vec<AuditRecord> = Vec::new();
    let mut i: usize = 0;
    while i < batch.len()
        invariant
            i <= batch.len(),
            batch.len() == payloads.len(),
            records.len() == i,
            forall|k: int|
                0 <= k < i ==> (#[trigger] records@[k])@ == record_of_event(
                    *batch@[k],
                    payloads@[k],
                ),
        decreases batch.len() - i,
    {
        let e = &batch[i];
        records.push(
            AuditRecord {
                event_id: e.id,
                event_type: event_type_name(&e.payload),
                source_module: e.source.module.clone(),
                source_component: e.source.component.clone(),
                category: e.category.name().to_string(),
                session_id: e.context.session_id,
                thread_id: e.context.thread_id,
                job_id: e.context.job_id,
                user_id: copy_opt_text(&e.context.user_id),
                payload: payloads[i].clone(),
                created_at: e.timestamp,
            },
        );
        i += 1;
    }
    records
}

/// What the store holds of a batch after it took or refused it.
pub open spec fn in_store<T>(stored: bool, records: Seq<T>) -> Seq<T> {
    if stored {
        records
    } else {
        seq![]
    }
}

/// What the fallback file is owed of a batch: nothing where the store took it,
/// all of it, in order, where the store refused it.
pub open spec fn in_fallback<T>(stored: bool, records: Seq<T>) -> Seq<T> {
    if stored {
        seq![]
    } else {
        records
    }
}

/// The records that are still to be appended to the fallback file, a line for
/// each in this order, after the store gave its answer to the batch.
pub fn fallback_records(answer: &Result<(), DatabaseError>, records: Vec<AuditRecord>) -> (r: Vec<
    AuditRecord,
>)
    ensures
        r@ == in_fallback(answer is Ok, records@),
{
    match answer {
        Ok(_) => Vec::new(),
        Err(_) => records,
    }
}

// ── Laws ────────────────────────────────────────────────────

/// What a sink wrote over a run, and what waits at its end.
pub open spec fn sink_run(
    sinks: Seq<AuditSink>,
    inputs: Seq<SinkInput>,
    steps: Seq<SinkStep>,
) -> bool {
    &&& sinks.len() == inputs.len() + 1
    &&& steps.len() == inputs.len()
    &&& forall|i: int| 0 <= i < inputs.len() ==> step_holds(sinks, inputs, steps, i)
}

/// Step `i` of a run is what `AuditSink::step` does.
pub open spec fn step_holds(
    sinks: Seq<AuditSink>,
    inputs: Seq<SinkInput>,
    steps: Seq<SinkStep>,
    i: int,
) -> bool {
    &&& steps[i].flush is Some == sinks[i].flushes(inputs[i])
    &&& steps[i].flush is Some ==> written(steps[i]) == sinks[i].waiting() + audit_events(inputs[i])
        && sinks[i + 1].waiting() == Seq::<Arc<SystemEvent>>::empty()
    &&& steps[i].flush is None ==> sinks[i + 1].waiting() == sinks[i].waiting() + audit_events(
        inputs[i],
    )
}

/// All audit events among the inputs, in order.
pub open spec fn all_audit_events(inputs: Seq<SinkInput>) -> Seq<Arc<SystemEvent>>
    decreases inputs.len(),
{
    if inputs.len() == 0 {
        seq![]
    } else {
        all_audit_events(inputs.drop_last()) + audit_events(inputs.last())
    }
}

/// All events that the steps wrote, in order.
pub open spec fn all_written(steps: Seq<SinkStep>) -> Seq<Arc<SystemEvent>>
    decreases steps.len(),
{
    if steps.len() == 0 {
        seq![]
    } else {
        all_written(steps.drop_last()) + written(steps.last())
    }
}

/// No audit event is lost, doubled or moved: what was written, followed by
/// what waits, is what waited at first followed by every audit event received.
pub proof fn law_no_audit_event_is_lost(
    sinks: Seq<AuditSink>,
    inputs: Seq<SinkInput>,
    steps: Seq<SinkStep>,
)
    requires
        sink_run(sinks, inputs, steps),
    ensures
        all_written(steps) + sinks.last().waiting() == sinks[0].waiting() + all_audit_events(
            inputs,
        ),
    decreases inputs.len(),
{
    if inputs.len() == 0 {
        assert(all_written(steps) + sinks.last().waiting() =~= sinks[0].waiting()
            + all_audit_events(inputs));
    } else {
        let n = inputs.len() - 1;
        let s = sinks.drop_last();
        let x = inputs.drop_last();
        let t = steps.drop_last();
        assert forall|i: int| 0 <= i < x.len() implies step_holds(s, x, t, i) by {
            assert(step_holds(sinks, inputs, steps, i));
        }
        law_no_audit_event_is_lost(s, x, t);
        assert(step_holds(sinks, inputs, steps, n));
        assert(all_written(steps) + sinks.last().waiting() =~= (all_written(t)
            + s.last().waiting()) + audit_events(inputs.last()));
        assert(sinks[0].waiting() + all_audit_events(inputs) =~= (sinks[0].waiting()
            + all_audit_events(x)) + audit_events(inputs.last()));
    }
}

/// No audit record is lost: whatever the store answers, the store and the
/// fallback file together hold the record of each event of the batch, in order.
pub proof fn law_no_audit_record_is_lost(
    batch: Seq<Arc<SystemEvent>>,
    payloads: Seq<JsonValue>,
    records: Seq<AuditRecord>,
    stored: bool,
)
    requires
        records.len() == batch.len(),
        forall|i: int|
            0 <= i < batch.len() ==> (#[trigger] records[i])@ == record_of_event(
                *batch[i],
                payloads[i],
            ),
    ensures
        in_store(stored, records).len() + in_fallback(stored, records).len() == batch.len(),
        forall|i: int|
            0 <= i < batch.len() ==> (#[trigger] (in_store(stored, records) + in_fallback(
                stored,
                records,
            ))[i])@ == record_of_event(*batch[i], payloads[i]),
{
    assert(in_store(stored, records) + in_fallback(stored, records) =~= records);
}

/// After the timer fired or the bus closed, nothing waits.
pub proof fn law_nothing_waits_after_a_flush(
    sinks: Seq<AuditSink>,
    inputs: Seq<SinkInput>,
    steps: Seq<SinkStep>,
)
    requires
        sink_run(sinks, inputs, steps),
        inputs.len() > 0,
        inputs.last() is Tick || inputs.last() is Closed,
    ensures
        sinks.last().waiting() == Seq::<Arc<SystemEvent>>::empty(),
{
    let n = inputs.len() - 1;
    assert(step_holds(sinks, inputs, steps, n));
    assert(sinks[n].waiting() + audit_events(inputs[n]) =~= sinks[n].waiting());
}

/// An audit event joins those that wait; any other event changes nothing. The
/// thirty-second event that waits is written together with the others, in their
/// order; the timer and the end of the bus write whatever waits, and only the
/// end of the bus ends the sink.
pub proof fn law_audit_events_are_gathered(sink: &mut AuditSink, input: SinkInput, r: SinkStep)
    requires
        old(sink).waiting().len() < 32,
        call_ensures(AuditSink::step, (sink, input), r),
    ensures
        r.stop <==> input is Closed,
        final(sink).waiting().len() < 32,
        input matches SinkInput::Received(event) ==> {
            let all = old(sink).waiting().push(event);
            &&& !(event.category is Audit) ==> r.flush is None && final(sink).waiting() == old(sink).waiting()
            &&& event.category is Audit && all.len() < 32 ==> r.flush is None && final(sink).waiting() == all
            &&& event.category is Audit && all.len() == 32 ==> (r.flush matches Some(events)
                && events@ == all) && final(sink).waiting().len() == 0
        },
        input is Lagged ==> r.flush is None && final(sink).waiting() == old(sink).waiting(),
        input is Tick || input is Closed ==> {
            &&& final(sink).waiting().len() == 0
            &&& old(sink).waiting().len() == 0 ==> r.flush is None
            &&& old(sink).waiting().len() > 0 ==> (r.flush matches Some(events) && events@ == old(sink).waiting())
        },
{
    assert(old(sink).wf());
    if let SinkInput::Received(event) = input {
        let all = old(sink).waiting().push(event);
        assert(old(sink).waiting() + seq![event] =~= all);
        assert(old(sink).waiting() + Seq::<Arc<SystemEvent>>::empty() =~= old(sink).waiting());
    } else {
        assert(old(sink).waiting() + audit_events(input) =~= old(sink).waiting());
    }
}

/// Every kind of payload has its own short name.
pub proof fn law_payloads_have_names(payload: EventPayload, r: String)
    requires
        call_ensures(event_type_name, (&payload,), r),
    ensures
        payload is Domain ==> r@ == "domain"@,
        payload is StateChange ==> r@ == "state_change"@,
        payload is Telemetry ==> r@ == "telemetry"@,
        payload is StateTransition ==> r@ == "state_transition"@,
        payload is ToolExecution ==> r@ == "tool_execution"@,
        payload is AuthEvent ==> r@ == "auth_event"@,
        payload is ConfigChange ==> r@ == "config_change"@,
{
}

/// The record of an event holds its number, its kind, where it came from, what
/// it relates to and when it was; records come in the order of their events.
pub proof fn law_records_hold_their_events(
    batch: Vec<Arc<SystemEvent>>,
    payloads: Vec<JsonValue>,
    r: Vec<AuditRecord>,
    i: int,
    label: String,
    category: &str,
)
    requires
        call_ensures(flush_batch, (&batch, payloads), r),
        0 <= i < batch@.len(),
        call_ensures(event_type_name, (&batch@[i].payload,), label),
        call_ensures(EventCategory::name, (&batch@[i].category,), category),
    ensures
        r@.len() == batch@.len(),
        ({
            let e = batch@[i];
            let x = r@[i];
            &&& x.event_id == e.id && x.created_at == e.timestamp
            &&& x.event_type@ == label@ && x.category@ == category@
            &&& x.source_module@ == e.source.module@
            &&& x.source_component@ == e.source.component@
            &&& x.session_id == e.context.session_id && x.thread_id == e.context.thread_id
            &&& x.job_id == e.context.job_id
            &&& opt_text(x.user_id) == opt_text(e.context.user_id)
            &&& x.payload@ == payloads@[i]@
        }),
{
    let x = r@[i]@;
    assert(x == record_of_event(*batch@[i], payloads@[i]));
    assert(x.event_id == r@[i].event_id && x.created_at == r@[i].created_at);
    assert(x.user_id == opt_text(r@[i].user_id));
}

/// A record goes to the fallback file exactly where the store refused its batch.
pub proof fn law_refused_batches_go_to_the_file(
    answer: Result<(), DatabaseError>,
    records: Vec<AuditRecord>,
    r: Vec<AuditRecord>,
)
    requires
        call_ensures(fallback_records, (&answer, records), r),
    ensures
        answer is Ok ==> r@.len() == 0,
        answer is Err ==> r@ == records@,
{
}

} // verus!
