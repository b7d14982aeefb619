//! Events and the envelope that carries them.

use vstd::prelude::*;
use crate::engine::types::opt_text;
use crate::json::JsonValue;
use crate::time::Timestamp;

verus! {

broadcast use vstd::string::group_string_axioms;

/// Which module and component produced an event.
#[derive(Debug)]
pub struct EventSource {
    pub module: String,
    pub component: String,
}

/// What a source holds.
pub ghost struct SourceView {
    pub module: Seq<char>,
    pub component: Seq<char>,
}

impl View for EventSource {
    type V = SourceView;

    open spec fn view(&self) -> SourceView {
        SourceView { module: self.module@, component: self.component@ }
    }
}

impl EventSource {
    /// A source by its module and its component.
    pub fn new(module: &str, component: &str) -> (r: EventSource)
        ensures
            r@ == (SourceView { module: module@, component: component@ }),
    {
        EventSource { module: module.to_string(), component: component.to_string() }
    }
}

/// What decides which sinks take an event.
#[derive(Clone, Copy, Debug, PartialEq, Eq, Structural)]
pub enum EventCategory {
    /// Security-relevant: kept in the audit log.
    Audit,
    /// Transient: may be dropped.
    Ephemeral,
    /// A change of state.
    StateChange,
    /// Numbers and telemetry.
    Metric,
}

/// The name of a category.
pub open spec fn category_name(c: EventCategory) -> Seq<char> {
    match c {
        EventCategory::Audit => "Audit"@,
        EventCategory::Ephemeral => "Ephemeral"@,
        EventCategory::StateChange => "StateChange"@,
        EventCategory::Metric => "Metric"@,
    }
}

impl EventCategory {
    /// The category's name.
    pub fn name(&self) -> (r: &'static str)
        ensures
            r@ == category_name(*self),
    {
        match self {
            EventCategory::Audit => "Audit",
            EventCategory::Ephemeral => "Ephemeral",
            EventCategory::StateChange => "StateChange",
            EventCategory::Metric => "Metric",
        }
    }
}

/// Identifiers that relate an event to other things.
#[derive(Debug)]
pub struct EventContext {
    pub session_id: Option<u128>,
    pub thread_id: Option<u128>,
    pub job_id: Option<u128>,
    pub user_id: Option<String>,
}

/// What a context holds.
pub ghost struct ContextView {
    pub session_id: Option<u128>,
    pub thread_id: Option<u128>,
    pub job_id: Option<u128>,
    pub user_id: Option<Seq<char>>,
}

impl View for EventContext {
    type V = ContextView;

    open spec fn view(&self) -> ContextView {
        ContextView {
            session_id: self.session_id,
            thread_id: self.thread_id,
            job_id: self.job_id,
            user_id: opt_text(self.user_id),
        }
    }
}

/// A context without identifiers.
pub open spec fn no_context() -> ContextView {
    ContextView { session_id: None, thread_id: None, job_id: None, user_id: None }
}

impl Default for EventContext {
    fn default() -> (r: Self)
        ensures
            r@ == no_context(),
    {
        EventContext { session_id: None, thread_id: None, job_id: None, user_id: None }
    }
}

impl EventContext {
    /// No identifiers.
    pub fn empty() -> (r: EventContext)
        ensures
            r@ == no_context(),
    {
        EventContext::default()
    }

    /// A job.
    pub fn with_job(job_id: u128) -> (r: EventContext)
        ensures
            r@ == (ContextView { job_id: Some(job_id), ..no_context() }),
    {
        EventContext { session_id: None, thread_id: None, job_id: Some(job_id), user_id: None }
    }

    /// A thread of a session.
    pub fn with_thread(session_id: u128, thread_id: u128) -> (r: EventContext)
        ensures
            r@ == (ContextView {
                session_id: Some(session_id),
                thread_id: Some(thread_id),
                ..no_context()
            }),
    {
        EventContext {
            session_id: Some(session_id),
            thread_id: Some(thread_id),
            job_id: None,
            user_id: None,
        }
    }

    /// A user.
    pub fn with_user(user_id: &str) -> (r: EventContext)
        ensures
            r@ == (ContextView { user_id: Some(user_id@), ..no_context() }),
    {
        EventContext {
            session_id: None,
            thread_id: None,
            job_id: None,
            user_id: Some(user_id.to_string()),
        }
    }
}

/// Telemetry.
#[derive(Debug)]
pub enum TelemetryPayload {
    LlmCall {
        provider: String,
        model: String,
        duration_ms: u64,
        tokens_used: Option<u64>,
        success: bool,
    },
    ChannelMessage { channel: String, direction: String },
    HeartbeatTick,
}

/// An event of the application domain. What the bus does not look at is kept
/// as JSON.
#[derive(Debug)]
pub enum DomainEvent {
    Heartbeat,
    Other(JsonValue),
}

/// A notice that cached state is stale.
#[derive(Debug)]
pub enum StateChange {
    ConfigReloaded,
    Other(JsonValue),
}

/// The data of an event.
#[derive(Debug)]
pub enum EventPayload {
    Domain(DomainEvent),
    StateChange(StateChange),
    Telemetry(TelemetryPayload),
    StateTransition {
        entity_type: String,
        entity_id: String,
        from_state: String,
        to_state: String,
        reason: Option<String>,
    },
    ToolExecution {
        tool_name: String,
        /// A hash of the parameters, never the parameters themselves.
        parameters_hash: String,
        duration_ms: u64,
        success: bool,
        error: Option<String>,
    },
    AuthEvent { action: String, target: String, success: bool },
    ConfigChange { key: String, changed_by: String },
}

/// The category that a payload belongs to by its kind.
pub open spec fn category_of(payload: EventPayload) -> EventCategory {
    match payload {
        EventPayload::Domain(_) => EventCategory::Ephemeral,
        EventPayload::StateChange(_) => EventCategory::StateChange,
        EventPayload::Telemetry(_) => EventCategory::Metric,
        _ => EventCategory::Audit,
    }
}

impl EventPayload {
    /// The category that the payload belongs to by its kind.
    pub fn default_category(&self) -> (r: EventCategory)
        ensures
            r == category_of(*self),
    {
        match self {
            EventPayload::Domain(_) => EventCategory::Ephemeral,
            EventPayload::StateChange(_) => EventCategory::StateChange,
            EventPayload::Telemetry(_) => EventCategory::Metric,
            EventPayload::StateTransition { .. } => EventCategory::Audit,
            EventPayload::ToolExecution { .. } => EventCategory::Audit,
            EventPayload::AuthEvent { .. } => EventCategory::Audit,
            EventPayload::ConfigChange { .. } => EventCategory::Audit,
        }
    }
}

/// An event as it travels over the bus.
#[derive(Debug)]
pub struct SystemEvent {
    /// Sequence number given by the bus.
    pub id: u64,
    pub timestamp: Timestamp,
    pub source: EventSource,
    pub category: EventCategory,
    pub context: EventContext,
    pub payload: EventPayload,
}

// ── Laws ────────────────────────────────────────────────────

/// Every category has a name of its own.
pub proof fn law_category_names(c: EventCategory, d: EventCategory, r: &str, q: &str)
    requires
        call_ensures(EventCategory::name, (&c,), r),
        call_ensures(EventCategory::name, (&d,), q),
    ensures
        r@ == q@ ==> c == d,
        c is Audit ==> r@ == "Audit"@,
        c is Ephemeral ==> r@ == "Ephemeral"@,
        c is StateChange ==> r@ == "StateChange"@,
        c is Metric ==> r@ == "Metric"@,
{
    reveal_strlit("Audit");
    reveal_strlit("Ephemeral");
    reveal_strlit("StateChange");
    reveal_strlit("Metric");
    assert("Audit"@.len() == 5 && "Ephemeral"@.len() == 9 && "StateChange"@.len() == 11
        && "Metric"@.len() == 6);
}

/// A payload is transient, a change of state or telemetry by its kind, and of
/// all other kinds security-relevant: transitions, tool executions, logins and
/// changes of the configuration are kept in the audit log.
pub proof fn law_payloads_have_their_category(payload: EventPayload, r: EventCategory)
    requires
        call_ensures(EventPayload::default_category, (&payload,), r),
    ensures
        r is Ephemeral <==> payload is Domain,
        r is StateChange <==> payload is StateChange,
        r is Metric <==> payload is Telemetry,
        r is Audit <==> payload is StateTransition || payload is ToolExecution || payload
            is AuthEvent || payload is ConfigChange,
{
}

/// A source names its module and its component, and a context the identifiers
/// that it was made of, and no others.
pub proof fn law_events_are_placed(
    module: &str,
    component: &str,
    source: EventSource,
    session: u128,
    thread: u128,
    job: u128,
    user: &str,
    empty: EventContext,
    by_job: EventContext,
    by_thread: EventContext,
    by_user: EventContext,
)
    requires
        call_ensures(EventSource::new, (module, component), source),
        call_ensures(EventContext::empty, (), empty),
        call_ensures(EventContext::with_job, (job,), by_job),
        call_ensures(EventContext::with_thread, (session, thread), by_thread),
        call_ensures(EventContext::with_user, (user,), by_user),
    ensures
        source.module@ == module@ && source.component@ == component@,
        empty.session_id is None && empty.thread_id is None && empty.job_id is None,
        empty.user_id is None,
        by_job.job_id == Some(job) && by_job.session_id is None && by_job.thread_id is None,
        by_job.user_id is None,
        by_thread.session_id == Some(session) && by_thread.thread_id == Some(thread),
        by_thread.job_id is None && by_thread.user_id is None,
        by_user.user_id matches Some(u) && u@ == user@,
        by_user.session_id is None && by_user.thread_id is None && by_user.job_id is None,
{
    assert(source@.module == source.module@ && source@.component == source.component@);
    assert(empty@.user_id == opt_text(empty.user_id) && empty@.session_id == empty.session_id);
    assert(by_job@.user_id == opt_text(by_job.user_id) && by_job@.job_id == by_job.job_id);
    assert(by_thread@.user_id == opt_text(by_thread.user_id) && by_thread@.thread_id
        == by_thread.thread_id);
    assert(by_user@.user_id == opt_text(by_user.user_id) && by_user@.job_id == by_user.job_id);
}

} // verus!
