//! The engine's data: threads, messages, events, capabilities and knowledge.

use vstd::prelude::*;
use crate::ids::fresh_id;
use crate::json::{Json, JsonValue};
use crate::time::{Duration, Timestamp};

verus! {

broadcast use vstd::string::group_string_axioms;

/// The text of an optional string.
pub open spec fn opt_text(s: Option<String>) -> Option<Seq<char>> {
    match s {
        Some(text) => Some(text@),
        None => None,
    }
}

/// Copies an optional string.
pub fn copy_opt_text(s: &Option<String>) -> (r: Option<String>)
    ensures
        opt_text(r) == opt_text(*s),
{
    match s {
        Some(text) => Some(text.clone()),
        None => None,
    }
}

/// The text, or the empty text where there is none.
pub fn text_or_empty(s: Option<String>) -> (r: String)
    ensures
        r@ == (match opt_text(s) {
            Some(text) => text,
            None => seq![],
        }),
{
    match s {
        Some(text) => text,
        None => String::new(),
    }
}

// ── Identifiers ─────────────────────────────────────────────

/// Identifies a thread.
#[derive(Clone, Copy, Debug, PartialEq, Eq, Structural)]
pub struct ThreadId(pub u128);

/// Identifies a step of a thread.
#[derive(Clone, Copy, Debug, PartialEq, Eq, Structural)]
pub struct StepId(pub u128);

/// Identifies a project.
#[derive(Clone, Copy, Debug, PartialEq, Eq, Structural)]
pub struct ProjectId(pub u128);

/// Identifies a capability lease.
#[derive(Clone, Copy, Debug, PartialEq, Eq, Structural)]
pub struct LeaseId(pub u128);

/// Identifies a memory doc.
#[derive(Clone, Copy, Debug, PartialEq, Eq, Structural)]
pub struct DocId(pub u128);

/// Identifies a mission.
#[derive(Clone, Copy, Debug, PartialEq, Eq, Structural)]
pub struct MissionId(pub u128);

/// Identifies a conversation.
#[derive(Clone, Copy, Debug, PartialEq, Eq, Structural)]
pub struct ConversationId(pub u128);

// ── Threads ─────────────────────────────────────────────────

/// Where a thread is in its life.
#[derive(Clone, Copy, Debug, PartialEq, Eq, Structural)]
pub enum ThreadState {
    Created,
    Running,
    Waiting,
    Suspended,
    Completed,
    Failed,
    Reflecting,
    Done,
}

/// The name of a state.
pub open spec fn state_name(v: ThreadState) -> Seq<char> {
    match v {
        ThreadState::Created => "Created"@,
        ThreadState::Running => "Running"@,
        ThreadState::Waiting => "Waiting"@,
        ThreadState::Suspended => "Suspended"@,
        ThreadState::Completed => "Completed"@,
        ThreadState::Failed => "Failed"@,
        ThreadState::Reflecting => "Reflecting"@,
        ThreadState::Done => "Done"@,
    }
}

impl ThreadState {
    /// The variant's name.
    pub fn name(&self) -> (r: &'static str)
        ensures
            r@ == state_name(*self),
    {
        match self {
            ThreadState::Created => "Created",
            ThreadState::Running => "Running",
            ThreadState::Waiting => "Waiting",
            ThreadState::Suspended => "Suspended",
            ThreadState::Completed => "Completed",
            ThreadState::Failed => "Failed",
            ThreadState::Reflecting => "Reflecting",
            ThreadState::Done => "Done",
        }
    }
}

/// Who a message is from.
#[derive(Clone, Copy, Debug, PartialEq, Eq, Structural)]
pub enum MessageRole {
    System,
    User,
    Assistant,
    ActionResult,
}

/// The name of a role.
pub open spec fn role_name(v: MessageRole) -> Seq<char> {
    match v {
        MessageRole::System => "System"@,
        MessageRole::User => "User"@,
        MessageRole::Assistant => "Assistant"@,
        MessageRole::ActionResult => "ActionResult"@,
    }
}

impl MessageRole {
    /// The variant's name.
    pub fn name(&self) -> (r: &'static str)
        ensures
            r@ == role_name(*self),
    {
        match self {
            MessageRole::System => "System",
            MessageRole::User => "User",
            MessageRole::Assistant => "Assistant",
            MessageRole::ActionResult => "ActionResult",
        }
    }
}

/// One message of a thread.
#[derive(Clone, Debug)]
pub struct ThreadMessage {
    pub role: MessageRole,
    pub content: String,
    pub action_call_id: Option<String>,
    pub action_name: Option<String>,
}

/// What a message holds.
pub ghost struct MessageView {
    pub role: MessageRole,
    pub content: Seq<char>,
    pub action_call_id: Option<Seq<char>>,
    pub action_name: Option<Seq<char>>,
}

impl View for ThreadMessage {
    type V = MessageView;

    open spec fn view(&self) -> MessageView {
        MessageView {
            role: self.role,
            content: self.content@,
            action_call_id: opt_text(self.action_call_id),
            action_name: opt_text(self.action_name),
        }
    }
}

/// A message that carries a role and a content only.
pub open spec fn plain_message(role: MessageRole, content: Seq<char>) -> MessageView {
    MessageView { role, content, action_call_id: None, action_name: None }
}

impl ThreadMessage {
    /// A system message.
    pub fn system(content: String) -> (r: ThreadMessage)
        ensures
            r@ == plain_message(MessageRole::System, content@),
    {
        ThreadMessage {
            role: MessageRole::System,
            content,
            action_call_id: None,
            action_name: None,
        }
    }

    /// A user message.
    pub fn user(content: String) -> (r: ThreadMessage)
        ensures
            r@ == plain_message(MessageRole::User, content@),
    {
        ThreadMessage { role: MessageRole::User, content, action_call_id: None, action_name: None }
    }
}

/// Token counts of model calls.
#[derive(Clone, Copy, Debug, PartialEq, Eq, Structural)]
pub struct TokenUsage {
    pub input_tokens: u64,
    pub output_tokens: u64,
}

impl TokenUsage {
    /// No tokens.
    pub open spec fn zero() -> TokenUsage {
        TokenUsage { input_tokens: 0, output_tokens: 0 }
    }

    /// Both counts added up, each on its own.
    pub open spec fn plus(self, other: TokenUsage) -> TokenUsage {
        TokenUsage {
            input_tokens: (self.input_tokens + other.input_tokens) as u64,
            output_tokens: (self.output_tokens + other.output_tokens) as u64,
        }
    }

    /// Adding `other` stays in the range of the counters.
    pub open spec fn fits(self, other: TokenUsage) -> bool {
        &&& self.input_tokens + other.input_tokens <= u64::MAX
        &&& self.output_tokens + other.output_tokens <= u64::MAX
    }

    /// No tokens used.
    pub fn none() -> (r: TokenUsage)
        ensures
            r == TokenUsage::zero(),
    {
        TokenUsage { input_tokens: 0, output_tokens: 0 }
    }

    /// Input and output tokens together.
    pub fn total(&self) -> (r: u64)
        requires
            self.input_tokens + self.output_tokens <= u64::MAX,
        ensures
            r == self.input_tokens + self.output_tokens,
    {
        self.input_tokens + self.output_tokens
    }

    /// Whether the counts of another call can be added.
    pub fn has_room(&self, other: TokenUsage) -> (r: bool)
        ensures
            r == self.fits(other),
    {
        other.input_tokens <= u64::MAX - self.input_tokens && other.output_tokens <= u64::MAX
            - self.output_tokens
    }

    /// Adds the counts of another call.
    pub fn record(&mut self, other: TokenUsage)
        requires
            old(self).fits(other),
        ensures
            *final(self) == old(self).plus(other),
    {
        self.input_tokens = self.input_tokens + other.input_tokens;
        self.output_tokens = self.output_tokens + other.output_tokens;
    }
}

/// What happened in a thread.
#[derive(Debug)]
pub enum EventKind {
    StateChanged { from: ThreadState, to: ThreadState, reason: Option<String> },
    StepStarted { step_id: StepId },
    StepCompleted { step_id: StepId, tokens: TokenUsage },
    StepFailed { step_id: StepId, error: String },
    ActionExecuted { step_id: StepId, action_name: String, call_id: String, duration_ms: u64 },
    ActionFailed { step_id: StepId, action_name: String, call_id: String, error: String },
    ApprovalRequested { action_name: String, call_id: String },
    /// Any other event, kept by its label.
    Other { label: String },
}

/// What an event kind holds.
pub ghost enum EventKindView {
    StateChanged { from: ThreadState, to: ThreadState, reason: Option<Seq<char>> },
    StepStarted { step_id: StepId },
    StepCompleted { step_id: StepId, tokens: TokenUsage },
    StepFailed { step_id: StepId, error: Seq<char> },
    ActionExecuted {
        step_id: StepId,
        action_name: Seq<char>,
        call_id: Seq<char>,
        duration_ms: u64,
    },
    ActionFailed {
        step_id: StepId,
        action_name: Seq<char>,
        call_id: Seq<char>,
        error: Seq<char>,
    },
    ApprovalRequested { action_name: Seq<char>, call_id: Seq<char> },
    Other { label: Seq<char> },
}

impl View for EventKind {
    type V = EventKindView;

    open spec fn view(&self) -> EventKindView {
        match *self {
            EventKind::StateChanged { from, to, reason } => EventKindView::StateChanged {
                from,
                to,
                reason: opt_text(reason),
            },
            EventKind::StepStarted { step_id } => EventKindView::StepStarted { step_id },
            EventKind::StepCompleted { step_id, tokens } => EventKindView::StepCompleted {
                step_id,
                tokens,
            },
            EventKind::StepFailed { step_id, error } => EventKindView::StepFailed {
                step_id,
                error: error@,
            },
            EventKind::ActionExecuted { step_id, action_name, call_id, duration_ms } => {
                EventKindView::ActionExecuted {
                    step_id,
                    action_name: action_name@,
                    call_id: call_id@,
                    duration_ms,
                }
            },
            EventKind::ActionFailed { step_id, action_name, call_id, error } => {
                EventKindView::ActionFailed {
                    step_id,
                    action_name: action_name@,
                    call_id: call_id@,
                    error: error@,
                }
            },
            EventKind::ApprovalRequested { action_name, call_id } => {
                EventKindView::ApprovalRequested { action_name: action_name@, call_id: call_id@ }
            },
            EventKind::Other { label } => EventKindView::Other { label: label@ },
        }
    }
}

impl Clone for EventKind {
    fn clone(&self) -> (r: Self)
        ensures
            r@ == self@,
    {
        match self {
            EventKind::StateChanged { from, to, reason } => EventKind::StateChanged {
                from: *from,
                to: *to,
                reason: copy_opt_text(reason),
            },
            EventKind::StepStarted { step_id } => EventKind::StepStarted { step_id: *step_id },
            EventKind::StepCompleted { step_id, tokens } => EventKind::StepCompleted {
                step_id: *step_id,
                tokens: *tokens,
            },
            EventKind::StepFailed { step_id, error } => EventKind::StepFailed {
                step_id: *step_id,
                error: error.clone(),
            },
            EventKind::ActionExecuted { step_id, action_name, call_id, duration_ms } => {
                EventKind::ActionExecuted {
                    step_id: *step_id,
                    action_name: action_name.clone(),
                    call_id: call_id.clone(),
                    duration_ms: *duration_ms,
                }
            },
            EventKind::ActionFailed { step_id, action_name, call_id, error } => {
                EventKind::ActionFailed {
                    step_id: *step_id,
                    action_name: action_name.clone(),
                    call_id: call_id.clone(),
                    error: error.clone(),
                }
            },
            EventKind::ApprovalRequested { action_name, call_id } => {
                EventKind::ApprovalRequested {
                    action_name: action_name.clone(),
                    call_id: call_id.clone(),
                }
            },
            EventKind::Other { label } => EventKind::Other { label: label.clone() },
        }
    }
}

/// The event kinds of a list.
pub open spec fn kinds(list: Seq<EventKind>) -> Seq<EventKindView> {
    list.map_values(|k: EventKind| k@)
}

/// An event of a thread.
#[derive(Debug)]
pub struct ThreadEvent {
    pub thread_id: ThreadId,
    pub timestamp: Timestamp,
    pub kind: EventKind,
}

/// What an event holds.
pub ghost struct EventView {
    pub thread_id: ThreadId,
    pub timestamp: Timestamp,
    pub kind: EventKindView,
}

impl View for ThreadEvent {
    type V = EventView;

    open spec fn view(&self) -> EventView {
        EventView { thread_id: self.thread_id, timestamp: self.timestamp, kind: self.kind@ }
    }
}

impl Clone for ThreadEvent {
    fn clone(&self) -> (r: Self)
        ensures
            r@ == self@,
    {
        ThreadEvent {
            thread_id: self.thread_id,
            timestamp: self.timestamp,
            kind: self.kind.clone(),
        }
    }
}

/// The events of a list.
pub open spec fn event_views(list: Seq<ThreadEvent>) -> Seq<EventView> {
    list.map_values(|e: ThreadEvent| e@)
}

/// A unit of work with its conversation and its history.
#[derive(Clone, Debug)]
pub struct Thread {
    pub id: ThreadId,
    pub project_id: ProjectId,
    pub goal: String,
    pub state: ThreadState,
    pub step_count: usize,
    pub total_tokens_used: u64,
    pub messages: Vec<ThreadMessage>,
    pub events: Vec<ThreadEvent>,
}

/// One step of a thread.
#[derive(Clone, Debug)]
pub struct Step {
    pub id: StepId,
    pub thread_id: ThreadId,
    pub tokens: TokenUsage,
}

/// What a model answered.
#[derive(Debug)]
pub enum LlmResponse {
    Text(String),
    ActionCalls { content: Option<String> },
    Code { code: String, content: Option<String> },
}

/// The text of an answer: its content, or nothing where it has none.
pub open spec fn response_content(r: LlmResponse) -> Seq<char> {
    match r {
        LlmResponse::Text(text) => text@,
        LlmResponse::ActionCalls { content } => match opt_text(content) {
            Some(text) => text,
            None => seq![],
        },
        LlmResponse::Code { code, content } => match opt_text(content) {
            Some(text) => text,
            None => seq![],
        },
    }
}

impl LlmResponse {
    /// The text of the answer.
    pub fn into_content(self) -> (r: String)
        ensures
            r@ == response_content(self),
    {
        match self {
            LlmResponse::Text(text) => text,
            LlmResponse::ActionCalls { content } => text_or_empty(content),
            LlmResponse::Code { code, content } => text_or_empty(content),
        }
    }
}

/// A model's answer and what it cost.
#[derive(Debug)]
pub struct LlmOutput {
    pub response: LlmResponse,
    pub usage: TokenUsage,
}

/// A text-only request to a model: no actions are offered.
#[derive(Debug)]
pub struct LlmRequest {
    pub messages: Vec<ThreadMessage>,
    pub force_text: bool,
}

/// The messages of a list.
pub open spec fn message_views(list: Seq<ThreadMessage>) -> Seq<MessageView> {
    list.map_values(|m: ThreadMessage| m@)
}

// ── Capabilities ────────────────────────────────────────────

/// What an action may touch.
#[derive(Clone, Copy, Debug, PartialEq, Eq, Structural)]
pub enum EffectType {
    ReadLocal,
    ReadExternal,
    WriteLocal,
    WriteExternal,
    CredentialedNetwork,
    Compute,
    Financial,
}

/// An action that code may call.
#[derive(Debug)]
pub struct ActionDef {
    pub name: String,
    pub description: String,
    pub parameters_schema: JsonValue,
    pub effects: Vec<EffectType>,
    pub requires_approval: bool,
}

/// What an action definition holds.
pub ghost struct ActionDefView {
    pub name: Seq<char>,
    pub description: Seq<char>,
    pub parameters_schema: Json,
    pub effects: Seq<EffectType>,
    pub requires_approval: bool,
}

impl View for ActionDef {
    type V = ActionDefView;

    open spec fn view(&self) -> ActionDefView {
        ActionDefView {
            name: self.name@,
            description: self.description@,
            parameters_schema: self.parameters_schema@,
            effects: self.effects@,
            requires_approval: self.requires_approval,
        }
    }
}

/// The action definitions of a list.
pub open spec fn action_views(list: Seq<ActionDef>) -> Seq<ActionDefView> {
    list.map_values(|a: ActionDef| a@)
}

/// The outcome of one action call.
#[derive(Debug)]
pub struct ActionResult {
    pub call_id: String,
    pub action_name: String,
    pub output: JsonValue,
    pub is_error: bool,
    pub duration: Duration,
}

/// What an action result holds.
pub ghost struct ActionResultView {
    pub call_id: Seq<char>,
    pub action_name: Seq<char>,
    pub output: Json,
    pub is_error: bool,
    pub duration: Duration,
}

impl View for ActionResult {
    type V = ActionResultView;

    open spec fn view(&self) -> ActionResultView {
        ActionResultView {
            call_id: self.call_id@,
            action_name: self.action_name@,
            output: self.output@,
            is_error: self.is_error,
            duration: self.duration,
        }
    }
}

/// The action results of a list.
pub open spec fn result_views(list: Seq<ActionResult>) -> Seq<ActionResultView> {
    list.map_values(|r: ActionResult| r@)
}

/// A grant of actions to a thread.
#[derive(Clone, Debug)]
pub struct CapabilityLease {
    pub id: LeaseId,
    pub thread_id: ThreadId,
    pub capability_name: String,
    pub granted_actions: Vec<String>,
    pub granted_at: Timestamp,
    pub expires_at: Option<Timestamp>,
    pub max_uses: Option<u32>,
    pub uses_remaining: Option<u32>,
    pub revoked: bool,
}

impl CapabilityLease {
    /// Not revoked, not yet expired at `now`, and with uses left.
    pub open spec fn valid_at(self, now: Timestamp) -> bool {
        &&& !self.revoked
        &&& match self.expires_at {
            Some(end) => now.before(end),
            None => true,
        }
        &&& self.uses_remaining != Some(0u32)
    }

    /// Whether the lease may be used at `now`.
    pub fn is_valid_at(&self, now: Timestamp) -> (r: bool)
        ensures
            r == self.valid_at(now),
    {
        if self.revoked {
            return false;
        }
        match self.expires_at {
            Some(end) => {
                if !now.is_before(end) {
                    return false;
                }
            },
            None => {},
        }
        match self.uses_remaining {
            Some(n) => n != 0,
            None => true,
        }
    }
}

/// What a policy says of a call.
#[derive(Debug)]
pub enum PolicyDecision {
    Allow,
    Deny { reason: String },
    RequireApproval { reason: String },
}

/// Where a call comes from.
#[derive(Clone, Debug)]
pub struct ThreadExecutionContext {
    pub thread_id: ThreadId,
    pub project_id: ProjectId,
    pub user_id: String,
    pub step_id: StepId,
}

/// Why the engine refused or failed.
#[derive(Debug)]
pub enum EngineError {
    Effect { reason: String },
    LeaseDenied { reason: String },
    Llm { reason: String },
    Store { reason: String },
}

/// What an engine error says.
pub ghost enum EngineErrorView {
    Effect { reason: Seq<char> },
    LeaseDenied { reason: Seq<char> },
    Llm { reason: Seq<char> },
    Store { reason: Seq<char> },
}

impl View for EngineError {
    type V = EngineErrorView;

    open spec fn view(&self) -> EngineErrorView {
        match *self {
            EngineError::Effect { reason } => EngineErrorView::Effect { reason: reason@ },
            EngineError::LeaseDenied { reason } => EngineErrorView::LeaseDenied {
                reason: reason@,
            },
            EngineError::Llm { reason } => EngineErrorView::Llm { reason: reason@ },
            EngineError::Store { reason } => EngineErrorView::Store { reason: reason@ },
        }
    }
}

// ── Knowledge ───────────────────────────────────────────────

/// What kind of knowledge a memory doc is.
#[derive(Clone, Copy, Debug, PartialEq, Eq, Structural)]
pub enum DocType {
    Summary,
    Lesson,
    Playbook,
    Issue,
    Spec,
    Note,
}

/// The name of a doc type.
pub open spec fn doc_type_name(v: DocType) -> Seq<char> {
    match v {
        DocType::Summary => "Summary"@,
        DocType::Lesson => "Lesson"@,
        DocType::Playbook => "Playbook"@,
        DocType::Issue => "Issue"@,
        DocType::Spec => "Spec"@,
        DocType::Note => "Note"@,
    }
}

impl DocType {
    /// The variant's name.
    pub fn name(&self) -> (r: &'static str)
        ensures
            r@ == doc_type_name(*self),
    {
        match self {
            DocType::Summary => "Summary",
            DocType::Lesson => "Lesson",
            DocType::Playbook => "Playbook",
            DocType::Issue => "Issue",
            DocType::Spec => "Spec",
            DocType::Note => "Note",
        }
    }
}

/// A piece of knowledge kept for a project.
#[derive(Clone, Debug)]
pub struct MemoryDoc {
    pub id: DocId,
    pub project_id: ProjectId,
    pub doc_type: DocType,
    pub title: String,
    pub content: String,
    pub source_thread: Option<ThreadId>,
}

/// What a memory doc holds, apart from its identifier.
pub ghost struct DocView {
    pub project_id: ProjectId,
    pub doc_type: DocType,
    pub title: Seq<char>,
    pub content: Seq<char>,
    pub source_thread: Option<ThreadId>,
}

impl View for MemoryDoc {
    type V = DocView;

    open spec fn view(&self) -> DocView {
        DocView {
            project_id: self.project_id,
            doc_type: self.doc_type,
            title: self.title@,
            content: self.content@,
            source_thread: self.source_thread,
        }
    }
}

/// The docs of a list.
pub open spec fn doc_views(list: Seq<MemoryDoc>) -> Seq<DocView> {
    list.map_values(|d: MemoryDoc| d@)
}

impl MemoryDoc {
    /// A doc under a fresh identifier, with no source thread.
    pub fn new(project_id: ProjectId, doc_type: DocType, title: String, content: String) -> (r:
        MemoryDoc)
        ensures
            r@ == (DocView {
                project_id,
                doc_type,
                title: title@,
                content: content@,
                source_thread: None,
            }),
    {
        MemoryDoc {
            id: DocId(fresh_id()),
            project_id,
            doc_type,
            title,
            content,
            source_thread: None,
        }
    }

    /// The same doc, with the thread it comes from.
    pub fn with_source_thread(self, thread_id: ThreadId) -> (r: MemoryDoc)
        ensures
            r.id == self.id,
            r@ == (DocView { source_thread: Some(thread_id), ..self@ }),
    {
        MemoryDoc {
            id: self.id,
            project_id: self.project_id,
            doc_type: self.doc_type,
            title: self.title,
            content: self.content,
            source_thread: Some(thread_id),
        }
    }
}

/// A project.
#[derive(Clone, Debug)]
pub struct Project {
    pub id: ProjectId,
    pub name: String,
}

/// Where a mission is in its life.
#[derive(Clone, Copy, Debug, PartialEq, Eq, Structural)]
pub enum MissionStatus {
    Active,
    Paused,
    Completed,
    Failed,
}

/// A long-running goal.
#[derive(Clone, Debug)]
pub struct Mission {
    pub id: MissionId,
    pub project_id: ProjectId,
    pub goal: String,
    pub status: MissionStatus,
}

/// A conversation on some channel.
#[derive(Clone, Debug)]
pub struct ConversationSurface {
    pub id: ConversationId,
    pub channel: String,
    pub user_id: String,
    pub active_threads: Vec<ThreadId>,
}

// ── Laws ────────────────────────────────────────────────────

/// A state is told by its name, and each state has its own.
pub proof fn law_state_names(s: ThreadState, r: &'static str)
    requires
        call_ensures(ThreadState::name, (&s,), r),
    ensures
        r@ == "Created"@ <==> s == ThreadState::Created,
        r@ == "Running"@ <==> s == ThreadState::Running,
        r@ == "Waiting"@ <==> s == ThreadState::Waiting,
        r@ == "Suspended"@ <==> s == ThreadState::Suspended,
        r@ == "Completed"@ <==> s == ThreadState::Completed,
        r@ == "Failed"@ <==> s == ThreadState::Failed,
        r@ == "Reflecting"@ <==> s == ThreadState::Reflecting,
        r@ == "Done"@ <==> s == ThreadState::Done,
        !r@.contains('\n'),
{
    reveal_strlit("Created");
    reveal_strlit("Running");
    reveal_strlit("Waiting");
    reveal_strlit("Suspended");
    reveal_strlit("Completed");
    reveal_strlit("Failed");
    reveal_strlit("Reflecting");
    reveal_strlit("Done");
    assert("Created"@[0] == 'C' && "Completed"@.len() == 9);
    assert("Running"@[0] == 'R' && "Waiting"@[0] == 'W');
    assert("Suspended"@[0] == 'S' && "Reflecting"@.len() == 10);
    assert("Failed"@.len() == 6 && "Done"@.len() == 4);
}

/// A role is told by its name, and each role has its own.
pub proof fn law_role_names(role: MessageRole, r: &'static str)
    requires
        call_ensures(MessageRole::name, (&role,), r),
    ensures
        r@ == "System"@ <==> role == MessageRole::System,
        r@ == "User"@ <==> role == MessageRole::User,
        r@ == "Assistant"@ <==> role == MessageRole::Assistant,
        r@ == "ActionResult"@ <==> role == MessageRole::ActionResult,
{
    reveal_strlit("System");
    reveal_strlit("User");
    reveal_strlit("Assistant");
    reveal_strlit("ActionResult");
    assert("System"@.len() == 6 && "User"@.len() == 4);
    assert("Assistant"@.len() == 9 && "ActionResult"@.len() == 12);
}

/// A doc type is told by its name, and each doc type has its own.
pub proof fn law_doc_type_names(t: DocType, r: &'static str)
    requires
        call_ensures(DocType::name, (&t,), r),
    ensures
        r@ == "Summary"@ <==> t == DocType::Summary,
        r@ == "Lesson"@ <==> t == DocType::Lesson,
        r@ == "Playbook"@ <==> t == DocType::Playbook,
        r@ == "Issue"@ <==> t == DocType::Issue,
        r@ == "Spec"@ <==> t == DocType::Spec,
        r@ == "Note"@ <==> t == DocType::Note,
{
    reveal_strlit("Summary");
    reveal_strlit("Lesson");
    reveal_strlit("Playbook");
    reveal_strlit("Issue");
    reveal_strlit("Spec");
    reveal_strlit("Note");
    assert("Summary"@.len() == 7 && "Lesson"@.len() == 6 && "Playbook"@.len() == 8);
    assert("Issue"@.len() == 5 && "Spec"@[0] == 'S' && "Note"@[0] == 'N');
}

/// A message keeps what was said and who said it, and belongs to no call.
pub proof fn law_plain_messages(content: String, system: ThreadMessage, user: ThreadMessage)
    requires
        call_ensures(ThreadMessage::system, (content,), system),
        call_ensures(ThreadMessage::user, (content,), user),
    ensures
        system.role == MessageRole::System,
        user.role == MessageRole::User,
        system.content@ == content@,
        user.content@ == content@,
        system.action_call_id is None && system.action_name is None,
        user.action_call_id is None && user.action_name is None,
{
}

/// The text of an answer is what the model said beside its code or its calls,
/// never the code itself; an answer that says nothing has an empty text.
pub proof fn law_answers_give_their_text(response: LlmResponse, r: String)
    requires
        call_ensures(LlmResponse::into_content, (response,), r),
    ensures
        response matches LlmResponse::Text(text) ==> r@ == text@,
        response matches LlmResponse::ActionCalls { content: Some(text) } ==> r@ == text@,
        response matches LlmResponse::Code { content: Some(text), .. } ==> r@ == text@,
        response matches LlmResponse::ActionCalls { content: None } ==> r@.len() == 0,
        response matches LlmResponse::Code { content: None, .. } ==> r@.len() == 0,
{
}

/// Counts are added each to its own kind; whether they fit is decided for each,
/// and the total is both.
pub proof fn law_tokens_add_up(
    usage: &mut TokenUsage,
    other: TokenUsage,
    none: TokenUsage,
    room: bool,
    total: u64,
)
    requires
        call_ensures(TokenUsage::none, (), none),
        call_ensures(TokenUsage::has_room, (&*old(usage), other), room),
        call_ensures(TokenUsage::record, (usage, other), ()),
        call_ensures(TokenUsage::total, (&other,), total),
    ensures
        none.input_tokens == 0 && none.output_tokens == 0,
        room <==> old(usage).input_tokens + other.input_tokens <= u64::MAX
            && old(usage).output_tokens + other.output_tokens <= u64::MAX,
        room ==> final(usage).input_tokens == old(usage).input_tokens + other.input_tokens,
        room ==> final(usage).output_tokens == old(usage).output_tokens + other.output_tokens,
        total == other.input_tokens + other.output_tokens,
{
}

/// A lease counts exactly while it is not revoked, before the moment at which
/// it ends, and while a use is left where uses are counted.
pub proof fn law_leases_end(lease: CapabilityLease, at: Timestamp, r: bool)
    requires
        call_ensures(CapabilityLease::is_valid_at, (&lease, at), r),
    ensures
        lease.revoked ==> !r,
        lease.uses_remaining == Some(0u32) ==> !r,
        lease.expires_at == Some(at) ==> !r,
        lease.expires_at matches Some(end) ==> r ==> (at.secs < end.secs || (at.secs == end.secs
            && at.nanos < end.nanos)),
        !lease.revoked && lease.expires_at is None && (lease.uses_remaining matches Some(n) ==> n
            > 0) ==> r,
        !lease.revoked && (lease.uses_remaining matches Some(n) ==> n > 0) && (
        lease.expires_at matches Some(end) ==> at.secs < end.secs || (at.secs == end.secs
            && at.nanos < end.nanos)) ==> r,
{
}

/// A doc holds what it was made with; naming its source changes nothing else,
/// its identifier least of all.
pub proof fn law_docs_hold_what_they_are_made_of(
    project_id: ProjectId,
    doc_type: DocType,
    title: String,
    content: String,
    thread_id: ThreadId,
    doc: MemoryDoc,
    sourced: MemoryDoc,
)
    requires
        call_ensures(MemoryDoc::new, (project_id, doc_type, title, content), doc),
        call_ensures(MemoryDoc::with_source_thread, (doc, thread_id), sourced),
    ensures
        doc.project_id == project_id && sourced.project_id == project_id,
        doc.doc_type == doc_type && sourced.doc_type == doc_type,
        doc.title@ == title@ && sourced.title@ == title@,
        doc.content@ == content@ && sourced.content@ == content@,
        doc.source_thread is None && sourced.source_thread == Some(thread_id),
        sourced.id == doc.id,
{
}

/// A text that is not there reads as the empty one, and a copy of one that may
/// be there holds the same.
pub proof fn law_missing_texts_are_empty(
    s: Option<String>,
    r: String,
    copy: Option<String>,
)
    requires
        call_ensures(text_or_empty, (s,), r),
        call_ensures(copy_opt_text, (&s,), copy),
    ensures
        s matches Some(text) ==> r@ == text@ && (copy matches Some(same) && same@ == text@),
        s is None ==> r@.len() == 0 && copy is None,
{
}

} // verus!
