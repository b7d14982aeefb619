//! Running model-written Python: what the code sees, what its calls lead to,
//! and what is reported of its output.
//!
//! The interpreter suspends at every call it does not know. `CodeRun` decides
//! what happens then; whoever drives the interpreter performs the step and
//! reports back.

use vstd::prelude::*;
use crate::bits::{signed_bits, to_signed};
use crate::engine::pyvalue::{
    args_json, extract_string_arg, json_py, json_to_monty, lemma_keyword_first,
    lemma_py_of_compound, monty_args_to_json, monty_to_json, monty_to_string, py_json, py_list,
    py_pairs, py_text, text_arg, Py, PyKey, PyKeyView, PyValue,
};
use crate::engine::types::{
    kinds, message_views, plain_message, response_content, result_views, role_name, ActionDef,
    ActionResult, ActionResultView, EngineError, EngineErrorView, EventKind, EventKindView,
    LlmOutput, LlmRequest, MessageRole, MessageView, PolicyDecision, StepId, Thread,
    ThreadMessage, TokenUsage,
};
use crate::json::{json_entries, json_text, put_entry, render, Json, JsonValue};
use crate::text::{
    append_decimal, byte_len, char_count, decimal, join_texts, joined, prefix, same_text,
    take_chars, texts, utf8_len,
};
use crate::time::Duration;

verus! {

broadcast use vstd::string::group_string_axioms;

// ── Limits ──────────────────────────────────────────────────

/// What one run of code may use.
#[derive(Clone, Copy, Debug, PartialEq, Eq, Structural)]
pub struct RunLimits {
    pub max_duration_secs: u64,
    pub max_allocations: usize,
    pub max_memory: usize,
    pub max_recursion_depth: usize,
}

/// Half a minute, a million allocations, 64 MiB and a thousand nested calls.
pub fn default_limits() -> (r: RunLimits)
    ensures
        r == (RunLimits {
            max_duration_secs: 30,
            max_allocations: 1_000_000,
            max_memory: 67_108_864,
            max_recursion_depth: 1_000,
        }),
{
    RunLimits {
        max_duration_secs: 30,
        max_allocations: 1_000_000,
        max_memory: 67_108_864,
        max_recursion_depth: 1_000,
    }
}

// ── Output metadata ─────────────────────────────────────────

/// One part of the metadata: its size, and at most 120 characters of it.
pub open spec fn metadata_part(label: Seq<char>, text: Seq<char>) -> Seq<char> {
    label + " ("@ + decimal(utf8_len(text)) + " chars): "@ + prefix(text, 120) + (if utf8_len(text)
        > 120 {
        "..."@
    } else {
        ""@
    })
}

/// The parts that there are, of the printed text and of the returned value.
pub open spec fn metadata_parts(stdout: Seq<char>, value: Json) -> Seq<Seq<char>> {
    (if stdout.len() == 0 {
        Seq::<Seq<char>>::empty()
    } else {
        seq![metadata_part("stdout"@, stdout)]
    }) + (if value == Json::Null {
        Seq::<Seq<char>>::empty()
    } else {
        seq![metadata_part("return"@, json_text(value))]
    })
}

/// The metadata of code output.
pub open spec fn output_metadata(stdout: Seq<char>, value: Json) -> Seq<char> {
    let parts = metadata_parts(stdout, value);
    if parts.len() == 0 {
        "[code executed, no output]"@
    } else {
        "[code output] "@ + joined(parts, "; "@)
    }
}

fn describe(label: &str, text: &str) -> (r: String)
    ensures
        r@ == metadata_part(label@, text@),
{
    let size: usize = byte_len(text);
    let mut out = label.to_string();
    out.append(" (");
    append_decimal(&mut out, size as u64);
    out.append(" chars): ");
    out.append(take_chars(text, 120).as_str());
    if size > 120 {
        out.append("...");
    } else {
        out.append("");
    }
    out
}

/// Sums code output up for the model, in place of the output itself.
pub fn compact_output_metadata(stdout: &str, return_value: &JsonValue) -> (r: String)
    ensures
        r@ == output_metadata(stdout@, return_value@),
{
    let mut parts: Vec<String> = Vec::new();
    if char_count(stdout) > 0 {
        parts.push(describe("stdout", stdout));
    }
    if !return_value.is_null() {
        let text = render(return_value);
        parts.push(describe("return", text.as_str()));
    }
    assert(texts(parts@) =~= metadata_parts(stdout@, return_value@));
    assert(texts(parts@).len() == parts.len());
    if parts.len() == 0 {
        "[code executed, no output]".to_string()
    } else {
        let mut out = "[code output] ".to_string();
        out.append(join_texts(&parts, "; ").as_str());
        out
    }
}

// ── What the code sees ──────────────────────────────────────

/// A pair of a dictionary with a string key.
pub open spec fn entry(key: Seq<char>, value: Py) -> (PyKeyView, Py) {
    (PyKeyView::Str(key), value)
}

/// A message as the code sees it.
pub open spec fn message_dict(m: ThreadMessage) -> Py {
    Py::Dict(
        seq![
            entry("role"@, Py::Str(role_name(m.role))),
            entry("content"@, Py::Str(m.content@)),
        ] + (match m.action_name {
            Some(name) => seq![entry("action_name"@, Py::Str(name@))],
            None => Seq::<(PyKeyView, Py)>::empty(),
        }),
    )
}

/// The pair that an action result leaves for later code; none where it names
/// no call.
pub open spec fn result_pair(m: ThreadMessage) -> Seq<(PyKeyView, Py)> {
    if m.role == MessageRole::ActionResult {
        match m.action_call_id {
            Some(call_id) => seq![entry(call_id@, Py::Str(m.content@))],
            None => seq![],
        }
    } else {
        seq![]
    }
}

/// The pairs of all action results, in order.
pub open spec fn result_pairs(messages: Seq<ThreadMessage>) -> Seq<(PyKeyView, Py)>
    decreases messages.len(),
{
    if messages.len() == 0 {
        seq![]
    } else {
        result_pairs(messages.drop_last()) + result_pair(messages.last())
    }
}

/// The names of the variables that the code is given.
pub open spec fn input_names() -> Seq<Seq<char>> {
    seq!["context"@, "goal"@, "step_number"@, "previous_results"@]
}

/// The values of the variables that the code is given.
pub open spec fn input_values(thread: Thread) -> Seq<Py> {
    seq![
        Py::List(thread.messages@.map_values(|m: ThreadMessage| message_dict(m))),
        Py::Str(thread.goal@),
        Py::Int(signed_bits(thread.step_count as u64) as int),
        Py::Dict(result_pairs(thread.messages@)),
    ]
}

fn text_pair(key: &str, value: &str) -> (r: (PyKey, PyValue))
    ensures
        (r.0@, r.1@) == entry(key@, Py::Str(value@)),
{
    (PyKey::Str(key.to_string()), PyValue::Str(value.to_string()))
}

fn message_to_dict(m: &ThreadMessage) -> (r: PyValue)
    ensures
        r@ == message_dict(*m),
{
    broadcast use lemma_py_of_compound;

    let mut pairs: Vec<(PyKey, PyValue)> = Vec::new();
    pairs.push(text_pair("role", m.role.name()));
    pairs.push(text_pair("content", m.content.as_str()));
    match &m.action_name {
        Some(name) => {
            pairs.push(text_pair("action_name", name.as_str()));
        },
        None => {},
    }
    assert(py_pairs(pairs@) =~= message_dict(*m)->Dict_0);
    PyValue::Dict(pairs)
}

fn collect_results(messages: &Vec<ThreadMessage>) -> (r: Vec<(PyKey, PyValue)>)
    ensures
        py_pairs(r@) == result_pairs(messages@),
{
    let mut out: Vec<(PyKey, PyValue)> = Vec::new();
    let mut i: usize = 0;
    assert(messages@.take(0) =~= seq![]);
    assert(py_pairs(out@) =~= seq![]);
    while i < messages.len()
        invariant
            i <= messages.len(),
            py_pairs(out@) == result_pairs(messages@.take(i as int)),
        decreases messages.len() - i,
    {
        proof {
            let next = messages@.take(i + 1);
            assert(next.drop_last() =~= messages@.take(i as int));
            assert(next.last() == messages@[i as int]);
        }
        let m = &messages[i];
        let ghost before = out@;
        if m.role == MessageRole::ActionResult {
            match &m.action_call_id {
                Some(call_id) => {
                    out.push(text_pair(call_id.as_str(), m.content.as_str()));
                },
                None => {},
            }
        }
        i += 1;
        assert(py_pairs(out@) =~= py_pairs(before) + result_pair(*m));
    }
    assert(messages@.take(i as int) =~= messages@);
    out
}

/// The variables that give the code its thread: the messages, the goal, the
/// step and earlier results.
pub fn build_context_inputs(thread: &Thread) -> (r: (Vec<String>, Vec<PyValue>))
    ensures
        texts(r.0@) == input_names(),
        py_list(r.1@) == input_values(*thread),
{
    broadcast use lemma_py_of_compound;

    let mut names: Vec<String> = Vec::new();
    let mut values: Vec<PyValue> = Vec::new();
    let mut messages: Vec<PyValue> = Vec::new();
    let mut i: usize = 0;
    while i < thread.messages.len()
        invariant
            i <= thread.messages.len(),
            messages.len() == i,
            forall|k: int|
                0 <= k < i ==> (#[trigger] messages@[k])@ == message_dict(thread.messages@[k]),
        decreases thread.messages.len() - i,
    {
        messages.push(message_to_dict(&thread.messages[i]));
        i += 1;
    }
    assert(py_list(messages@) =~= thread.messages@.map_values(
        |m: ThreadMessage| message_dict(m),
    ));
    names.push("context".to_string());
    values.push(PyValue::List(messages));
    names.push("goal".to_string());
    values.push(PyValue::Str(thread.goal.clone()));
    names.push("step_number".to_string());
    values.push(PyValue::Int(to_signed(thread.step_count as u64)));
    names.push("previous_results".to_string());
    values.push(PyValue::Dict(collect_results(&thread.messages)));
    assert(texts(names@) =~= input_names());
    assert(py_list(values@) =~= input_values(*thread));
    (names, values)
}

// ── Calls back into the interpreter ─────────────────────────

/// A Python exception that a call ends with.
#[derive(Clone, Copy, Debug, PartialEq, Eq, Structural)]
pub enum ExcKind {
    OsError,
    TypeError,
    RuntimeError,
}

/// What a suspended call is resumed with.
#[derive(Debug)]
pub enum ExtResult {
    Return(PyValue),
    Raise { kind: ExcKind, message: String },
    /// No function of this name exists.
    NotFound(String),
}

/// What a resumption holds.
pub ghost enum ExtView {
    Return(Py),
    Raise { kind: ExcKind, message: Seq<char> },
    NotFound(Seq<char>),
}

impl View for ExtResult {
    type V = ExtView;

    open spec fn view(&self) -> ExtView {
        match *self {
            ExtResult::Return(v) => ExtView::Return(v@),
            ExtResult::Raise { kind, message } => ExtView::Raise { kind, message: message@ },
            ExtResult::NotFound(name) => ExtView::NotFound(name@),
        }
    }
}

fn raise(kind: ExcKind, message: String) -> (r: ExtResult)
    ensures
        r@ == (ExtView::Raise { kind, message: message@ }),
{
    ExtResult::Raise { kind, message }
}

// ── Sub-agents ──────────────────────────────────────────────

/// What a request to a model holds.
pub open spec fn request_of(prompt: Seq<char>, context: Option<Seq<char>>) -> Seq<MessageView> {
    (match context {
        Some(text) => seq![
            plain_message(
                MessageRole::System,
                "You are a sub-agent. Here is the context:\n\n"@ + text,
            ),
        ],
        None => Seq::<MessageView>::empty(),
    }) + seq![plain_message(MessageRole::User, prompt)]
}

/// The request that `llm_query(prompt, context)` makes: plain text, no tools;
/// a `TypeError` where there is no prompt.
pub fn handle_llm_query(args: &Vec<PyValue>, kwargs: &Vec<(PyKey, PyValue)>) -> (r: Result<
    LlmRequest,
    ExtResult,
>)
    ensures
        (match text_arg(py_list(args@), py_pairs(kwargs@), "prompt"@, 0) {
            Some(prompt) => r is Ok && r->Ok_0.force_text && message_views(r->Ok_0.messages@)
                == request_of(
                prompt,
                text_arg(py_list(args@), py_pairs(kwargs@), "context"@, 1),
            ),
            None => r is Err && r->Err_0@ == missing_prompt(),
        }),
{
    let prompt = extract_string_arg(args, kwargs, "prompt", 0);
    let context = extract_string_arg(args, kwargs, "context", 1);
    let ghost told = text_arg(py_list(args@), py_pairs(kwargs@), "context"@, 1);
    match prompt {
        Some(prompt) => {
            let mut messages: Vec<ThreadMessage> = Vec::new();
            match context {
                Some(ctx) => {
                    let mut text = "You are a sub-agent. Here is the context:\n\n".to_string();
                    text.append(ctx.as_str());
                    messages.push(ThreadMessage::system(text));
                },
                None => {},
            }
            messages.push(ThreadMessage::user(prompt));
            assert(message_views(messages@) =~= request_of(prompt@, told));
            Ok(LlmRequest { messages, force_text: true })
        },
        None => Err(
            raise(ExcKind::TypeError, "llm_query() requires a 'prompt' argument".to_string()),
        ),
    }
}

/// The exception of a query without a prompt.
pub open spec fn missing_prompt() -> ExtView {
    ExtView::Raise {
        kind: ExcKind::TypeError,
        message: "llm_query() requires a 'prompt' argument"@,
    }
}

// ── A run of code ───────────────────────────────────────────

/// What a run waits for.
#[derive(Clone, Copy, Debug, PartialEq, Eq, Structural)]
pub enum RunStage {
    /// The interpreter.
    Interpreter,
    /// The model's answer to a query.
    Model,
    /// Whether the thread has a lease for the action.
    Lease,
    /// The actions that the lease offers.
    Actions,
    /// The policy's decision.
    Policy,
    /// Whether a use of the lease was left.
    Use,
    /// The action's outcome.
    Outcome,
    /// Nothing: the run is over.
    Over,
}

/// The call that a run is busy with.
#[derive(Debug)]
pub struct PendingCall {
    pub call_id: String,
    pub action_name: String,
    pub params: JsonValue,
}

/// What a pending call holds.
pub ghost struct CallView {
    pub call_id: Seq<char>,
    pub action_name: Seq<char>,
    pub params: Json,
}

impl View for PendingCall {
    type V = CallView;

    open spec fn view(&self) -> CallView {
        CallView {
            call_id: self.call_id@,
            action_name: self.action_name@,
            params: self.params@,
        }
    }
}

/// What the interpreter did.
#[derive(Debug)]
pub enum VmEvent {
    ParseFailed(String),
    ParsePanicked,
    StartFailed(String),
    StartPanicked,
    ResumeFailed(String),
    ResumePanicked,
    Complete(PyValue),
    FunctionCall { name: String, args: Vec<PyValue>, kwargs: Vec<(PyKey, PyValue)> },
    NameLookup(String),
    OsCall,
    ResolveFutures,
}

/// What to do about it.
#[derive(Debug)]
pub enum VmAction {
    /// The code returned this value.
    Finish(JsonValue),
    Fail(EngineError),
    /// Resume with an undefined name.
    ResumeUndefined,
    Resume(ExtResult),
    AskModel(LlmRequest),
    AskLease,
}

/// What an action says.
pub ghost enum VmActionView {
    Finish(Json),
    Fail(EngineErrorView),
    ResumeUndefined,
    Resume(ExtView),
    AskModel(Seq<MessageView>),
    AskLease,
}

impl View for VmAction {
    type V = VmActionView;

    open spec fn view(&self) -> VmActionView {
        match *self {
            VmAction::Finish(v) => VmActionView::Finish(v@),
            VmAction::Fail(e) => VmActionView::Fail(e@),
            VmAction::ResumeUndefined => VmActionView::ResumeUndefined,
            VmAction::Resume(x) => VmActionView::Resume(x@),
            VmAction::AskModel(request) => VmActionView::AskModel(
                message_views(request.messages@),
            ),
            VmAction::AskLease => VmActionView::AskLease,
        }
    }
}

/// An engine error with this reason.
pub open spec fn effect_error(reason: Seq<char>) -> VmActionView {
    VmActionView::Fail(EngineErrorView::Effect { reason })
}

/// What is done when the interpreter reports an event.
pub open spec fn vm_decision(event: VmEvent) -> VmActionView {
    match event {
        VmEvent::ParseFailed(e) => effect_error("Python parse error: "@ + e@),
        VmEvent::ParsePanicked => effect_error("Monty VM panicked during code parsing"@),
        VmEvent::StartFailed(e) => effect_error("Python execution error: "@ + e@),
        VmEvent::StartPanicked => effect_error("Monty VM panicked during execution start"@),
        VmEvent::ResumeFailed(e) => effect_error("Python execution error: "@ + e@),
        VmEvent::ResumePanicked => effect_error("Monty VM panicked during execution resume"@),
        VmEvent::Complete(value) => VmActionView::Finish(py_json(value@)),
        VmEvent::FunctionCall { name, args, kwargs } => if name@ == "llm_query"@ {
            match text_arg(py_list(args@), py_pairs(kwargs@), "prompt"@, 0) {
                Some(prompt) => VmActionView::AskModel(
                    request_of(
                        prompt,
                        text_arg(py_list(args@), py_pairs(kwargs@), "context"@, 1),
                    ),
                ),
                None => VmActionView::Resume(missing_prompt()),
            }
        } else {
            VmActionView::AskLease
        },
        VmEvent::NameLookup(_) => VmActionView::ResumeUndefined,
        VmEvent::OsCall => VmActionView::Resume(
            ExtView::Raise {
                kind: ExcKind::OsError,
                message: "OS operations are not permitted in CodeAct scripts"@,
            },
        ),
        VmEvent::ResolveFutures => effect_error(
            "async/await is not supported in CodeAct scripts"@,
        ),
    }
}

/// What a run waits for after an action.
pub open spec fn stage_of(action: VmActionView) -> RunStage {
    match action {
        VmActionView::Finish(_) => RunStage::Over,
        VmActionView::Fail(_) => RunStage::Over,
        VmActionView::ResumeUndefined => RunStage::Interpreter,
        VmActionView::Resume(_) => RunStage::Interpreter,
        VmActionView::AskModel(_) => RunStage::Model,
        VmActionView::AskLease => RunStage::Lease,
    }
}

/// What a dispatched action is told.
#[derive(Debug)]
pub enum DispatchEvent {
    /// Whether the thread has a lease for the action.
    Lease(bool),
    /// The actions that the lease offers; none where they could not be had.
    Actions(Option<Vec<ActionDef>>),
    Policy(PolicyDecision),
    /// The error, where no use of the lease was left.
    Use(Option<String>),
    Outcome(Result<ActionResult, String>),
}

/// What to do next for a dispatched action.
#[derive(Debug)]
pub enum DispatchStep {
    AskActions,
    /// Ask the policy about the action with this position among those offered.
    AskPolicy(usize),
    ConsumeUse,
    Execute,
    Resume(ExtResult),
    /// The run stops until the user approves the call.
    NeedApproval,
}

/// What a step says.
pub ghost enum StepView {
    AskActions,
    AskPolicy(int),
    ConsumeUse,
    Execute,
    Resume(ExtView),
    NeedApproval,
}

impl View for DispatchStep {
    type V = StepView;

    open spec fn view(&self) -> StepView {
        match *self {
            DispatchStep::AskActions => StepView::AskActions,
            DispatchStep::AskPolicy(i) => StepView::AskPolicy(i as int),
            DispatchStep::ConsumeUse => StepView::ConsumeUse,
            DispatchStep::Execute => StepView::Execute,
            DispatchStep::Resume(x) => StepView::Resume(x@),
            DispatchStep::NeedApproval => StepView::NeedApproval,
        }
    }
}

/// The event is the one that the stage waits for.
pub open spec fn dispatch_awaited(stage: RunStage, event: DispatchEvent) -> bool {
    match stage {
        RunStage::Lease => event is Lease,
        RunStage::Actions => event is Actions,
        RunStage::Policy => event is Policy,
        RunStage::Use => event is Use,
        RunStage::Outcome => event is Outcome,
        _ => false,
    }
}

/// What a run waits for after a step.
pub open spec fn stage_after_step(step: StepView) -> RunStage {
    match step {
        StepView::AskActions => RunStage::Actions,
        StepView::AskPolicy(_) => RunStage::Policy,
        StepView::ConsumeUse => RunStage::Use,
        StepView::Execute => RunStage::Outcome,
        StepView::Resume(_) => RunStage::Interpreter,
        StepView::NeedApproval => RunStage::Over,
    }
}

/// The position of the first action of that name, or the number of actions
/// where there is none.
pub open spec fn position_of(actions: Seq<ActionDef>, name: Seq<char>) -> int
    decreases actions.len(),
{
    if actions.len() == 0 {
        0
    } else if actions[0].name@ == name {
        0
    } else {
        1 + position_of(actions.drop_first(), name)
    }
}

/// What is done about a dispatched call on an event that it waits for.
pub open spec fn dispatch_decision(call: CallView, event: DispatchEvent) -> StepView {
    match event {
        DispatchEvent::Lease(found) => if found {
            StepView::AskActions
        } else {
            StepView::Resume(ExtView::NotFound(call.action_name))
        },
        DispatchEvent::Actions(offered) => match offered {
            Some(actions) => if position_of(actions@, call.action_name) < actions@.len() {
                StepView::AskPolicy(position_of(actions@, call.action_name))
            } else {
                StepView::ConsumeUse
            },
            None => StepView::ConsumeUse,
        },
        DispatchEvent::Policy(decision) => match decision {
            PolicyDecision::Deny { reason } => StepView::Resume(
                ExtView::Raise { kind: ExcKind::RuntimeError, message: "denied: "@ + reason@ },
            ),
            PolicyDecision::RequireApproval { reason } => StepView::NeedApproval,
            PolicyDecision::Allow => StepView::ConsumeUse,
        },
        DispatchEvent::Use(error) => match error {
            Some(e) => StepView::Resume(
                ExtView::Raise {
                    kind: ExcKind::RuntimeError,
                    message: "lease exhausted: "@ + e@,
                },
            ),
            None => StepView::Execute,
        },
        DispatchEvent::Outcome(outcome) => match outcome {
            Ok(result) => StepView::Resume(ExtView::Return(json_py(result.output@))),
            Err(e) => StepView::Resume(
                ExtView::Raise { kind: ExcKind::RuntimeError, message: e@ },
            ),
        },
    }
}

/// The event that a failed call leaves.
pub open spec fn failed_event(step_id: StepId, call: CallView, error: Seq<char>) -> EventKindView {
    EventKindView::ActionFailed {
        step_id,
        action_name: call.action_name,
        call_id: call.call_id,
        error,
    }
}

/// The events that a dispatched call leaves on an event: a refusal, a request
/// for approval, and what came of an executed action. An exhausted lease
/// leaves none.
pub open spec fn events_left(step_id: StepId, call: CallView, event: DispatchEvent) -> Seq<
    EventKindView,
> {
    match event {
        DispatchEvent::Lease(found) => if found {
            seq![]
        } else {
            seq![
                failed_event(step_id, call, "no lease for action '"@ + call.action_name + "'"@),
            ]
        },
        DispatchEvent::Policy(decision) => match decision {
            PolicyDecision::Deny { reason } => seq![failed_event(step_id, call, reason@)],
            PolicyDecision::RequireApproval { reason } => seq![
                EventKindView::ApprovalRequested {
                    action_name: call.action_name,
                    call_id: call.call_id,
                },
            ],
            PolicyDecision::Allow => seq![],
        },
        DispatchEvent::Outcome(outcome) => match outcome {
            Ok(result) => seq![
                EventKindView::ActionExecuted {
                    step_id,
                    action_name: call.action_name,
                    call_id: call.call_id,
                    duration_ms: (result.duration.millis() % 0x1_0000_0000_0000_0000) as u64,
                },
            ],
            Err(e) => seq![failed_event(step_id, call, e@)],
        },
        _ => seq![],
    }
}

/// The results that a dispatched call leaves on an event: one for each
/// executed action, failed ones with their error.
pub open spec fn results_left(call: CallView, event: DispatchEvent) -> Seq<ActionResultView> {
    match event {
        DispatchEvent::Outcome(outcome) => match outcome {
            Ok(result) => seq![result@],
            Err(e) => seq![
                ActionResultView {
                    call_id: call.call_id,
                    action_name: call.action_name,
                    output: Json::empty_object().with("error"@, Json::Text(e@)),
                    is_error: true,
                    duration: Duration { secs: 0, nanos: 0 },
                },
            ],
        },
        _ => seq![],
    }
}

/// The identifier of the `n`-th call of a run.
pub open spec fn call_id_of(n: nat) -> Seq<char> {
    "code_call_"@ + decimal(n)
}

/// A call that waits for the user's approval.
#[derive(Debug)]
pub struct ApprovalNeeded {
    pub action_name: String,
    pub call_id: String,
    pub parameters: JsonValue,
}

/// What a run of code came to.
#[derive(Debug)]
pub struct CodeExecutionResult {
    pub return_value: JsonValue,
    pub stdout: String,
    pub action_results: Vec<ActionResult>,
    pub events: Vec<EventKind>,
    pub need_approval: Option<ApprovalNeeded>,
    pub recursive_tokens: TokenUsage,
}

/// A run of code in a step of a thread.
#[derive(Debug)]
pub struct CodeRun {
    step_id: StepId,
    call_counter: u32,
    stage: RunStage,
    pending: PendingCall,
    action_results: Vec<ActionResult>,
    events: Vec<EventKind>,
    recursive_tokens: TokenUsage,
}

impl CodeRun {
    /// The step that the code belongs to.
    pub closed spec fn step(self) -> StepId {
        self.step_id
    }

    /// How many calls the code has made.
    pub closed spec fn calls(self) -> u32 {
        self.call_counter
    }

    /// What the run waits for.
    pub closed spec fn waits_for(self) -> RunStage {
        self.stage
    }

    /// The call that the run is busy with, or was last.
    pub closed spec fn call(self) -> CallView {
        self.pending@
    }

    /// The results of actions so far.
    pub closed spec fn results(self) -> Seq<ActionResultView> {
        result_views(self.action_results@)
    }

    /// The events so far.
    pub closed spec fn history(self) -> Seq<EventKindView> {
        kinds(self.events@)
    }

    /// Tokens that queries to the model have used.
    pub closed spec fn tokens(self) -> TokenUsage {
        self.recursive_tokens
    }

    /// A run in the given step that has not started yet.
    pub fn new(step_id: StepId) -> (r: CodeRun)
        ensures
            r.step() == step_id,
            r.calls() == 0,
            r.waits_for() == RunStage::Interpreter,
            r.results() == Seq::<ActionResultView>::empty(),
            r.history() == Seq::<EventKindView>::empty(),
            r.tokens() == TokenUsage::zero(),
    {
        let run = CodeRun {
            step_id,
            call_counter: 0,
            stage: RunStage::Interpreter,
            pending: PendingCall {
                call_id: String::new(),
                action_name: String::new(),
                params: JsonValue::Null,
            },
            action_results: Vec::new(),
            events: Vec::new(),
            recursive_tokens: TokenUsage::none(),
        };
        assert(result_views(run.action_results@) =~= seq![]);
        assert(kinds(run.events@) =~= seq![]);
        run
    }

    /// How many calls the code has made.
    pub fn call_count(&self) -> (r: u32)
        ensures
            r == self.calls(),
    {
        self.call_counter
    }

    /// What the run waits for.
    pub fn stage(&self) -> (r: RunStage)
        ensures
            r == self.waits_for(),
    {
        self.stage
    }

    /// The call that the run is busy with, or was last.
    pub fn pending_call(&self) -> (r: &PendingCall)
        ensures
            r@ == self.call(),
    {
        &self.pending
    }

    /// Tokens that queries to the model have used.
    pub fn tokens_used(&self) -> (r: TokenUsage)
        ensures
            r == self.tokens(),
    {
        self.recursive_tokens
    }

    /// Takes what the interpreter did: the end of the code, an error, a name
    /// it does not know, or a call. A call gets the next identifier; a query
    /// goes to the model and any other call is dispatched as an action.
    pub fn execute_code(&mut self, event: VmEvent) -> (r: VmAction)
        requires
            old(self).waits_for() == RunStage::Interpreter,
            event is FunctionCall ==> old(self).calls() < u32::MAX,
        ensures
            r@ == vm_decision(event),
            r is AskModel ==> r->AskModel_0.force_text,
            final(self).waits_for() == stage_of(r@),
            (match event {
                VmEvent::FunctionCall { name, args, kwargs } => {
                    &&& final(self).calls() == old(self).calls() + 1
                    &&& final(self).call() == (CallView {
                        call_id: call_id_of(final(self).calls() as nat),
                        action_name: name@,
                        params: args_json(py_list(args@), py_pairs(kwargs@)),
                    })
                },
                _ => final(self).calls() == old(self).calls() && final(self).call() == old(self).call(),
            }),
            final(self).step() == old(self).step(),
            final(self).results() == old(self).results(),
            final(self).history() == old(self).history(),
            final(self).tokens() == old(self).tokens(),
    {
        match event {
            VmEvent::ParseFailed(e) => self.fail_with("Python parse error: ", e.as_str()),
            VmEvent::ParsePanicked => self.fail("Monty VM panicked during code parsing"),
            VmEvent::StartFailed(e) => self.fail_with("Python execution error: ", e.as_str()),
            VmEvent::StartPanicked => self.fail("Monty VM panicked during execution start"),
            VmEvent::ResumeFailed(e) => self.fail_with("Python execution error: ", e.as_str()),
            VmEvent::ResumePanicked => self.fail("Monty VM panicked during execution resume"),
            VmEvent::Complete(value) => {
                self.stage = RunStage::Over;
                VmAction::Finish(monty_to_json(&value))
            },
            VmEvent::FunctionCall { name, args, kwargs } => {
                self.call_counter = self.call_counter + 1;
                let mut call_id = "code_call_".to_string();
                append_decimal(&mut call_id, self.call_counter as u64);
                let params = monty_args_to_json(&args, &kwargs);
                let is_query = same_text(name.as_str(), "llm_query");
                self.pending = PendingCall { call_id, action_name: name, params };
                if is_query {
                    match handle_llm_query(&args, &kwargs) {
                        Ok(request) => {
                            self.stage = RunStage::Model;
                            VmAction::AskModel(request)
                        },
                        Err(x) => VmAction::Resume(x),
                    }
                } else {
                    self.stage = RunStage::Lease;
                    VmAction::AskLease
                }
            },
            VmEvent::NameLookup(_) => VmAction::ResumeUndefined,
            VmEvent::OsCall => VmAction::Resume(
                raise(
                    ExcKind::OsError,
                    "OS operations are not permitted in CodeAct scripts".to_string(),
                ),
            ),
            VmEvent::ResolveFutures => self.fail("async/await is not supported in CodeAct scripts"),
        }
    }

    fn fail(&mut self, reason: &str) -> (r: VmAction)
        ensures
            r@ == effect_error(reason@),
            final(self).waits_for() == RunStage::Over,
            final(self).calls() == old(self).calls(),
            final(self).call() == old(self).call(),
            final(self).step() == old(self).step(),
            final(self).results() == old(self).results(),
            final(self).history() == old(self).history(),
            final(self).tokens() == old(self).tokens(),
    {
        self.stage = RunStage::Over;
        VmAction::Fail(EngineError::Effect { reason: reason.to_string() })
    }

    fn fail_with(&mut self, what: &str, cause: &str) -> (r: VmAction)
        ensures
            r@ == effect_error(what@ + cause@),
            final(self).waits_for() == RunStage::Over,
            final(self).calls() == old(self).calls(),
            final(self).call() == old(self).call(),
            final(self).step() == old(self).step(),
            final(self).results() == old(self).results(),
            final(self).history() == old(self).history(),
            final(self).tokens() == old(self).tokens(),
    {
        let mut reason = what.to_string();
        reason.append(cause);
        self.stage = RunStage::Over;
        VmAction::Fail(EngineError::Effect { reason })
    }

    /// Takes the model's answer to a query: its text becomes the call's value
    /// and its tokens are counted; a failed query raises.
    pub fn answer_query(&mut self, reply: Result<LlmOutput, String>) -> (r: ExtResult)
        requires
            old(self).waits_for() == RunStage::Model,
            reply matches Ok(output) ==> old(self).tokens().fits(output.usage),
        ensures
            (match reply {
                Ok(output) => r@ == ExtView::Return(Py::Str(response_content(output.response)))
                    && final(self).tokens() == old(self).tokens().plus(output.usage),
                Err(e) => r@ == (ExtView::Raise {
                    kind: ExcKind::RuntimeError,
                    message: "llm_query failed: "@ + e@,
                }) && final(self).tokens() == old(self).tokens(),
            }),
            final(self).waits_for() == RunStage::Interpreter,
            final(self).step() == old(self).step(),
            final(self).calls() == old(self).calls(),
            final(self).call() == old(self).call(),
            final(self).results() == old(self).results(),
            final(self).history() == old(self).history(),
    {
        self.stage = RunStage::Interpreter;
        match reply {
            Ok(output) => {
                self.recursive_tokens.record(output.usage);
                ExtResult::Return(PyValue::Str(output.response.into_content()))
            },
            Err(e) => {
                let mut message = "llm_query failed: ".to_string();
                message.append(e.as_str());
                raise(ExcKind::RuntimeError, message)
            },
        }
    }

    fn leave(&mut self, event: EventKind)
        ensures
            final(self).history() == old(self).history().push(event@),
            final(self).waits_for() == old(self).waits_for(),
            final(self).step() == old(self).step(),
            final(self).calls() == old(self).calls(),
            final(self).call() == old(self).call(),
            final(self).results() == old(self).results(),
            final(self).tokens() == old(self).tokens(),
    {
        self.events.push(event);
        assert(kinds(self.events@) =~= kinds(old(self).events@).push(event@));
    }

    fn leave_failure(&mut self, error: String)
        ensures
            final(self).history() == old(self).history().push(
                failed_event(old(self).step(), old(self).call(), error@),
            ),
            final(self).waits_for() == old(self).waits_for(),
            final(self).step() == old(self).step(),
            final(self).calls() == old(self).calls(),
            final(self).call() == old(self).call(),
            final(self).results() == old(self).results(),
            final(self).tokens() == old(self).tokens(),
    {
        let event = EventKind::ActionFailed {
            step_id: self.step_id,
            action_name: self.pending.action_name.clone(),
            call_id: self.pending.call_id.clone(),
            error,
        };
        self.leave(event);
    }

    fn keep(&mut self, result: ActionResult)
        ensures
            final(self).results() == old(self).results().push(result@),
            final(self).waits_for() == old(self).waits_for(),
            final(self).step() == old(self).step(),
            final(self).calls() == old(self).calls(),
            final(self).call() == old(self).call(),
            final(self).history() == old(self).history(),
            final(self).tokens() == old(self).tokens(),
    {
        self.action_results.push(result);
        assert(result_views(self.action_results@) =~= result_views(
            old(self).action_results@,
        ).push(result@));
    }

    /// Takes a dispatched call one step further: a lease for the action, the
    /// policy where the action is known, a use of the lease, and then the
    /// action itself.
    pub fn dispatch_action(&mut self, event: DispatchEvent) -> (r: DispatchStep)
        requires
            dispatch_awaited(old(self).waits_for(), event),
        ensures
            r@ == dispatch_decision(old(self).call(), event),
            final(self).waits_for() == stage_after_step(r@),
            final(self).history() == old(self).history() + events_left(
                old(self).step(),
                old(self).call(),
                event,
            ),
            final(self).results() == old(self).results() + results_left(old(self).call(), event),
            final(self).step() == old(self).step(),
            final(self).calls() == old(self).calls(),
            final(self).call() == old(self).call(),
            final(self).tokens() == old(self).tokens(),
    {
        let ghost left = events_left(self.step(), self.call(), event);
        let ghost kept = results_left(self.call(), event);
        let step = match event {
            DispatchEvent::Lease(found) => {
                if found {
                    self.stage = RunStage::Actions;
                    DispatchStep::AskActions
                } else {
                    let mut error = "no lease for action '".to_string();
                    error.append(self.pending.action_name.as_str());
                    error.append("'");
                    self.leave_failure(error);
                    self.stage = RunStage::Interpreter;
                    DispatchStep::Resume(
                        ExtResult::NotFound(self.pending.action_name.clone()),
                    )
                }
            },
            DispatchEvent::Actions(offered) => {
                match offered {
                    Some(actions) => {
                        let at: usize = find_action(&actions, self.pending.action_name.as_str());
                        if at < actions.len() {
                            self.stage = RunStage::Policy;
                            DispatchStep::AskPolicy(at)
                        } else {
                            self.stage = RunStage::Use;
                            DispatchStep::ConsumeUse
                        }
                    },
                    None => {
                        self.stage = RunStage::Use;
                        DispatchStep::ConsumeUse
                    },
                }
            },
            DispatchEvent::Policy(decision) => self.apply_policy(decision),
            DispatchEvent::Use(error) => {
                match error {
                    Some(e) => {
                        let mut message = "lease exhausted: ".to_string();
                        message.append(e.as_str());
                        self.stage = RunStage::Interpreter;
                        DispatchStep::Resume(raise(ExcKind::RuntimeError, message))
                    },
                    None => {
                        self.stage = RunStage::Outcome;
                        DispatchStep::Execute
                    },
                }
            },
            DispatchEvent::Outcome(outcome) => self.take_outcome(outcome),
        };
        assert(self.history() =~= old(self).history() + left);
        assert(self.results() =~= old(self).results() + kept);
        step
    }

    fn apply_policy(&mut self, decision: PolicyDecision) -> (r: DispatchStep)
        ensures
            r@ == dispatch_decision(old(self).call(), DispatchEvent::Policy(decision)),
            final(self).waits_for() == stage_after_step(r@),
            final(self).history() == old(self).history() + events_left(
                old(self).step(),
                old(self).call(),
                DispatchEvent::Policy(decision),
            ),
            final(self).results() == old(self).results(),
            final(self).step() == old(self).step(),
            final(self).calls() == old(self).calls(),
            final(self).call() == old(self).call(),
            final(self).tokens() == old(self).tokens(),
    {
        let ghost left = events_left(self.step(), self.call(), DispatchEvent::Policy(decision));
        match decision {
            PolicyDecision::Deny { reason } => {
                let mut message = "denied: ".to_string();
                message.append(reason.as_str());
                self.leave_failure(reason);
                self.stage = RunStage::Interpreter;
                assert(self.history() =~= old(self).history() + left);
                DispatchStep::Resume(raise(ExcKind::RuntimeError, message))
            },
            PolicyDecision::RequireApproval { reason } => {
                let event = EventKind::ApprovalRequested {
                    action_name: self.pending.action_name.clone(),
                    call_id: self.pending.call_id.clone(),
                };
                self.leave(event);
                self.stage = RunStage::Over;
                assert(self.history() =~= old(self).history() + left);
                DispatchStep::NeedApproval
            },
            PolicyDecision::Allow => {
                self.stage = RunStage::Use;
                assert(self.history() =~= old(self).history() + left);
                DispatchStep::ConsumeUse
            },
        }
    }

    fn take_outcome(&mut self, outcome: Result<ActionResult, String>) -> (r: DispatchStep)
        ensures
            r@ == dispatch_decision(old(self).call(), DispatchEvent::Outcome(outcome)),
            final(self).waits_for() == stage_after_step(r@),
            final(self).history() == old(self).history() + events_left(
                old(self).step(),
                old(self).call(),
                DispatchEvent::Outcome(outcome),
            ),
            final(self).results() == old(self).results() + results_left(
                old(self).call(),
                DispatchEvent::Outcome(outcome),
            ),
            final(self).step() == old(self).step(),
            final(self).calls() == old(self).calls(),
            final(self).call() == old(self).call(),
            final(self).tokens() == old(self).tokens(),
    {
        broadcast use crate::json::lemma_view_of_compound;

        let ghost left = events_left(self.step(), self.call(), DispatchEvent::Outcome(outcome));
        let ghost kept = results_left(self.call(), DispatchEvent::Outcome(outcome));
        match outcome {
            Ok(result) => {
                let event = EventKind::ActionExecuted {
                    step_id: self.step_id,
                    action_name: self.pending.action_name.clone(),
                    call_id: self.pending.call_id.clone(),
                    duration_ms: result.duration.as_millis_u64(),
                };
                self.leave(event);
                let value = json_to_monty(&result.output);
                self.keep(result);
                self.stage = RunStage::Interpreter;
                assert(self.history() =~= old(self).history() + left);
                assert(self.results() =~= old(self).results() + kept);
                DispatchStep::Resume(ExtResult::Return(value))
            },
            Err(e) => {
                let mut entries: Vec<(String, JsonValue)> = Vec::new();
                assert(json_entries(entries@) =~= seq![]);
                put_entry(&mut entries, "error".to_string(), JsonValue::Str(e.clone()));
                let result = ActionResult {
                    call_id: self.pending.call_id.clone(),
                    action_name: self.pending.action_name.clone(),
                    output: JsonValue::Object(entries),
                    is_error: true,
                    duration: Duration::zero(),
                };
                self.keep(result);
                self.leave_failure(e.clone());
                self.stage = RunStage::Interpreter;
                assert(self.history() =~= old(self).history() + left);
                assert(self.results() =~= old(self).results() + kept);
                DispatchStep::Resume(raise(ExcKind::RuntimeError, e))
            },
        }
    }

    /// The result of code that returned `value` and printed `stdout`.
    pub fn finish(self, value: JsonValue, stdout: String) -> (r: CodeExecutionResult)
        ensures
            r.return_value == value,
            r.stdout == stdout,
            result_views(r.action_results@) == self.results(),
            kinds(r.events@) == self.history(),
            r.need_approval is None,
            r.recursive_tokens == self.tokens(),
    {
        CodeExecutionResult {
            return_value: value,
            stdout,
            action_results: self.action_results,
            events: self.events,
            need_approval: None,
            recursive_tokens: self.recursive_tokens,
        }
    }

    /// The result of code that waits for the approval of its pending call.
    pub fn suspend(self, stdout: String) -> (r: CodeExecutionResult)
        ensures
            r.return_value@ == Json::Null,
            r.stdout == stdout,
            result_views(r.action_results@) == self.results(),
            kinds(r.events@) == self.history(),
            r.need_approval matches Some(need) && need.action_name@ == self.call().action_name
                && need.call_id@ == self.call().call_id && need.parameters@ == self.call().params,
            r.recursive_tokens == self.tokens(),
    {
        CodeExecutionResult {
            return_value: JsonValue::Null,
            stdout,
            action_results: self.action_results,
            events: self.events,
            need_approval: Some(
                ApprovalNeeded {
                    action_name: self.pending.action_name,
                    call_id: self.pending.call_id,
                    parameters: self.pending.params,
                },
            ),
            recursive_tokens: self.recursive_tokens,
        }
    }
}

proof fn lemma_position(actions: Seq<ActionDef>, name: Seq<char>, i: int)
    requires
        0 <= i <= actions.len(),
        forall|j: int| 0 <= j < i ==> (#[trigger] actions[j]).name@ != name,
        i < actions.len() ==> actions[i].name@ == name,
    ensures
        position_of(actions, name) == i,
    decreases actions.len(),
{
    if actions.len() > 0 && i > 0 {
        let rest = actions.drop_first();
        assert forall|j: int| 0 <= j < i - 1 implies (#[trigger] rest[j]).name@ != name by {
            assert(rest[j] == actions[j + 1]);
        }
        assert(actions[0].name@ != name);
        lemma_position(rest, name, i - 1);
    }
}

fn find_action(actions: &Vec<ActionDef>, name: &str) -> (r: usize)
    ensures
        r == position_of(actions@, name@),
        r <= actions.len(),
{
    let mut i: usize = 0;
    while i < actions.len() && !same_text(actions[i].name.as_str(), name)
        invariant
            i <= actions.len(),
            forall|j: int| 0 <= j < i ==> (#[trigger] actions@[j]).name@ != name@,
        decreases actions.len() - i,
    {
        i += 1;
    }
    proof {
        lemma_position(actions@, name@, i as int);
    }
    i
}

// ── Laws ────────────────────────────────────────────────────

/// The calls of a run have different identifiers.
pub proof fn law_call_ids_are_distinct(m: nat, n: nat)
    requires
        call_id_of(m) == call_id_of(n),
    ensures
        m == n,
{
    let p = "code_call_"@;
    assert(call_id_of(m).skip(p.len() as int) =~= decimal(m));
    assert(call_id_of(n).skip(p.len() as int) =~= decimal(n));
    crate::text::law_numerals_are_distinct(m, n);
}

/// An action runs only after a use of a lease was had, a use is only asked for
/// after the policy allowed the action or where no action of that name is
/// offered, and the policy is only asked once a lease was found.
pub proof fn law_actions_run_in_order(call: CallView, stage: RunStage, event: DispatchEvent)
    requires
        dispatch_awaited(stage, event),
    ensures
        dispatch_decision(call, event) is Execute <==> (event matches DispatchEvent::Use(error)
            && error is None),
        dispatch_decision(call, event) is ConsumeUse <==> ((event matches DispatchEvent::Policy(
            decision,
        ) && decision is Allow) || (event matches DispatchEvent::Actions(offered) && (match offered {
            Some(actions) => position_of(actions@, call.action_name) >= actions@.len(),
            None => true,
        }))),
        dispatch_decision(call, event) is AskActions <==> event == DispatchEvent::Lease(true),
{
}

/// A dispatched call goes through to its action on these answers: a lease was
/// found, these actions were offered, the policy decided so where it was asked,
/// and a use of the lease was had or not.
pub open spec fn goes_through(
    call: CallView,
    offered: Option<Vec<ActionDef>>,
    decision: PolicyDecision,
    error: Option<String>,
) -> bool {
    &&& dispatch_decision(call, DispatchEvent::Lease(true)) is AskActions
    &&& match dispatch_decision(call, DispatchEvent::Actions(offered)) {
        StepView::AskPolicy(_) => dispatch_decision(
            call,
            DispatchEvent::Policy(decision),
        ) is ConsumeUse,
        StepView::ConsumeUse => true,
        _ => false,
    }
    &&& dispatch_decision(call, DispatchEvent::Use(error)) is Execute
}

/// An action runs exactly where the policy allows it, if an action of that name
/// is offered, and a use of the lease was left.
pub proof fn law_execution_needs_policy_and_use(
    call: CallView,
    offered: Option<Vec<ActionDef>>,
    decision: PolicyDecision,
    error: Option<String>,
)
    ensures
        goes_through(call, offered, decision, error) <==> {
            &&& offered matches Some(actions) ==> (exists|i: int|
                0 <= i < actions@.len() && (#[trigger] actions@[i]).name@ == call.action_name)
                ==> decision is Allow
            &&& error is None
        },
{
    if offered is Some {
        lemma_position_is_found(offered->0@, call.action_name);
    }
}

proof fn lemma_position_is_found(actions: Seq<ActionDef>, name: Seq<char>)
    ensures
        position_of(actions, name) < actions.len() <==> exists|i: int|
            0 <= i < actions.len() && (#[trigger] actions[i]).name@ == name,
        position_of(actions, name) <= actions.len(),
    decreases actions.len(),
{
    if actions.len() > 0 && actions[0].name@ != name {
        let rest = actions.drop_first();
        lemma_position_is_found(rest, name);
        if position_of(rest, name) < rest.len() {
            let i = choose|i: int| 0 <= i < rest.len() && (#[trigger] rest[i]).name@ == name;
            assert(actions[i + 1].name@ == name);
        }
        if exists|i: int| 0 <= i < actions.len() && (#[trigger] actions[i]).name@ == name {
            let i = choose|i: int| 0 <= i < actions.len() && (#[trigger] actions[i]).name@ == name;
            assert(rest[i - 1].name@ == name);
        }
    }
}

/// A denied or refused action leaves no result and does not run.
pub proof fn law_denied_actions_do_not_run(call: CallView, reason: String)
    ensures
        dispatch_decision(
            call,
            DispatchEvent::Policy(PolicyDecision::Deny { reason }),
        ) is Resume,
        results_left(call, DispatchEvent::Policy(PolicyDecision::Deny { reason }))
            == Seq::<ActionResultView>::empty(),
        dispatch_decision(call, DispatchEvent::Lease(false)) == StepView::Resume(
            ExtView::NotFound(call.action_name),
        ),
{
}

/// The first keyword argument of that name stands at position `i`.
pub open spec fn first_keyword(kwargs: Seq<(PyKey, PyValue)>, name: Seq<char>, i: int) -> bool {
    &&& 0 <= i < kwargs.len()
    &&& kwargs[i].0 matches PyKey::Str(key) && key@ == name
    &&& forall|j: int|
        0 <= j < i ==> !((#[trigger] kwargs[j]).0 matches PyKey::Str(key) && key@ == name)
}

/// No keyword argument has that name.
pub open spec fn no_keyword(kwargs: Seq<(PyKey, PyValue)>, name: Seq<char>) -> bool {
    forall|j: int|
        0 <= j < kwargs.len() ==> !((#[trigger] kwargs[j]).0 matches PyKey::Str(key) && key@
            == name)
}

/// A query is what `handle_llm_query` makes of the call's own arguments, the
/// keyword ones too: where it makes a request the model is asked just that,
/// and where it raises the code is resumed with just that.
pub proof fn law_queries_go_to_the_model(
    run: &mut CodeRun,
    name: String,
    args: Vec<PyValue>,
    kwargs: Vec<(PyKey, PyValue)>,
    q: Result<LlmRequest, ExtResult>,
    r: VmAction,
)
    requires
        call_ensures(CodeRun::execute_code, (run, (VmEvent::FunctionCall { name, args, kwargs })), r),
        call_ensures(handle_llm_query, (&args, &kwargs), q),
        name@ == "llm_query"@,
    ensures
        q is Ok <==> r is AskModel,
        q is Err <==> r is Resume,
        q matches Ok(request) ==> message_views(r->AskModel_0.messages@) == message_views(
            request.messages@,
        ) && r->AskModel_0.force_text && request.force_text,
        q matches Err(raised) ==> r->Resume_0@ == raised@,
{
}

/// The prompt of a query is the keyword argument `prompt`, else the first
/// positional one. With a prompt the model is asked: the last message is the
/// user's and holds the text of the prompt. Without one a `TypeError` is raised
/// that says what is missing.
pub proof fn law_queries_need_a_prompt(
    run: &mut CodeRun,
    name: String,
    args: Vec<PyValue>,
    kwargs: Vec<(PyKey, PyValue)>,
    i: int,
    by_name: String,
    by_place: String,
    r: VmAction,
)
    requires
        call_ensures(CodeRun::execute_code, (run, (VmEvent::FunctionCall { name, args, kwargs })), r),
        name@ == "llm_query"@,
        call_ensures(monty_to_string, (&kwargs@[i].1,), by_name),
        call_ensures(monty_to_string, (&args@[0],), by_place),
    ensures
        r matches VmAction::AskModel(request) ==> request.messages@.len() > 0
            && request.messages@.last().role == MessageRole::User
            && request.messages@.last().action_name is None
            && request.messages@.last().action_call_id is None && request.force_text,
        first_keyword(kwargs@, "prompt"@, i) ==> r is AskModel
            && r->AskModel_0.messages@.last().content@ == by_name@,
        no_keyword(kwargs@, "prompt"@) && args@.len() > 0 ==> r is AskModel
            && r->AskModel_0.messages@.last().content@ == by_place@,
        no_keyword(kwargs@, "prompt"@) && args@.len() == 0 ==> (
        r matches VmAction::Resume(ExtResult::Raise { kind, message }) && kind == ExcKind::TypeError
            && message@ == "llm_query() requires a 'prompt' argument"@),
{
    lemma_argument(args, kwargs, "prompt"@, 0, i);
    if r is AskModel {
        let messages = r->AskModel_0.messages@;
        let views = message_views(messages);
        let told = text_arg(py_list(args@), py_pairs(kwargs@), "context"@, 1);
        let prompt = text_arg(py_list(args@), py_pairs(kwargs@), "prompt"@, 0);
        assert(views == request_of(prompt->0, told));
        assert(views.last() == plain_message(MessageRole::User, prompt->0));
        assert(views.last() == messages.last()@);
    }
}

/// The context of a query is the keyword argument `context`, else the second
/// positional one. With a context the model is told it first, in a system
/// message that ends in its text, and then asked; without one it is only asked.
pub proof fn law_queries_tell_their_context(
    run: &mut CodeRun,
    name: String,
    args: Vec<PyValue>,
    kwargs: Vec<(PyKey, PyValue)>,
    i: int,
    by_name: String,
    by_place: String,
    r: VmAction,
)
    requires
        call_ensures(CodeRun::execute_code, (run, (VmEvent::FunctionCall { name, args, kwargs })), r),
        r is AskModel,
        call_ensures(monty_to_string, (&kwargs@[i].1,), by_name),
        call_ensures(monty_to_string, (&args@[1],), by_place),
    ensures
        name@ == "llm_query"@,
        first_keyword(kwargs@, "context"@, i) ==> r->AskModel_0.messages@.len() == 2
            && r->AskModel_0.messages@[0].role == MessageRole::System
            && r->AskModel_0.messages@[0].content@
            == "You are a sub-agent. Here is the context:\n\n"@ + by_name@,
        no_keyword(kwargs@, "context"@) && args@.len() > 1 ==> r->AskModel_0.messages@.len() == 2
            && r->AskModel_0.messages@[0].role == MessageRole::System
            && r->AskModel_0.messages@[0].content@
            == "You are a sub-agent. Here is the context:\n\n"@ + by_place@,
        no_keyword(kwargs@, "context"@) && args@.len() <= 1 ==> r->AskModel_0.messages@.len() == 1,
{
    lemma_argument(args, kwargs, "context"@, 1, i);
    let messages = r->AskModel_0.messages@;
    let views = message_views(messages);
    let told = text_arg(py_list(args@), py_pairs(kwargs@), "context"@, 1);
    let prompt = text_arg(py_list(args@), py_pairs(kwargs@), "prompt"@, 0);
    assert(views == request_of(prompt->0, told));
    assert(views.len() == messages.len());
    if told is Some {
        assert(views[0] == messages[0]@);
    }
}

proof fn lemma_argument(
    args: Vec<PyValue>,
    kwargs: Vec<(PyKey, PyValue)>,
    name: Seq<char>,
    position: nat,
    i: int,
)
    ensures
        ({
            let told = text_arg(py_list(args@), py_pairs(kwargs@), name, position);
            &&& first_keyword(kwargs@, name, i) ==> told == Some(py_text(kwargs@[i].1@))
            &&& no_keyword(kwargs@, name) && position < args@.len() ==> told == Some(
                py_text(args@[position as int]@),
            )
            &&& no_keyword(kwargs@, name) && position >= args@.len() ==> told is None
        }),
{
    let pairs = py_pairs(kwargs@);
    if first_keyword(kwargs@, name, i) {
        assert forall|j: int| 0 <= j < i implies (#[trigger] pairs[j]).0 != PyKeyView::Str(name) by {
            assert(pairs[j] == (kwargs@[j].0@, kwargs@[j].1@));
        }
        assert(pairs[i] == (kwargs@[i].0@, kwargs@[i].1@));
        lemma_keyword_first(pairs, name, i);
    }
    if no_keyword(kwargs@, name) {
        assert forall|j: int| 0 <= j < pairs.len() implies (#[trigger] pairs[j]).0
            != PyKeyView::Str(name) by {
            assert(pairs[j] == (kwargs@[j].0@, kwargs@[j].1@));
        }
        lemma_keyword_first(pairs, name, pairs.len() as int);
    }
}

/// Every other call is dispatched as an action under its own name, with all of
/// its arguments, and no call of another name ever reaches the model. The call
/// gets an identifier of its own, numbered by how many the code has made.
pub proof fn law_other_calls_are_dispatched(
    run: &mut CodeRun,
    name: String,
    args: Vec<PyValue>,
    kwargs: Vec<(PyKey, PyValue)>,
    params: JsonValue,
    r: VmAction,
)
    requires
        call_ensures(CodeRun::execute_code, (run, (VmEvent::FunctionCall { name, args, kwargs })), r),
        call_ensures(monty_args_to_json, (&args, &kwargs), params),
        old(run).calls() < u32::MAX,
    ensures
        r is AskLease <==> name@ != "llm_query"@,
        r is AskLease <==> final(run).waits_for() == RunStage::Lease,
        r is AskModel <==> final(run).waits_for() == RunStage::Model,
        r is Resume <==> final(run).waits_for() == RunStage::Interpreter,
        final(run).calls() == old(run).calls() + 1,
        final(run).call().action_name == name@,
        final(run).call().params == params@,
        final(run).call().call_id == "code_call_"@ + decimal((old(run).calls() + 1) as nat),
        final(run).results() == old(run).results(),
        final(run).history() == old(run).history(),
        final(run).tokens() == old(run).tokens(),
{
}

/// What the interpreter cannot go on with ends the run in an engine error that
/// says what happened: bad code, an error, a panic at any point, or `await`.
pub proof fn law_failures_end_the_run(run: &mut CodeRun, event: VmEvent, r: VmAction)
    requires
        call_ensures(CodeRun::execute_code, (run, event), r),
    ensures
        r is Fail <==> event is ParseFailed || event is ParsePanicked || event is StartFailed
            || event is StartPanicked || event is ResumeFailed || event is ResumePanicked
            || event is ResolveFutures,
        r is Fail || r is Finish <==> final(run).waits_for() == RunStage::Over,
        r matches VmAction::Fail(e) ==> (e matches EngineError::Effect { reason } && {
            &&& event matches VmEvent::ParseFailed(text) ==> reason@ == "Python parse error: "@
                + text@
            &&& event matches VmEvent::StartFailed(text) ==> reason@ == "Python execution error: "@
                + text@
            &&& event matches VmEvent::ResumeFailed(text) ==> reason@ == "Python execution error: "@
                + text@
            &&& event is ParsePanicked ==> reason@ == "Monty VM panicked during code parsing"@
            &&& event is StartPanicked ==> reason@ == "Monty VM panicked during execution start"@
            &&& event is ResumePanicked ==> reason@ == "Monty VM panicked during execution resume"@
            &&& event is ResolveFutures ==> reason@
                == "async/await is not supported in CodeAct scripts"@
        }),
{
}

/// Code that ends gives its value as JSON; an unknown name stays unknown; and
/// no OS call is ever let through: it raises an `OSError`. None of these counts
/// as a call or leaves anything behind.
pub proof fn law_code_stays_in_its_sandbox(
    run: &mut CodeRun,
    event: VmEvent,
    value: JsonValue,
    r: VmAction,
)
    requires
        call_ensures(CodeRun::execute_code, (run, event), r),
        event matches VmEvent::Complete(v) ==> call_ensures(monty_to_json, (&v,), value),
        !(event is FunctionCall),
    ensures
        event is OsCall ==> (r matches VmAction::Resume(ExtResult::Raise { kind, message }) && kind
            == ExcKind::OsError && message@ == "OS operations are not permitted in CodeAct scripts"@),
        event is NameLookup <==> r is ResumeUndefined,
        event is Complete <==> r is Finish,
        r matches VmAction::Finish(v) ==> v@ == value@,
        final(run).calls() == old(run).calls(),
        final(run).call() == old(run).call(),
        final(run).results() == old(run).results(),
        final(run).history() == old(run).history(),
        final(run).tokens() == old(run).tokens(),
{
}

/// The model's answer becomes the value of the query, and only its tokens are
/// counted; a failed query raises a `RuntimeError` with its cause and counts
/// nothing.
pub proof fn law_answers_become_values(
    run: &mut CodeRun,
    reply: Result<LlmOutput, String>,
    text: String,
    r: ExtResult,
)
    requires
        call_ensures(CodeRun::answer_query, (run, reply), r),
        reply matches Ok(output) ==> old(run).tokens().fits(output.usage) && call_ensures(
            crate::engine::types::LlmResponse::into_content,
            (output.response,),
            text,
        ),
    ensures
        reply matches Ok(output) ==> {
            &&& r matches ExtResult::Return(value) && value@ == Py::Str(text@)
            &&& final(run).tokens().input_tokens == old(run).tokens().input_tokens
                + output.usage.input_tokens
            &&& final(run).tokens().output_tokens == old(run).tokens().output_tokens
                + output.usage.output_tokens
        },
        reply matches Err(e) ==> {
            &&& r matches ExtResult::Raise { kind, message } && kind == ExcKind::RuntimeError
                && message@ == "llm_query failed: "@ + e@
            &&& final(run).tokens() == old(run).tokens()
        },
        final(run).waits_for() == RunStage::Interpreter,
        final(run).history() == old(run).history(),
        final(run).results() == old(run).results(),
{
}

/// An action without a lease is unknown to the code, and its failure names it.
pub proof fn law_unleased_actions_are_not_found(run: &mut CodeRun, r: DispatchStep)
    requires
        call_ensures(CodeRun::dispatch_action, (run, DispatchEvent::Lease(false)), r),
    ensures
        r matches DispatchStep::Resume(ExtResult::NotFound(name)) && name@ == old(run).call().action_name,
        final(run).results() == old(run).results(),
        final(run).history().len() == old(run).history().len() + 1,
        final(run).history().drop_last() == old(run).history(),
        final(run).history().last() == (EventKindView::ActionFailed {
            step_id: old(run).step(),
            action_name: old(run).call().action_name,
            call_id: old(run).call().call_id,
            error: "no lease for action '"@ + old(run).call().action_name + "'"@,
        }),
{
    assert(final(run).history().drop_last() =~= old(run).history());
}

/// The policy is asked about the first offered action that has the call's own
/// name; where none has it, or none could be had, a use is asked for at once.
pub proof fn law_policy_judges_the_called_action(
    run: &mut CodeRun,
    actions: Vec<ActionDef>,
    i: int,
    r: DispatchStep,
)
    requires
        call_ensures(CodeRun::dispatch_action, (run, DispatchEvent::Actions(Some(actions))), r),
    ensures
        (0 <= i < actions@.len() && actions@[i].name@ == old(run).call().action_name && forall|j: int|
            0 <= j < i ==> (#[trigger] actions@[j]).name@ != old(run).call().action_name) ==> (
        r matches DispatchStep::AskPolicy(at) && at == i),
        (forall|j: int|
            0 <= j < actions@.len() ==> (#[trigger] actions@[j]).name@ != old(run).call().action_name) ==> r is ConsumeUse,
        final(run).history() == old(run).history(),
        final(run).results() == old(run).results(),
{
    let name = old(run).call().action_name;
    if 0 <= i < actions@.len() && actions@[i].name@ == name && forall|j: int|
        0 <= j < i ==> (#[trigger] actions@[j]).name@ != name {
        lemma_position(actions@, name, i);
    }
    lemma_position_is_found(actions@, name);
    assert(final(run).history() =~= old(run).history());
    assert(final(run).results() =~= old(run).results());
}

/// What the policy decides is done: a denied action raises with the reason and
/// leaves a failure with it; one that needs approval stops the run and leaves
/// the request; an allowed one goes on. No decision leaves a result.
pub proof fn law_policy_decides(run: &mut CodeRun, decision: PolicyDecision, r: DispatchStep)
    requires
        call_ensures(CodeRun::dispatch_action, (run, DispatchEvent::Policy(decision)), r),
    ensures
        decision is Allow <==> r is ConsumeUse,
        decision is RequireApproval <==> r is NeedApproval,
        decision is RequireApproval <==> final(run).waits_for() == RunStage::Over,
        decision is Allow ==> final(run).history() == old(run).history(),
        decision matches PolicyDecision::Deny { reason } ==> {
            &&& r matches DispatchStep::Resume(ExtResult::Raise { kind, message }) && kind
                == ExcKind::RuntimeError && message@ == "denied: "@ + reason@
            &&& final(run).history() == old(run).history().push(
                EventKindView::ActionFailed {
                    step_id: old(run).step(),
                    action_name: old(run).call().action_name,
                    call_id: old(run).call().call_id,
                    error: reason@,
                },
            )
        },
        decision is RequireApproval ==> final(run).history() == old(run).history().push(
            EventKindView::ApprovalRequested {
                action_name: old(run).call().action_name,
                call_id: old(run).call().call_id,
            },
        ),
        final(run).results() == old(run).results(),
{
    assert(final(run).results() =~= old(run).results());
    assert(decision is Allow ==> final(run).history() =~= old(run).history());
    match decision {
        PolicyDecision::Deny { reason } => {
            assert(final(run).history() =~= old(run).history().push(
                EventKindView::ActionFailed {
                    step_id: old(run).step(),
                    action_name: old(run).call().action_name,
                    call_id: old(run).call().call_id,
                    error: reason@,
                },
            ));
        },
        PolicyDecision::RequireApproval { reason } => {
            assert(final(run).history() =~= old(run).history().push(
                EventKindView::ApprovalRequested {
                    action_name: old(run).call().action_name,
                    call_id: old(run).call().call_id,
                },
            ));
        },
        PolicyDecision::Allow => {},
    }
}

/// An action runs where a use of its lease was left; where none was, the code
/// is told so and nothing is left behind.
pub proof fn law_uses_are_counted(run: &mut CodeRun, error: Option<String>, r: DispatchStep)
    requires
        call_ensures(CodeRun::dispatch_action, (run, DispatchEvent::Use(error)), r),
    ensures
        error is None <==> r is Execute,
        error matches Some(e) ==> (r matches DispatchStep::Resume(ExtResult::Raise { kind, message })
            && kind == ExcKind::RuntimeError && message@ == "lease exhausted: "@ + e@),
        final(run).history() == old(run).history(),
        final(run).results() == old(run).results(),
{
    assert(final(run).history() =~= old(run).history());
    assert(final(run).results() =~= old(run).results());
}

/// Every executed action leaves one event and one result. An action that gave
/// a result gives the code its output and leaves that result with how long it
/// took; one that failed raises its error and leaves it in both.
pub proof fn law_outcomes_are_recorded(
    run: &mut CodeRun,
    outcome: Result<ActionResult, String>,
    value: PyValue,
    r: DispatchStep,
)
    requires
        call_ensures(CodeRun::dispatch_action, (run, DispatchEvent::Outcome(outcome)), r),
        outcome matches Ok(result) ==> call_ensures(json_to_monty, (&result.output,), value),
    ensures
        final(run).waits_for() == RunStage::Interpreter,
        final(run).history().len() == old(run).history().len() + 1,
        final(run).history().drop_last() == old(run).history(),
        final(run).results().len() == old(run).results().len() + 1,
        final(run).results().drop_last() == old(run).results(),
        outcome matches Ok(result) ==> {
            &&& r matches DispatchStep::Resume(ExtResult::Return(v)) && v@ == value@
            &&& final(run).results().last() == result@
            &&& final(run).history().last() matches EventKindView::ActionExecuted {
                step_id,
                action_name,
                call_id,
                duration_ms,
            } && step_id == old(run).step() && action_name == old(run).call().action_name && call_id
                == old(run).call().call_id && (result.duration.secs <= 1_000_000_000_000_000
                ==> duration_ms == result.duration.secs * 1000 + result.duration.nanos as int
                / 1_000_000)
        },
        outcome matches Err(e) ==> {
            let kept = final(run).results().last();
            &&& r matches DispatchStep::Resume(ExtResult::Raise { kind, message }) && kind
                == ExcKind::RuntimeError && message@ == e@
            &&& kept.is_error && kept.call_id == old(run).call().call_id && kept.action_name == old(run).call().action_name && kept.output == Json::Object(seq![("error"@, Json::Text(e@))])
            &&& final(run).history().last() == (EventKindView::ActionFailed {
                step_id: old(run).step(),
                action_name: old(run).call().action_name,
                call_id: old(run).call().call_id,
                error: e@,
            })
        },
{
    assert(final(run).history().drop_last() =~= old(run).history());
    assert(final(run).results().drop_last() =~= old(run).results());
    if outcome is Err {
        let e = outcome->Err_0;
        assert(crate::json::put(seq![], "error"@, Json::Text(e@)) =~= seq![
            ("error"@, Json::Text(e@)),
        ]);
    }
}

/// What a run came to holds everything that it gathered; it asks for approval
/// exactly where it was stopped, and then for the pending call.
pub proof fn law_runs_hand_everything_over(
    run: CodeRun,
    value: JsonValue,
    stdout: String,
    done: CodeExecutionResult,
    stopped: CodeExecutionResult,
)
    requires
        call_ensures(CodeRun::finish, (run, value, stdout), done),
        call_ensures(CodeRun::suspend, (run, stdout), stopped),
    ensures
        done.return_value == value,
        stopped.return_value@ == Json::Null,
        done.stdout == stdout && stopped.stdout == stdout,
        result_views(done.action_results@) == run.results(),
        result_views(stopped.action_results@) == run.results(),
        kinds(done.events@) == run.history(),
        kinds(stopped.events@) == run.history(),
        done.recursive_tokens == run.tokens() && stopped.recursive_tokens == run.tokens(),
        done.need_approval is None,
        stopped.need_approval matches Some(need) && need.action_name@ == run.call().action_name
            && need.call_id@ == run.call().call_id && need.parameters@ == run.call().params,
{
}

/// Code output is summed up by what there is of it: what was printed, then what
/// was returned. Of each its label, its size in bytes and its first 120
/// characters are told, with a mark where it has more bytes than that.
pub proof fn law_output_is_summed_up(stdout: &str, value: JsonValue, text: String, r: String)
    requires
        call_ensures(compact_output_metadata, (stdout, &value), r),
        call_ensures(render, (&value,), text),
    ensures
        ({
            let printed = "stdout"@ + " ("@ + decimal(utf8_len(stdout@)) + " chars): "@ + (
            if stdout@.len() <= 120 {
                stdout@
            } else {
                stdout@.take(120)
            }) + (if utf8_len(stdout@) > 120 {
                "..."@
            } else {
                ""@
            });
            let returned = "return"@ + " ("@ + decimal(utf8_len(text@)) + " chars): "@ + (
            if text@.len() <= 120 {
                text@
            } else {
                text@.take(120)
            }) + (if utf8_len(text@) > 120 {
                "..."@
            } else {
                ""@
            });
            &&& stdout@.len() == 0 && value is Null ==> r@ == "[code executed, no output]"@
            &&& stdout@.len() > 0 && value is Null ==> r@ == "[code output] "@ + printed
            &&& stdout@.len() == 0 && !(value is Null) ==> r@ == "[code output] "@ + returned
            &&& stdout@.len() > 0 && !(value is Null) ==> r@ == "[code output] "@ + (printed
                + "; "@ + returned)
        }),
{
    let parts = metadata_parts(stdout@, value@);
    assert(value@ == Json::Null <==> value is Null);
    assert(text@ == json_text(value@));
    let printed = metadata_part("stdout"@, stdout@);
    let returned = metadata_part("return"@, text@);
    if stdout@.len() > 0 && !(value is Null) {
        assert(parts =~= seq![printed, returned]);
        assert(parts.drop_last() =~= seq![printed]);
        assert(joined(seq![printed], "; "@) == printed);
        assert(joined(parts, "; "@) == printed + "; "@ + returned);
    } else if stdout@.len() > 0 {
        assert(parts =~= seq![printed]);
    } else if !(value is Null) {
        assert(parts =~= seq![returned]);
    } else {
        assert(parts =~= seq![]);
    }
}

/// Code is given four variables: the messages as a list of dictionaries in
/// their order, the goal, the number of the step, and what earlier calls gave.
pub proof fn law_code_sees_its_thread(
    thread: Thread,
    i: int,
    role: &'static str,
    r: (Vec<String>, Vec<PyValue>),
)
    requires
        call_ensures(build_context_inputs, (&thread,), r),
        0 <= i < thread.messages@.len(),
        call_ensures(MessageRole::name, (&thread.messages@[i].role,), role),
    ensures
        r.0@.len() == 4 && r.1@.len() == 4,
        r.0@[0]@ == "context"@,
        r.0@[1]@ == "goal"@ && r.1@[1]@ == Py::Str(thread.goal@),
        r.0@[2]@ == "step_number"@,
        thread.step_count <= i64::MAX ==> r.1@[2]@ == Py::Int(thread.step_count as int),
        r.0@[3]@ == "previous_results"@ && r.1@[3]@ is Dict,
        r.1@[0]@ matches Py::List(items) && items.len() == thread.messages@.len() && (
        items[i] matches Py::Dict(pairs) && pairs.len() >= 2 && pairs[0] == (
            PyKeyView::Str("role"@),
            Py::Str(role@),
        ) && pairs[1] == (PyKeyView::Str("content"@), Py::Str(thread.messages@[i].content@)) && (
        match thread.messages@[i].action_name {
            Some(name) => pairs.len() == 3 && pairs[2] == (
                PyKeyView::Str("action_name"@),
                Py::Str(name@),
            ),
            None => pairs.len() == 2,
        })),
{
    let names = texts(r.0@);
    let values = py_list(r.1@);
    assert(names.len() == 4 && values.len() == 4);
    assert(names[0] == r.0@[0]@ && names[1] == r.0@[1]@ && names[2] == r.0@[2]@ && names[3]
        == r.0@[3]@);
    assert(values[0] == r.1@[0]@ && values[1] == r.1@[1]@ && values[2] == r.1@[2]@ && values[3]
        == r.1@[3]@);
}

/// A message more adds to the earlier results exactly where it is the result
/// of an action call, and then what that call gave, under its identifier.
pub proof fn law_earlier_results_grow(
    a: Thread,
    b: Thread,
    m: ThreadMessage,
    x: (Vec<String>, Vec<PyValue>),
    y: (Vec<String>, Vec<PyValue>),
)
    requires
        call_ensures(build_context_inputs, (&a,), x),
        call_ensures(build_context_inputs, (&b,), y),
        b.messages@ == a.messages@.push(m),
    ensures
        x.1@[3]@ is Dict && y.1@[3]@ is Dict,
        ({
            let before = x.1@[3]@->Dict_0;
            let after = y.1@[3]@->Dict_0;
            &&& m.role == MessageRole::ActionResult && m.action_call_id is Some ==> after
                == before.push((PyKeyView::Str(m.action_call_id->0@), Py::Str(m.content@)))
            &&& m.role != MessageRole::ActionResult || m.action_call_id is None ==> after == before
        }),
        a.messages@.len() == 0 ==> x.1@[3]@->Dict_0.len() == 0,
{
    assert(py_list(x.1@).len() == 4 && py_list(y.1@).len() == 4);
    assert(py_list(x.1@)[3] == x.1@[3]@);
    assert(py_list(y.1@)[3] == y.1@[3]@);
    assert(b.messages@.drop_last() =~= a.messages@);
    let before = x.1@[3]@->Dict_0;
    let after = y.1@[3]@->Dict_0;
    assert(after == before + result_pair(m));
    if m.role == MessageRole::ActionResult && m.action_call_id is Some {
        assert(after =~= before.push((PyKeyView::Str(m.action_call_id->0@), Py::Str(m.content@))));
    } else {
        assert(after =~= before);
    }
}

/// Code may run for half a minute, make a million allocations, hold 64 MiB and
/// nest a thousand calls.
pub proof fn law_limits_of_a_run(r: RunLimits)
    requires
        call_ensures(default_limits, (), r),
    ensures
        r.max_duration_secs == 30,
        r.max_allocations == 1_000_000,
        r.max_memory == 64 * 1024 * 1024,
        r.max_recursion_depth == 1_000,
{
}

} // verus!
