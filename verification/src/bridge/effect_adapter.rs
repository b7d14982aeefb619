//! The boundary between the engine and the host's tools: every call of a tool
//! passes the same checks in the same order.

use vstd::prelude::*;
use crate::engine::types::{
    action_views, ActionDef, ActionDefView, ActionResult, ActionResultView, EffectType,
    EngineError, EngineErrorView, ThreadExecutionContext,
};
use crate::hooks::hook::HookEvent;
use crate::ids::{id_form, id_text};
use crate::json::{json_entries, put_entry, Json, JsonValue};
use crate::text::{replace_char, same_text, swap_char};
use crate::time::Duration;

verus! {

broadcast use vstd::string::group_string_axioms;

/// How many tool calls one code step may make.
pub const MAX_CALLS_PER_STEP: u32 = 50;

/// When a tool needs the user's consent.
#[derive(Clone, Copy, Debug, PartialEq, Eq, Structural)]
pub enum ApprovalRequirement {
    Never,
    UnlessAutoApproved,
    Always,
}

/// A tool that needs the full host runtime and cannot run here.
pub open spec fn v1_only(name: Seq<char>) -> bool {
    name == "routine_create"@
        || name == "routine-create"@
        || name == "routine_update"@
        || name == "routine-update"@
        || name == "routine_delete"@
        || name == "routine-delete"@
        || name == "routine_fire"@
        || name == "routine-fire"@
        || name == "create_job"@
        || name == "create-job"@
        || name == "cancel_job"@
        || name == "cancel-job"@
        || name == "build_software"@
        || name == "build-software"@
}

/// Whether a tool needs the full host runtime.
pub fn is_v1_only_tool(name: &str) -> (r: bool)
    ensures
        r == v1_only(name@),
{
    same_text(name, "routine_create")
        || same_text(name, "routine-create")
        || same_text(name, "routine_update")
        || same_text(name, "routine-update")
        || same_text(name, "routine_delete")
        || same_text(name, "routine-delete")
        || same_text(name, "routine_fire")
        || same_text(name, "routine-fire")
        || same_text(name, "create_job")
        || same_text(name, "create-job")
        || same_text(name, "cancel_job")
        || same_text(name, "cancel-job")
        || same_text(name, "build_software")
        || same_text(name, "build-software")
}

// ── One call ────────────────────────────────────────────────

/// What a call waits for.
#[derive(Clone, Copy, Debug, PartialEq, Eq, Structural)]
pub enum CallStage {
    /// Whether a tool of the exact name is registered.
    Lookup,
    /// The tool's approval requirement.
    Approval,
    /// The rate limiter's answer.
    RateLimit,
    /// The hooks' answer.
    Hook,
    /// The tool's outcome.
    Execution,
    /// The sanitised form of what the tool gave.
    Sanitizing,
    /// The sanitised output as JSON and as wrapped text.
    Wrapping,
    /// Nothing: the call is over.
    Over,
}

/// What the hooks said of a call.
#[derive(Debug)]
pub enum HookReply {
    /// The call may go on.
    Continue,
    /// A hook rejected the call, by its outcome or by its error.
    Rejected { reason: String },
    /// A hook failed; the call goes on.
    Failed,
}

/// What a call is told.
#[derive(Debug)]
pub enum CallEvent {
    /// Whether a tool is registered under the action's own name.
    Registered(bool),
    /// The requirement of the looked-up tool; none where there is no such tool.
    Approval(Option<ApprovalRequirement>),
    /// Seconds to wait, as text, where the tool is rate limited.
    RateLimit(Option<String>),
    Hook(HookReply),
    /// What the tool gave, its output or its error, as it gave it.
    Executed { result: Result<String, String>, duration: Duration },
    /// The text that was to be sanitised, sanitised.
    Sanitized(String),
    /// The sanitised output: as JSON where it is JSON, and wrapped for the
    /// model.
    Wrapped { parsed: Option<JsonValue>, wrapped: String },
}

/// What to do next for a call.
#[derive(Debug)]
pub enum CallAction {
    AskApproval,
    AskRateLimit,
    RunHook,
    Execute,
    /// Sanitise this text.
    Sanitize(String),
    /// Read this text as JSON, and wrap it for the model.
    WrapAndParse(String),
    Refuse(EngineError),
    Finish(ActionResult),
}

/// What an action says.
pub ghost enum CallActionView {
    AskApproval,
    AskRateLimit,
    RunHook,
    Execute,
    Sanitize(Seq<char>),
    WrapAndParse(Seq<char>),
    Refuse(EngineErrorView),
    Finish(ActionResultView),
}

impl View for CallAction {
    type V = CallActionView;

    open spec fn view(&self) -> CallActionView {
        match *self {
            CallAction::AskApproval => CallActionView::AskApproval,
            CallAction::AskRateLimit => CallActionView::AskRateLimit,
            CallAction::RunHook => CallActionView::RunHook,
            CallAction::Execute => CallActionView::Execute,
            CallAction::Sanitize(text) => CallActionView::Sanitize(text@),
            CallAction::WrapAndParse(text) => CallActionView::WrapAndParse(text@),
            CallAction::Refuse(e) => CallActionView::Refuse(e@),
            CallAction::Finish(result) => CallActionView::Finish(result@),
        }
    }
}

/// A call of a tool on its way through the checks.
#[derive(Debug)]
pub struct EffectCall {
    /// The name under which the action was called.
    pub action_name: String,
    /// The name under which the tool is looked up.
    pub lookup_name: String,
    pub stage: CallStage,
    /// The tool failed.
    pub failed: bool,
    /// How long the call took, up to the tool's outcome.
    pub duration: Duration,
}

/// Where a call stands.
pub ghost struct EffectCallView {
    pub action_name: Seq<char>,
    pub lookup_name: Seq<char>,
    pub stage: CallStage,
    pub failed: bool,
    pub duration: Duration,
}

impl View for EffectCall {
    type V = EffectCallView;

    open spec fn view(&self) -> EffectCallView {
        EffectCallView {
            action_name: self.action_name@,
            lookup_name: self.lookup_name@,
            stage: self.stage,
            failed: self.failed,
            duration: self.duration,
        }
    }
}

/// The name under which a tool is looked up: its own where it is registered,
/// else with hyphens for underscores.
pub open spec fn lookup_of(action_name: Seq<char>, registered: bool) -> Seq<char> {
    if registered {
        action_name
    } else {
        swap_char(action_name, '_', '-')
    }
}

/// The refusal at the call limit.
pub open spec fn limit_refusal() -> EngineErrorView {
    EngineErrorView::Effect {
        reason: "Tool call limit reached (50 per code step). Break your task into multiple steps."@,
    }
}

/// The refusal of a tool that cannot run here.
pub open spec fn v1_refusal(action_name: Seq<char>) -> EngineErrorView {
    EngineErrorView::Effect {
        reason: "Tool '"@ + action_name
            + "' is not available in engine v2. Tell the user to use the slash command instead (e.g. /routine, /job)."@,
    }
}

/// The refusal of a tool that always needs consent.
pub open spec fn always_refusal(action_name: Seq<char>) -> EngineErrorView {
    EngineErrorView::LeaseDenied {
        reason: "Tool '"@ + action_name
            + "' requires explicit approval for this operation. This action cannot be auto-approved."@,
    }
}

/// The refusal of a tool without consent.
pub open spec fn approval_refusal(action_name: Seq<char>) -> EngineErrorView {
    EngineErrorView::LeaseDenied {
        reason: "Tool '"@ + action_name
            + "' requires approval. Use a read-only tool instead, or ask the user to approve this action."@,
    }
}

/// The refusal of a tool that is called too often.
pub open spec fn rate_refusal(action_name: Seq<char>, retry_after: Seq<char>) -> EngineErrorView {
    EngineErrorView::Effect {
        reason: "Tool '"@ + action_name + "' is rate limited. Try again in "@ + retry_after
            + "s."@,
    }
}

/// The refusal of a hook.
pub open spec fn hook_refusal(action_name: Seq<char>, reason: Seq<char>) -> EngineErrorView {
    EngineErrorView::LeaseDenied {
        reason: "Tool '"@ + action_name + "' blocked by hook: "@ + reason,
    }
}

/// The text that is sanitised: a tool's output as it is, its error as part of
/// a message.
pub open spec fn text_given(lookup_name: Seq<char>, result: Result<String, String>) -> Seq<char> {
    match result {
        Ok(output) => output@,
        Err(error) => "Tool '"@ + lookup_name + "' failed: "@ + error@,
    }
}

/// The result of a tool that gave output. Sanitised output that is JSON is
/// handed on as JSON, any other as wrapped text.
pub open spec fn success_of(
    call: EffectCallView,
    parsed: Option<JsonValue>,
    wrapped: String,
) -> ActionResultView {
    ActionResultView {
        call_id: seq![],
        action_name: call.action_name,
        output: match parsed {
            Some(value) => value@,
            None => Json::Text(wrapped@),
        },
        is_error: false,
        duration: call.duration,
    }
}

/// The result of a tool that failed, from its sanitised message.
pub open spec fn failure_of(call: EffectCallView, message: Seq<char>) -> ActionResultView {
    ActionResultView {
        call_id: seq![],
        action_name: call.action_name,
        output: Json::empty_object().with("error"@, Json::Text(message)),
        is_error: true,
        duration: call.duration,
    }
}

/// The event is the one that the stage waits for.
pub open spec fn awaited(stage: CallStage, event: CallEvent) -> bool {
    match stage {
        CallStage::Lookup => event is Registered,
        CallStage::Approval => event is Approval,
        CallStage::RateLimit => event is RateLimit,
        CallStage::Hook => event is Hook,
        CallStage::Execution => event is Executed,
        CallStage::Sanitizing => event is Sanitized,
        CallStage::Wrapping => event is Wrapped,
        CallStage::Over => false,
    }
}

/// What a call waits for after an action.
pub open spec fn stage_after(action: CallActionView) -> CallStage {
    match action {
        CallActionView::AskApproval => CallStage::Approval,
        CallActionView::AskRateLimit => CallStage::RateLimit,
        CallActionView::RunHook => CallStage::Hook,
        CallActionView::Execute => CallStage::Execution,
        CallActionView::Sanitize(_) => CallStage::Sanitizing,
        CallActionView::WrapAndParse(_) => CallStage::Wrapping,
        CallActionView::Refuse(_) => CallStage::Over,
        CallActionView::Finish(_) => CallStage::Over,
    }
}

/// Where a call stands after it was told of an event and an action followed.
pub open spec fn call_after(
    call: EffectCallView,
    event: CallEvent,
    action: CallActionView,
) -> EffectCallView {
    EffectCallView {
        action_name: call.action_name,
        lookup_name: match event {
            CallEvent::Registered(registered) => lookup_of(call.action_name, registered),
            _ => call.lookup_name,
        },
        stage: stage_after(action),
        failed: match event {
            CallEvent::Executed { result, .. } => result is Err,
            _ => call.failed,
        },
        duration: match event {
            CallEvent::Executed { duration, .. } => duration,
            _ => call.duration,
        },
    }
}

/// The name stands in the list.
pub open spec fn is_listed(list: Seq<String>, name: Seq<char>) -> bool {
    exists|i: int| 0 <= i < list.len() && (#[trigger] list[i])@ == name
}

/// The state that lasts over calls: how many were made in this step, and
/// which tools the user has approved for good.
#[derive(Debug)]
pub struct EffectBridgeAdapter {
    auto_approved: Vec<String>,
    call_count: u32,
}

impl EffectBridgeAdapter {
    /// Calls made since the counter was reset.
    pub closed spec fn calls(self) -> u32 {
        self.call_count
    }

    /// The user approved the tool for good.
    pub closed spec fn approves(self, tool: Seq<char>) -> bool {
        is_listed(self.auto_approved@, tool)
    }

    /// The same tools are approved in both.
    pub open spec fn same_approvals(self, other: EffectBridgeAdapter) -> bool {
        forall|tool: Seq<char>| #[trigger] self.approves(tool) == other.approves(tool)
    }

    /// What is done about a call on an event that it waits for.
    pub open spec fn decision(self, call: EffectCallView, event: CallEvent) -> CallActionView {
        let action_name = call.action_name;
        match event {
            CallEvent::Registered(registered) => if self.calls() >= MAX_CALLS_PER_STEP {
                CallActionView::Refuse(limit_refusal())
            } else if v1_only(lookup_of(action_name, registered)) {
                CallActionView::Refuse(v1_refusal(action_name))
            } else {
                CallActionView::AskApproval
            },
            CallEvent::Approval(requirement) => match requirement {
                Some(ApprovalRequirement::Always) => CallActionView::Refuse(
                    always_refusal(action_name),
                ),
                Some(ApprovalRequirement::UnlessAutoApproved) => if self.approves(
                    call.lookup_name,
                ) {
                    CallActionView::AskRateLimit
                } else {
                    CallActionView::Refuse(approval_refusal(action_name))
                },
                Some(ApprovalRequirement::Never) => CallActionView::AskRateLimit,
                None => CallActionView::AskRateLimit,
            },
            CallEvent::RateLimit(limited) => match limited {
                Some(retry_after) => CallActionView::Refuse(
                    rate_refusal(action_name, retry_after@),
                ),
                None => CallActionView::RunHook,
            },
            CallEvent::Hook(reply) => match reply {
                HookReply::Rejected { reason } => CallActionView::Refuse(
                    hook_refusal(action_name, reason@),
                ),
                HookReply::Continue => CallActionView::Execute,
                HookReply::Failed => CallActionView::Execute,
            },
            CallEvent::Executed { result, .. } => CallActionView::Sanitize(
                text_given(call.lookup_name, result),
            ),
            CallEvent::Sanitized(text) => if call.failed {
                CallActionView::Finish(failure_of(call, text@))
            } else {
                CallActionView::WrapAndParse(text@)
            },
            CallEvent::Wrapped { parsed, wrapped } => CallActionView::Finish(
                success_of(call, parsed, wrapped),
            ),
        }
    }

    /// No calls made and no tool approved.
    pub fn new() -> (r: EffectBridgeAdapter)
        ensures
            r.calls() == 0,
            forall|tool: Seq<char>| !#[trigger] r.approves(tool),
    {
        EffectBridgeAdapter { auto_approved: Vec::new(), call_count: 0 }
    }

    fn is_approved(&self, tool: &str) -> (r: bool)
        ensures
            r == self.approves(tool@),
    {
        let mut i: usize = 0;
        while i < self.auto_approved.len()
            invariant
                i <= self.auto_approved.len(),
                forall|k: int| 0 <= k < i ==> (#[trigger] self.auto_approved@[k])@ != tool@,
            decreases self.auto_approved.len() - i,
        {
            if same_text(self.auto_approved[i].as_str(), tool) {
                return true;
            }
            i += 1;
        }
        false
    }

    /// The user approved a tool for good.
    pub fn auto_approve_tool(&mut self, tool_name: &str)
        ensures
            final(self).calls() == old(self).calls(),
            forall|tool: Seq<char>| #[trigger]
                final(self).approves(tool) == (old(self).approves(tool) || tool == tool_name@),
    {
        if !self.is_approved(tool_name) {
            let ghost before = self.auto_approved@;
            self.auto_approved.push(tool_name.to_string());
            proof {
                assert(self.auto_approved@[before.len() as int]@ == tool_name@);
                assert forall|tool: Seq<char>| #[trigger] self.approves(tool) == (old(self).approves(tool) || tool == tool_name@) by {
                    if old(self).approves(tool) {
                        let i = choose|i: int|
                            0 <= i < before.len() && (#[trigger] before[i])@ == tool;
                        assert(self.auto_approved@[i]@ == tool);
                    }
                }
            }
        }
    }

    /// Starts counting calls anew.
    pub fn reset_call_count(&mut self)
        ensures
            final(self).calls() == 0,
            final(self).same_approvals(*old(self)),
    {
        self.call_count = 0;
    }

    /// A call of the action `action_name`, at its first check.
    pub fn start_call(action_name: &str) -> (r: EffectCall)
        ensures
            r.action_name@ == action_name@,
            r.lookup_name@ == action_name@,
            r.stage == CallStage::Lookup,
            !r.failed,
            r.duration == (Duration { secs: 0, nanos: 0 }),
    {
        EffectCall {
            action_name: action_name.to_string(),
            lookup_name: action_name.to_string(),
            stage: CallStage::Lookup,
            failed: false,
            duration: Duration { secs: 0, nanos: 0 },
        }
    }

    /// Takes a call one check further: the call limit and the blocked tools,
    /// the user's consent, the rate limit, the hooks, the tool itself, and at
    /// last the sanitising of what it gave. Every call counts, a refused one
    /// too.
    pub fn execute_action(&mut self, call: &mut EffectCall, event: CallEvent) -> (r: CallAction)
        requires
            awaited(old(call).stage, event),
        ensures
            r@ == old(self).decision(old(call)@, event),
            final(call)@ == call_after(old(call)@, event, r@),
            final(self).calls() == (if event is Registered {
                old(self).calls().wrapping_add(1)
            } else {
                old(self).calls()
            }),
            final(self).same_approvals(*old(self)),
    {
        match event {
            CallEvent::Registered(registered) => self.check_limits(call, registered),
            CallEvent::Approval(requirement) => self.check_approval(call, requirement),
            CallEvent::RateLimit(limited) => EffectBridgeAdapter::check_rate_limit(call, limited),
            CallEvent::Hook(reply) => EffectBridgeAdapter::check_hook(call, reply),
            CallEvent::Executed { result, duration } => EffectBridgeAdapter::take_result(
                call,
                result,
                duration,
            ),
            CallEvent::Sanitized(text) => EffectBridgeAdapter::take_sanitized(call, text),
            CallEvent::Wrapped { parsed, wrapped } => {
                let call_id = String::new();
                assert(call_id@ =~= seq![]);
                call.stage = CallStage::Over;
                CallAction::Finish(
                    ActionResult {
                        call_id,
                        action_name: call.action_name.clone(),
                        output: match parsed {
                            Some(value) => value,
                            None => JsonValue::Str(wrapped),
                        },
                        is_error: false,
                        duration: call.duration,
                    },
                )
            },
        }
    }

    fn check_limits(&mut self, call: &mut EffectCall, registered: bool) -> (r: CallAction)
        ensures
            r@ == old(self).decision(old(call)@, CallEvent::Registered(registered)),
            final(call)@ == call_after(old(call)@, CallEvent::Registered(registered), r@),
            final(self).calls() == old(self).calls().wrapping_add(1),
            final(self).same_approvals(*old(self)),
    {
        if registered {
            call.lookup_name = call.action_name.clone();
        } else {
            call.lookup_name = replace_char(call.action_name.as_str(), '_', '-');
        }
        let count: u32 = self.call_count;
        self.call_count = self.call_count.wrapping_add(1);
        if count >= MAX_CALLS_PER_STEP {
            call.stage = CallStage::Over;
            return CallAction::Refuse(
                EngineError::Effect {
                    reason:
                        "Tool call limit reached (50 per code step). Break your task into multiple steps.".to_string(),
                },
            );
        }
        if is_v1_only_tool(call.lookup_name.as_str()) {
            let mut reason = "Tool '".to_string();
            reason.append(call.action_name.as_str());
            reason.append(
                "' is not available in engine v2. Tell the user to use the slash command instead (e.g. /routine, /job).",
            );
            call.stage = CallStage::Over;
            return CallAction::Refuse(EngineError::Effect { reason });
        }
        call.stage = CallStage::Approval;
        CallAction::AskApproval
    }

    fn check_approval(
        &self,
        call: &mut EffectCall,
        requirement: Option<ApprovalRequirement>,
    ) -> (r: CallAction)
        ensures
            r@ == self.decision(old(call)@, CallEvent::Approval(requirement)),
            final(call)@ == call_after(old(call)@, CallEvent::Approval(requirement), r@),
    {
        match requirement {
            Some(ApprovalRequirement::Always) => {
                let mut reason = "Tool '".to_string();
                reason.append(call.action_name.as_str());
                reason.append(
                    "' requires explicit approval for this operation. This action cannot be auto-approved.",
                );
                call.stage = CallStage::Over;
                return CallAction::Refuse(EngineError::LeaseDenied { reason });
            },
            Some(ApprovalRequirement::UnlessAutoApproved) => {
                if !self.is_approved(call.lookup_name.as_str()) {
                    let mut reason = "Tool '".to_string();
                    reason.append(call.action_name.as_str());
                    reason.append(
                        "' requires approval. Use a read-only tool instead, or ask the user to approve this action.",
                    );
                    call.stage = CallStage::Over;
                    return CallAction::Refuse(EngineError::LeaseDenied { reason });
                }
            },
            Some(ApprovalRequirement::Never) => {},
            None => {},
        }
        call.stage = CallStage::RateLimit;
        CallAction::AskRateLimit
    }

    fn check_rate_limit(call: &mut EffectCall, limited: Option<String>) -> (r: CallAction)
        ensures
            r@ == (match limited {
                Some(retry_after) => CallActionView::Refuse(
                    rate_refusal(old(call).action_name@, retry_after@),
                ),
                None => CallActionView::RunHook,
            }),
            final(call)@ == call_after(old(call)@, CallEvent::RateLimit(limited), r@),
    {
        match limited {
            Some(retry_after) => {
                let mut reason = "Tool '".to_string();
                reason.append(call.action_name.as_str());
                reason.append("' is rate limited. Try again in ");
                reason.append(retry_after.as_str());
                reason.append("s.");
                call.stage = CallStage::Over;
                CallAction::Refuse(EngineError::Effect { reason })
            },
            None => {
                call.stage = CallStage::Hook;
                CallAction::RunHook
            },
        }
    }

    fn check_hook(call: &mut EffectCall, reply: HookReply) -> (r: CallAction)
        ensures
            r@ == (match reply {
                HookReply::Rejected { reason } => CallActionView::Refuse(
                    hook_refusal(old(call).action_name@, reason@),
                ),
                _ => CallActionView::Execute,
            }),
            final(call)@ == call_after(old(call)@, CallEvent::Hook(reply), r@),
    {
        match reply {
            HookReply::Rejected { reason: cause } => {
                let mut reason = "Tool '".to_string();
                reason.append(call.action_name.as_str());
                reason.append("' blocked by hook: ");
                reason.append(cause.as_str());
                call.stage = CallStage::Over;
                CallAction::Refuse(EngineError::LeaseDenied { reason })
            },
            _ => {
                call.stage = CallStage::Execution;
                CallAction::Execute
            },
        }
    }

    fn take_result(
        call: &mut EffectCall,
        result: Result<String, String>,
        duration: Duration,
    ) -> (r: CallAction)
        ensures
            r@ == CallActionView::Sanitize(text_given(old(call).lookup_name@, result)),
            final(call)@ == call_after(
                old(call)@,
                (CallEvent::Executed { result, duration }),
                r@,
            ),
    {
        call.stage = CallStage::Sanitizing;
        call.duration = duration;
        match result {
            Ok(output) => {
                call.failed = false;
                CallAction::Sanitize(output)
            },
            Err(error) => {
                call.failed = true;
                let mut text = "Tool '".to_string();
                text.append(call.lookup_name.as_str());
                text.append("' failed: ");
                text.append(error.as_str());
                CallAction::Sanitize(text)
            },
        }
    }

    fn take_sanitized(call: &mut EffectCall, text: String) -> (r: CallAction)
        ensures
            r@ == (if old(call).failed {
                CallActionView::Finish(failure_of(old(call)@, text@))
            } else {
                CallActionView::WrapAndParse(text@)
            }),
            final(call)@ == call_after(old(call)@, CallEvent::Sanitized(text), r@),
    {
        broadcast use crate::json::lemma_view_of_compound;

        if !call.failed {
            call.stage = CallStage::Wrapping;
            return CallAction::WrapAndParse(text);
        }
        let call_id = String::new();
        assert(call_id@ =~= seq![]);
        let mut entries: Vec<(String, JsonValue)> = Vec::new();
        assert(json_entries(entries@) =~= seq![]);
        put_entry(&mut entries, "error".to_string(), JsonValue::Str(text));
        call.stage = CallStage::Over;
        CallAction::Finish(
            ActionResult {
                call_id,
                action_name: call.action_name.clone(),
                output: JsonValue::Object(entries),
                is_error: true,
                duration: call.duration,
            },
        )
    }

    /// What the hooks are shown of a call, with its sensitive parameters
    /// already redacted.
    pub fn hook_event(
        call: &EffectCall,
        redacted_params: JsonValue,
        context: &ThreadExecutionContext,
    ) -> (r: HookEvent)
        ensures
            r matches HookEvent::ToolCall { tool_name, parameters, user_id, context: place }
                && tool_name@ == call.lookup_name@ && parameters == redacted_params && user_id@
                == context.user_id@ && place@ == "engine_v2:"@ + id_form(context.thread_id.0),
    {
        let mut place = "engine_v2:".to_string();
        place.append(id_text(context.thread_id.0).as_str());
        HookEvent::ToolCall {
            tool_name: call.lookup_name.clone(),
            parameters: redacted_params,
            user_id: context.user_id.clone(),
            context: place,
        }
    }

    /// The title of the job under which a tool runs.
    pub fn job_title(context: &ThreadExecutionContext) -> (r: String)
        ensures
            r@ == "Thread "@ + id_form(context.thread_id.0),
    {
        let mut title = "Thread ".to_string();
        title.append(id_text(context.thread_id.0).as_str());
        title
    }
}

// ── Offered actions ─────────────────────────────────────────

/// A tool of the host.
#[derive(Debug)]
pub struct ToolDefinition {
    pub name: String,
    pub description: String,
    pub parameters: JsonValue,
}

/// The action that a tool is offered as: under a Python name, and marked where
/// the user has to consent.
pub open spec fn action_of(
    tool: ToolDefinition,
    requirement: Option<ApprovalRequirement>,
) -> ActionDefView {
    ActionDefView {
        name: swap_char(tool.name@, '-', '_'),
        description: tool.description@,
        parameters_schema: tool.parameters@,
        effects: seq![],
        requires_approval: match requirement {
            Some(req) => req != ApprovalRequirement::Never,
            None => false,
        },
    }
}

/// The actions of all tools that can run here, in order.
pub open spec fn offered(
    tools: Seq<ToolDefinition>,
    requirements: Seq<Option<ApprovalRequirement>>,
) -> Seq<ActionDefView>
    decreases tools.len(),
{
    if tools.len() == 0 {
        seq![]
    } else {
        let rest = offered(tools.drop_last(), requirements);
        if v1_only(tools.last().name@) {
            rest
        } else {
            rest.push(action_of(tools.last(), requirements[tools.len() - 1]))
        }
    }
}

/// The actions that code may call. `requirements` holds what each tool
/// requires without parameters, nothing for a tool that is not registered.
pub fn available_actions(
    tools: &Vec<ToolDefinition>,
    requirements: &Vec<Option<ApprovalRequirement>>,
) -> (r: Vec<ActionDef>)
    requires
        tools.len() == requirements.len(),
    ensures
        action_views(r@) == offered(tools@, requirements@),
{
    let mut actions: Vec<ActionDef> = Vec::new();
    assert(tools@.take(0) =~= seq![]);
    assert(action_views(actions@) =~= seq![]);
    let mut i: usize = 0;
    while i < tools.len()
        invariant
            i <= tools.len(),
            tools.len() == requirements.len(),
            action_views(actions@) == offered(tools@.take(i as int), requirements@),
        decreases tools.len() - i,
    {
        proof {
            let next = tools@.take(i + 1);
            assert(next.drop_last() =~= tools@.take(i as int));
            assert(next.last() == tools@[i as int]);
        }
        let tool = &tools[i];
        if !is_v1_only_tool(tool.name.as_str()) {
            let requires_approval = match requirements[i] {
                Some(req) => req != ApprovalRequirement::Never,
                None => false,
            };
            let effects: Vec<EffectType> = Vec::new();
            assert(effects@ =~= seq![]);
            let action = ActionDef {
                name: replace_char(tool.name.as_str(), '-', '_'),
                description: tool.description.clone(),
                parameters_schema: tool.parameters.clone(),
                effects,
                requires_approval,
            };
            assert(action@ == action_of(tools@[i as int], requirements@[i as int]));
            let ghost before = actions@;
            actions.push(action);
            assert(action_views(actions@) =~= action_views(before).push(action@));
        }
        i += 1;
    }
    assert(tools@.take(i as int) =~= tools@);
    actions
}

// ── Laws ────────────────────────────────────────────────────

/// Two spellings of a name that differ at position `p` alone, an underscore in
/// one and a hyphen in the other, and hold neither elsewhere: what is written
/// as one of them with hyphens, or with underscores, is one of the two.
proof fn lemma_spellings(under: Seq<char>, hyphened: Seq<char>, p: int)
    requires
        0 <= p < under.len(),
        under.len() == hyphened.len(),
        under[p] == '_',
        hyphened[p] == '-',
        forall|i: int|
            0 <= i < under.len() && i != p ==> #[trigger] under[i] == hyphened[i] && under[i] != '_'
                && under[i] != '-',
    ensures
        forall|name: Seq<char>| #[trigger]
            swap_char(name, '_', '-') == hyphened <==> name == under || name == hyphened,
        forall|name: Seq<char>| #[trigger] swap_char(name, '_', '-') != under,
        forall|name: Seq<char>| #[trigger]
            swap_char(name, '-', '_') == under <==> name == under || name == hyphened,
        forall|name: Seq<char>| #[trigger] swap_char(name, '-', '_') != hyphened,
{
    assert(swap_char(under, '_', '-') =~= hyphened);
    assert(swap_char(hyphened, '_', '-') =~= hyphened);
    assert(swap_char(under, '-', '_') =~= under);
    assert(swap_char(hyphened, '-', '_') =~= under);
    assert forall|name: Seq<char>| #[trigger] swap_char(name, '_', '-') == hyphened implies name
        == under || name == hyphened by {
        assert forall|i: int| 0 <= i < name.len() && i != p implies name[i] == under[i] by {
            assert(swap_char(name, '_', '-')[i] == hyphened[i]);
        }
        assert(swap_char(name, '_', '-')[p] == '-');
        if name[p] == '_' {
            assert(name =~= under);
        } else {
            assert(name =~= hyphened);
        }
    }
    assert forall|name: Seq<char>| #[trigger] swap_char(name, '-', '_') == under implies name
        == under || name == hyphened by {
        assert forall|i: int| 0 <= i < name.len() && i != p implies name[i] == under[i] by {
            assert(swap_char(name, '-', '_')[i] == under[i]);
        }
        assert(swap_char(name, '-', '_')[p] == '_');
        if name[p] == '_' {
            assert(name =~= under);
        } else {
            assert(name =~= hyphened);
        }
    }
    assert forall|name: Seq<char>| #[trigger] swap_char(name, '_', '-') != under by {
        if swap_char(name, '_', '-').len() == under.len() {
            assert(swap_char(name, '_', '-')[p] != '_');
        }
    }
    assert forall|name: Seq<char>| #[trigger] swap_char(name, '-', '_') != hyphened by {
        if swap_char(name, '-', '_').len() == hyphened.len() {
            assert(swap_char(name, '-', '_')[p] != '-');
        }
    }
}

/// Spelling neither blocks nor unblocks a tool: with hyphens for underscores,
/// or underscores for hyphens, a name is blocked exactly where it is as given.
pub proof fn law_spelling_does_not_matter(name: Seq<char>)
    ensures
        v1_only(name) == v1_only(swap_char(name, '_', '-')),
        v1_only(name) == v1_only(swap_char(name, '-', '_')),
{
    reveal_strlit("routine_create");
    reveal_strlit("routine-create");
    reveal_strlit("routine_update");
    reveal_strlit("routine-update");
    reveal_strlit("routine_delete");
    reveal_strlit("routine-delete");
    reveal_strlit("routine_fire");
    reveal_strlit("routine-fire");
    reveal_strlit("create_job");
    reveal_strlit("create-job");
    reveal_strlit("cancel_job");
    reveal_strlit("cancel-job");
    reveal_strlit("build_software");
    reveal_strlit("build-software");
    lemma_spellings("routine_create"@, "routine-create"@, 7);
    lemma_spellings("routine_update"@, "routine-update"@, 7);
    lemma_spellings("routine_delete"@, "routine-delete"@, 7);
    lemma_spellings("routine_fire"@, "routine-fire"@, 7);
    lemma_spellings("create_job"@, "create-job"@, 6);
    lemma_spellings("cancel_job"@, "cancel-job"@, 6);
    lemma_spellings("build_software"@, "build-software"@, 5);
}

/// No blocked tool is ever offered: every offered action stands for a tool
/// that can run here.
pub proof fn law_no_blocked_tool_is_offered(
    tools: Seq<ToolDefinition>,
    requirements: Seq<Option<ApprovalRequirement>>,
    i: int,
)
    requires
        tools.len() == requirements.len(),
        0 <= i < offered(tools, requirements).len(),
    ensures
        exists|k: int|
            0 <= k < tools.len() && !v1_only((#[trigger] tools[k]).name@) && offered(
                tools,
                requirements,
            )[i] == action_of(tools[k], requirements[k]),
{
    lemma_offered_prefix(tools, requirements, i);
}

proof fn lemma_offered_prefix(
    tools: Seq<ToolDefinition>,
    requirements: Seq<Option<ApprovalRequirement>>,
    i: int,
)
    requires
        tools.len() <= requirements.len(),
        0 <= i < offered(tools, requirements).len(),
    ensures
        exists|k: int|
            0 <= k < tools.len() && !v1_only((#[trigger] tools[k]).name@) && offered(
                tools,
                requirements,
            )[i] == action_of(tools[k], requirements[k]),
    decreases tools.len(),
{
    let short = tools.drop_last();
    let rest = offered(short, requirements);
    if i < rest.len() {
        lemma_offered_prefix(short, requirements, i);
        let k = choose|k: int|
            0 <= k < short.len() && !v1_only((#[trigger] short[k]).name@) && rest[i] == action_of(
                short[k],
                requirements[k],
            );
        assert(tools[k] == short[k]);
    } else {
        assert(tools[tools.len() - 1] == tools.last());
    }
}

/// Once fifty calls of a step were made, every further one is refused before
/// anything else is asked, whatever the action.
pub proof fn law_call_limit(adapter: EffectBridgeAdapter, call: EffectCallView, registered: bool)
    requires
        adapter.calls() >= MAX_CALLS_PER_STEP,
    ensures
        adapter.decision(call, CallEvent::Registered(registered)) == CallActionView::Refuse(
            limit_refusal(),
        ),
{
}

/// A call of an action goes through every check: `adapters` are the adapter
/// before each event, and the others what the call is told.
pub open spec fn passes(
    adapters: Seq<EffectBridgeAdapter>,
    call: EffectCallView,
    registered: bool,
    requirement: Option<ApprovalRequirement>,
    limited: Option<String>,
    reply: HookReply,
) -> bool {
    let found = EffectCallView { lookup_name: lookup_of(call.action_name, registered), ..call };
    &&& adapters[0].decision(call, CallEvent::Registered(registered)) == CallActionView::AskApproval
    &&& adapters[1].decision(found, CallEvent::Approval(requirement))
        == CallActionView::AskRateLimit
    &&& adapters[2].decision(found, CallEvent::RateLimit(limited)) == CallActionView::RunHook
    &&& adapters[3].decision(found, CallEvent::Hook(reply)) == CallActionView::Execute
}

/// A tool runs only after every check let it through: the limit was not
/// reached, the tool is not blocked, the user's consent was not needed or was
/// given, the rate limit allowed it and no hook rejected it. And a call that
/// meets all of this does run.
pub proof fn law_execution_needs_every_check(
    adapters: Seq<EffectBridgeAdapter>,
    call: EffectCallView,
    registered: bool,
    requirement: Option<ApprovalRequirement>,
    limited: Option<String>,
    reply: HookReply,
)
    ensures
        passes(adapters, call, registered, requirement, limited, reply) <==> {
            &&& adapters[0].calls() < MAX_CALLS_PER_STEP
            &&& !v1_only(lookup_of(call.action_name, registered))
            &&& requirement != Some(ApprovalRequirement::Always)
            &&& requirement == Some(ApprovalRequirement::UnlessAutoApproved)
                ==> adapters[1].approves(lookup_of(call.action_name, registered))
            &&& limited is None
            &&& !(reply is Rejected)
        },
{
}

/// The tool runs at one stage only, the one after the hooks, and each check is
/// asked at its own stage. What the tool gave is sanitised next, and only what
/// was sanitised goes further.
pub proof fn law_checks_come_in_order(
    adapter: EffectBridgeAdapter,
    call: EffectCallView,
    event: CallEvent,
)
    requires
        awaited(call.stage, event),
    ensures
        ({
            let action = adapter.decision(call, event);
            &&& action is AskApproval ==> call.stage == CallStage::Lookup
            &&& action is AskRateLimit ==> call.stage == CallStage::Approval
            &&& action is RunHook ==> call.stage == CallStage::RateLimit
            &&& action is Execute ==> call.stage == CallStage::Hook
            &&& action is Sanitize <==> call.stage == CallStage::Execution
            &&& action is WrapAndParse <==> call.stage == CallStage::Sanitizing && !call.failed
            &&& action is Finish <==> call.stage == CallStage::Wrapping || (call.stage
                == CallStage::Sanitizing && call.failed)
        }),
{
}

/// The result of a call whose tool gave `result`, where the sanitiser answered
/// `sanitized`, and where what is then to be read and wrapped gave `parsed` and
/// `wrapped`: as the steps take it.
pub open spec fn finished(
    adapter: EffectBridgeAdapter,
    call: EffectCallView,
    result: Result<String, String>,
    duration: Duration,
    sanitized: String,
    parsed: Option<JsonValue>,
    wrapped: String,
) -> CallActionView {
    let executed = CallEvent::Executed { result, duration };
    let ran = call_after(call, executed, adapter.decision(call, executed));
    let next = adapter.decision(ran, CallEvent::Sanitized(sanitized));
    if next is WrapAndParse {
        adapter.decision(
            call_after(ran, CallEvent::Sanitized(sanitized), next),
            CallEvent::Wrapped { parsed, wrapped },
        )
    } else {
        next
    }
}

/// Nothing that a tool gave reaches a result unsanitised. What is sanitised is
/// the tool's output as it is, or its error in a message; what is read and
/// wrapped is the sanitised text alone; and the result holds the sanitised
/// message of a failure, or what was read or wrapped from the sanitised
/// output. Of the tool's own text only the answers to these steps remain: two
/// tools that both succeed, or both fail, and get the same answers end with the
/// same result.
pub proof fn law_results_are_sanitized(
    adapter: EffectBridgeAdapter,
    call: EffectCallView,
    result: Result<String, String>,
    other: Result<String, String>,
    duration: Duration,
    sanitized: String,
    parsed: Option<JsonValue>,
    wrapped: String,
)
    ensures
        adapter.decision(call, (CallEvent::Executed { result, duration }))
            == CallActionView::Sanitize(text_given(call.lookup_name, result)),
        ({
            let ran = call_after(
                call,
                (CallEvent::Executed { result, duration }),
                CallActionView::Sanitize(text_given(call.lookup_name, result)),
            );
            adapter.decision(ran, CallEvent::Sanitized(sanitized)) == (match result {
                Ok(_) => CallActionView::WrapAndParse(sanitized@),
                Err(_) => CallActionView::Finish(failure_of(ran, sanitized@)),
            })
        }),
        finished(adapter, call, result, duration, sanitized, parsed, wrapped)
            == CallActionView::Finish(
            (ActionResultView {
                call_id: seq![],
                action_name: call.action_name,
                output: match result {
                    Ok(_) => match parsed {
                        Some(value) => value@,
                        None => Json::Text(wrapped@),
                    },
                    Err(_) => Json::empty_object().with("error"@, Json::Text(sanitized@)),
                },
                is_error: result is Err,
                duration,
            }),
        ),
        result is Ok == other is Ok ==> finished(
            adapter,
            call,
            result,
            duration,
            sanitized,
            parsed,
            wrapped,
        ) == finished(adapter, call, other, duration, sanitized, parsed, wrapped),
{
}

/// Each of the seven tools that need the full host runtime, in either spelling,
/// is refused at the first check whatever the adapter's state and whether the
/// tool is registered or not. Below the call limit the refusal says that the
/// tool is not available.
pub proof fn law_runtime_tools_are_refused(
    adapter: &mut EffectBridgeAdapter,
    call: &mut EffectCall,
    registered: bool,
    r: CallAction,
)
    requires
        call_ensures(
            EffectBridgeAdapter::execute_action,
            (adapter, call, CallEvent::Registered(registered)),
            r,
        ),
        ({
            let name = old(call).action_name@;
            name == "routine_create"@
                || name == "routine-create"@
                || name == "routine_update"@
                || name == "routine-update"@
                || name == "routine_delete"@
                || name == "routine-delete"@
                || name == "routine_fire"@
                || name == "routine-fire"@
                || name == "create_job"@
                || name == "create-job"@
                || name == "cancel_job"@
                || name == "cancel-job"@
                || name == "build_software"@
                || name == "build-software"@
        }),
    ensures
        r is Refuse,
        final(call).stage == CallStage::Over,
        old(adapter).calls() < 50 ==> (r matches CallAction::Refuse(EngineError::Effect { reason })
            && reason@ == "Tool '"@ + old(call).action_name@
            + "' is not available in engine v2. Tell the user to use the slash command instead (e.g. /routine, /job)."@),
{
    law_spelling_does_not_matter(old(call).action_name@);
}

/// A call of any other tool passes the first check below fifty calls of a step
/// and goes on to the user's consent; from the fiftieth on every call is
/// refused. A tool that is not registered is looked up with hyphens.
pub proof fn law_other_tools_pass_the_first_check(
    adapter: &mut EffectBridgeAdapter,
    call: &mut EffectCall,
    registered: bool,
    r: CallAction,
)
    requires
        call_ensures(
            EffectBridgeAdapter::execute_action,
            (adapter, call, CallEvent::Registered(registered)),
            r,
        ),
        ({
            let name = old(call).action_name@;
            name != "routine_create"@
                && name != "routine-create"@
                && name != "routine_update"@
                && name != "routine-update"@
                && name != "routine_delete"@
                && name != "routine-delete"@
                && name != "routine_fire"@
                && name != "routine-fire"@
                && name != "create_job"@
                && name != "create-job"@
                && name != "cancel_job"@
                && name != "cancel-job"@
                && name != "build_software"@
                && name != "build-software"@
        }),
    ensures
        old(adapter).calls() < 50 <==> r is AskApproval,
        old(adapter).calls() >= 50 ==> (r matches CallAction::Refuse(EngineError::Effect { reason })
            && reason@
            == "Tool call limit reached (50 per code step). Break your task into multiple steps."@),
        old(adapter).calls() < u32::MAX ==> final(adapter).calls() == old(adapter).calls() + 1,
        final(call).action_name@ == old(call).action_name@,
        registered ==> final(call).lookup_name@ == old(call).action_name@,
        !registered ==> final(call).lookup_name@.len() == old(call).action_name@.len() && forall|i: int|
            0 <= i < old(call).action_name@.len() ==> #[trigger] final(call).lookup_name@[i] == (
            if old(call).action_name@[i] == '_' {
                '-'
            } else {
                old(call).action_name@[i]
            }),
{
    law_spelling_does_not_matter(old(call).action_name@);
}

proof fn lemma_offered_agrees(
    tools: Seq<ToolDefinition>,
    a: Seq<Option<ApprovalRequirement>>,
    b: Seq<Option<ApprovalRequirement>>,
)
    requires
        forall|i: int| 0 <= i < tools.len() ==> #[trigger] a[i] == b[i],
    ensures
        offered(tools, a) == offered(tools, b),
    decreases tools.len(),
{
    if tools.len() > 0 {
        lemma_offered_agrees(tools.drop_last(), a, b);
        assert(a[tools.len() - 1] == b[tools.len() - 1]);
    }
}

/// A tool more is an action more, under its name with underscores for hyphens,
/// with its own description and parameters. It is marked as needing approval
/// exactly where the tool asks for consent, always or unless it was given for
/// good. But the seven tools that need the full host runtime are never offered,
/// in neither spelling.
pub proof fn law_tools_are_offered(
    tools: Vec<ToolDefinition>,
    requirements: Vec<Option<ApprovalRequirement>>,
    more: Vec<ToolDefinition>,
    more_requirements: Vec<Option<ApprovalRequirement>>,
    tool: ToolDefinition,
    requirement: Option<ApprovalRequirement>,
    x: Vec<ActionDef>,
    y: Vec<ActionDef>,
)
    requires
        tools@.len() == requirements@.len(),
        more@ == tools@.push(tool),
        more_requirements@ == requirements@.push(requirement),
        call_ensures(available_actions, (&tools, &requirements), x),
        call_ensures(available_actions, (&more, &more_requirements), y),
    ensures
        tools@.len() == 0 ==> x@.len() == 0,
        ({
            let name = tool.name@;
            let blocked = name == "routine_create"@
                || name == "routine-create"@
                || name == "routine_update"@
                || name == "routine-update"@
                || name == "routine_delete"@
                || name == "routine-delete"@
                || name == "routine_fire"@
                || name == "routine-fire"@
                || name == "create_job"@
                || name == "create-job"@
                || name == "cancel_job"@
                || name == "cancel-job"@
                || name == "build_software"@
                || name == "build-software"@;
            &&& blocked ==> action_views(y@) == action_views(x@)
            &&& !blocked ==> {
                let action = y@.last();
                &&& y@.len() == x@.len() + 1
                &&& action_views(y@).drop_last() == action_views(x@)
                &&& action.name@.len() == name.len()
                &&& forall|i: int|
                    0 <= i < name.len() ==> #[trigger] action.name@[i] == (if name[i] == '-' {
                        '_'
                    } else {
                        name[i]
                    })
                &&& action.description@ == tool.description@
                &&& action.parameters_schema@ == tool.parameters@
                &&& action.effects@.len() == 0
                &&& requirement == Some(ApprovalRequirement::Always) ==> action.requires_approval
                &&& requirement == Some(ApprovalRequirement::UnlessAutoApproved)
                    ==> action.requires_approval
                &&& requirement == Some(ApprovalRequirement::Never) ==> !action.requires_approval
                &&& requirement is None ==> !action.requires_approval
            }
        }),
{
    assert(more@.drop_last() =~= tools@);
    lemma_offered_agrees(tools@, requirements@, more_requirements@);
    assert(action_views(x@).len() == x@.len());
    assert(action_views(y@).len() == y@.len());
    if !v1_only(tool.name@) {
        assert(action_views(y@) == action_views(x@).push(action_of(tool, requirement)));
        assert(action_views(y@).drop_last() =~= action_views(x@));
        assert(action_views(y@).last() == y@.last()@);
    }
}

/// An action is marked as needing approval exactly where its tool can be
/// refused for want of consent: where a call of it is refused at that check by
/// an adapter to which the user has approved nothing.
pub proof fn law_marked_actions_need_consent(
    tools: Vec<ToolDefinition>,
    requirements: Vec<Option<ApprovalRequirement>>,
    offered: Vec<ActionDef>,
    adapter: &mut EffectBridgeAdapter,
    call: &mut EffectCall,
    r: CallAction,
)
    requires
        tools@.len() == 1 && requirements@.len() == 1,
        call_ensures(available_actions, (&tools, &requirements), offered),
        offered@.len() == 1,
        !old(adapter).approves(old(call).lookup_name@),
        call_ensures(
            EffectBridgeAdapter::execute_action,
            (adapter, call, CallEvent::Approval(requirements@[0])),
            r,
        ),
    ensures
        offered@[0].requires_approval <==> r is Refuse,
        !offered@[0].requires_approval <==> r is AskRateLimit,
{
    let views = action_views(offered@);
    assert(views[0] == offered@[0]@);
    assert(tools@.drop_last() =~= seq![]);
    assert(crate::bridge::effect_adapter::offered(tools@.drop_last(), requirements@) =~= seq![]);
    assert(views =~= seq![action_of(tools@[0], requirements@[0])]);
}

/// Consent is asked of the user exactly where the tool asks for it. A tool that
/// always needs it is refused even where it was approved for good; one that
/// needs it unless approved is refused where it was not; and the refusal is of
/// the lease and names the action as it was called.
pub proof fn law_consent(
    adapter: &mut EffectBridgeAdapter,
    call: &mut EffectCall,
    requirement: Option<ApprovalRequirement>,
    r: CallAction,
)
    requires
        call_ensures(
            EffectBridgeAdapter::execute_action,
            (adapter, call, CallEvent::Approval(requirement)),
            r,
        ),
    ensures
        requirement is None ==> r is AskRateLimit,
        requirement == Some(ApprovalRequirement::Never) ==> r is AskRateLimit,
        requirement == Some(ApprovalRequirement::UnlessAutoApproved) && old(adapter).approves(
            old(call).lookup_name@,
        ) ==> r is AskRateLimit,
        requirement == Some(ApprovalRequirement::Always) ==> (
        r matches CallAction::Refuse(EngineError::LeaseDenied { reason }) && reason@ == "Tool '"@
            + old(call).action_name@
            + "' requires explicit approval for this operation. This action cannot be auto-approved."@),
        requirement == Some(ApprovalRequirement::UnlessAutoApproved) && !old(adapter).approves(
            old(call).lookup_name@,
        ) ==> (r matches CallAction::Refuse(EngineError::LeaseDenied { reason }) && reason@
            == "Tool '"@ + old(call).action_name@
            + "' requires approval. Use a read-only tool instead, or ask the user to approve this action."@),
        final(adapter).calls() == old(adapter).calls(),
        final(call).lookup_name@ == old(call).lookup_name@,
{
}

/// A tool is approved for good by just those names that the user approved, and
/// neither calls nor a reset of the counter change that.
pub proof fn law_approvals_last(
    adapter: &mut EffectBridgeAdapter,
    other: &mut EffectBridgeAdapter,
    third: &mut EffectBridgeAdapter,
    call: &mut EffectCall,
    event: CallEvent,
    approved: &str,
    tool: Seq<char>,
    fresh: EffectBridgeAdapter,
    r: CallAction,
)
    requires
        call_ensures(EffectBridgeAdapter::new, (), fresh),
        call_ensures(EffectBridgeAdapter::auto_approve_tool, (adapter, approved), ()),
        call_ensures(EffectBridgeAdapter::execute_action, (other, call, event), r),
        call_ensures(EffectBridgeAdapter::reset_call_count, (third,), ()),
    ensures
        !fresh.approves(tool),
        fresh.calls() == 0,
        final(adapter).approves(tool) <==> old(adapter).approves(tool) || tool == approved@,
        final(adapter).calls() == old(adapter).calls(),
        final(other).approves(tool) <==> old(other).approves(tool),
        final(third).approves(tool) <==> old(third).approves(tool),
        final(third).calls() == 0,
{
    assert(final(other).approves(tool) == old(other).approves(tool));
    assert(final(third).approves(tool) == old(third).approves(tool));
}

/// A tool that is called too often is refused with how long to wait, and one
/// that a hook rejects with the hook's reason; a hook that fails rejects
/// nothing. Otherwise the hooks come after the rate limit, and the tool after
/// the hooks.
pub proof fn law_limits_and_hooks(
    adapter: &mut EffectBridgeAdapter,
    call: &mut EffectCall,
    limited: Option<String>,
    r: CallAction,
    other: &mut EffectBridgeAdapter,
    hooked: &mut EffectCall,
    reply: HookReply,
    s: CallAction,
)
    requires
        call_ensures(
            EffectBridgeAdapter::execute_action,
            (adapter, call, CallEvent::RateLimit(limited)),
            r,
        ),
        call_ensures(
            EffectBridgeAdapter::execute_action,
            (other, hooked, CallEvent::Hook(reply)),
            s,
        ),
    ensures
        limited is None <==> r is RunHook,
        limited matches Some(wait) ==> (r matches CallAction::Refuse(EngineError::Effect { reason })
            && reason@ == "Tool '"@ + old(call).action_name@
            + "' is rate limited. Try again in "@ + wait@ + "s."@),
        reply is Continue ==> s is Execute,
        reply is Failed ==> s is Execute,
        reply matches HookReply::Rejected { reason: cause } ==> (
        s matches CallAction::Refuse(EngineError::LeaseDenied { reason }) && reason@ == "Tool '"@
            + old(hooked).action_name@ + "' blocked by hook: "@ + cause@),
{
}

/// What a tool gave is first sanitised: its output as it is, or a message that
/// names the tool and its error. Of a failure the sanitised message is the
/// result; sanitised output is read and wrapped, and the result is what was
/// read, or else what was wrapped. Every result bears the action's own name and
/// the time until the tool was done.
pub proof fn law_results_come_from_sanitized_text(
    adapter: &mut EffectBridgeAdapter,
    call: &mut EffectCall,
    result: Result<String, String>,
    duration: Duration,
    first: CallAction,
    other: &mut EffectBridgeAdapter,
    later: &mut EffectCall,
    sanitized: String,
    second: CallAction,
    last: &mut EffectBridgeAdapter,
    ending: &mut EffectCall,
    parsed: Option<JsonValue>,
    wrapped: String,
    third: CallAction,
)
    requires
        call_ensures(
            EffectBridgeAdapter::execute_action,
            (adapter, call, (CallEvent::Executed { result, duration })),
            first,
        ),
        call_ensures(
            EffectBridgeAdapter::execute_action,
            (other, later, CallEvent::Sanitized(sanitized)),
            second,
        ),
        call_ensures(
            EffectBridgeAdapter::execute_action,
            (last, ending, (CallEvent::Wrapped { parsed, wrapped })),
            third,
        ),
    ensures
        first matches CallAction::Sanitize(text) && (match result {
            Ok(output) => text@ == output@ && !final(call).failed,
            Err(error) => text@ == "Tool '"@ + old(call).lookup_name@ + "' failed: "@ + error@
                && final(call).failed,
        }),
        final(call).duration == duration,
        final(call).action_name@ == old(call).action_name@,
        !old(later).failed ==> (second matches CallAction::WrapAndParse(text) && text@
            == sanitized@),
        old(later).failed ==> (second matches CallAction::Finish(made) && made.is_error
            && made.output@ == Json::Object(seq![("error"@, Json::Text(sanitized@))])
            && made.action_name@ == old(later).action_name@ && made.call_id@.len() == 0
            && made.duration == old(later).duration),
        final(later).failed == old(later).failed,
        final(later).duration == old(later).duration,
        third matches CallAction::Finish(made) && !made.is_error && made.action_name@ == old(ending).action_name@ && made.call_id@.len() == 0 && made.duration == old(ending).duration && (
        match parsed {
            Some(value) => made.output@ == value@,
            None => made.output@ == Json::Text(wrapped@),
        }),
{
    assert(crate::json::put(seq![], "error"@, Json::Text(sanitized@)) =~= seq![
        ("error"@, Json::Text(sanitized@)),
    ]);
}

/// A call starts at its first check, under its own name; the hooks are shown
/// the tool that was looked up, the redacted parameters and who asks; and the
/// job bears the thread's identifier.
pub proof fn law_calls_bear_their_names(
    name: &str,
    call: EffectCall,
    shown: JsonValue,
    context: ThreadExecutionContext,
    event: HookEvent,
    title: String,
)
    requires
        call_ensures(EffectBridgeAdapter::start_call, (name,), call),
        call_ensures(EffectBridgeAdapter::hook_event, (&call, shown, &context), event),
        call_ensures(EffectBridgeAdapter::job_title, (&context,), title),
    ensures
        call.action_name@ == name@ && call.lookup_name@ == name@,
        call.stage == CallStage::Lookup && !call.failed,
        event matches HookEvent::ToolCall { tool_name, parameters, user_id, context: place }
            && tool_name@ == name@ && parameters == shown && user_id@ == context.user_id@ && place@
            == "engine_v2:"@ + id_form(context.thread_id.0),
        title@ == "Thread "@ + id_form(context.thread_id.0),
{
}

} // verus!
