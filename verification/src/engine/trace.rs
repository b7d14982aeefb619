//! Execution traces: what a finished thread did, and what looks wrong in it.

use vstd::prelude::*;
use crate::engine::reflection::pipeline::ReflectionResult;
use crate::engine::types::{
    copy_opt_text, doc_type_name, event_views, opt_text, role_name, DocType, EventKind,
    EventView, MemoryDoc, MessageRole, Thread, ThreadEvent, ThreadId, ThreadMessage, ThreadState,
};
use crate::ids::{id_form, id_text};
use crate::text::{
    append_decimal, begins_with, char_count, contains_text, decimal, has_text, prefix, same_text,
    starts_with_text, take_chars,
};
use crate::time::{compact, compact_of, now, Timestamp};

verus! {

broadcast use vstd::string::group_string_axioms;

/// How serious an issue is.
#[derive(Clone, Copy, Debug, PartialEq, Eq, Structural)]
pub enum IssueSeverity {
    Error,
    Warning,
    Info,
}

/// Something that looks wrong in a thread.
#[derive(Debug)]
pub struct TraceIssue {
    pub severity: IssueSeverity,
    pub category: String,
    pub description: String,
    pub step: Option<usize>,
}

/// What an issue holds.
pub ghost struct IssueView {
    pub severity: IssueSeverity,
    pub category: Seq<char>,
    pub description: Seq<char>,
    pub step: Option<usize>,
}

impl View for TraceIssue {
    type V = IssueView;

    open spec fn view(&self) -> IssueView {
        IssueView {
            severity: self.severity,
            category: self.category@,
            description: self.description@,
            step: self.step,
        }
    }
}

/// The issues of a list.
pub open spec fn issue_views(list: Seq<TraceIssue>) -> Seq<IssueView> {
    list.map_values(|i: TraceIssue| i@)
}

// ── What the analysis reports ───────────────────────────────

/// One issue where `found`, none otherwise.
pub open spec fn issue_if(found: bool, issue: IssueView) -> Seq<IssueView> {
    if found {
        seq![issue]
    } else {
        seq![]
    }
}

/// An issue that belongs to no step.
pub open spec fn issue(
    severity: IssueSeverity,
    category: Seq<char>,
    description: Seq<char>,
) -> IssueView {
    IssueView { severity, category, description, step: None }
}

/// The thread ended in failure.
pub open spec fn failure_issues(thread: Thread) -> Seq<IssueView> {
    issue_if(
        thread.state == ThreadState::Failed,
        issue(IssueSeverity::Error, "thread_failure"@, "Thread ended in Failed state"@),
    )
}

/// Some assistant message has a content.
pub open spec fn has_response(messages: Seq<ThreadMessage>) -> bool {
    exists|i: int|
        0 <= i < messages.len() && (#[trigger] messages[i]).role == MessageRole::Assistant
            && messages[i].content@.len() > 0
}

/// The model said nothing.
pub open spec fn no_response_issues(thread: Thread) -> Seq<IssueView> {
    issue_if(
        !has_response(thread.messages@),
        issue(
            IssueSeverity::Warning,
            "no_response"@,
            "No assistant message in thread — model may not have generated output"@,
        ),
    )
}

/// The issue of one failed action; none for any other event.
pub open spec fn tool_error_of(event: ThreadEvent) -> Seq<IssueView> {
    match event.kind {
        EventKind::ActionFailed { step_id, action_name, call_id, error } => seq![
            issue(
                IssueSeverity::Warning,
                "tool_error"@,
                "Tool '"@ + action_name@ + "' failed: "@ + error@,
            ),
        ],
        _ => seq![],
    }
}

/// One issue for each failed action, in order.
pub open spec fn tool_error_issues(events: Seq<ThreadEvent>) -> Seq<IssueView>
    decreases events.len(),
{
    if events.len() == 0 {
        seq![]
    } else {
        tool_error_issues(events.drop_last()) + tool_error_of(events.last())
    }
}

/// The message holds output of executed code.
pub open spec fn is_code_output(m: ThreadMessage) -> bool {
    m.role == MessageRole::User && (begins_with(m.content@, "[stdout]"@) || begins_with(
        m.content@,
        "[stderr]"@,
    ) || begins_with(m.content@, "[code "@) || begins_with(m.content@, "Traceback"@))
}

/// The text names one of the watched Python errors.
pub open spec fn names_python_error(content: Seq<char>) -> bool {
    has_text(content, "NameError"@) || has_text(content, "SyntaxError"@) || has_text(
        content,
        "TypeError"@,
    ) || has_text(content, "NotImplementedError"@)
}

/// The issue of message `i`, where it is code output with an error.
pub open spec fn code_error_of(m: ThreadMessage, i: int) -> Seq<IssueView> {
    issue_if(
        is_code_output(m) && names_python_error(m.content@),
        issue(
            IssueSeverity::Warning,
            "code_error"@,
            "Code execution error in message "@ + decimal(i as nat) + ": "@ + prefix(
                m.content@,
                200,
            ),
        ),
    )
}

/// One issue for each code output with an error, in order.
pub open spec fn code_error_issues(messages: Seq<ThreadMessage>) -> Seq<IssueView>
    decreases messages.len(),
{
    if messages.len() == 0 {
        seq![]
    } else {
        code_error_issues(messages.drop_last()) + code_error_of(
            messages.last(),
            messages.len() - 1,
        )
    }
}

/// The message is an action result that names no call.
pub open spec fn lacks_call_id(m: ThreadMessage) -> bool {
    m.role == MessageRole::ActionResult && match m.action_call_id {
        Some(id) => id@.len() == 0,
        None => true,
    }
}

/// The issue of message `i`, where it is an action result without a call.
pub open spec fn call_id_issue_of(m: ThreadMessage, i: int) -> Seq<IssueView> {
    issue_if(
        lacks_call_id(m),
        issue(
            IssueSeverity::Error,
            "empty_call_id"@,
            "ActionResult message "@ + decimal(i as nat) + " (tool '"@ + (match m.action_name {
                Some(name) => name@,
                None => "unknown"@,
            }) + "') has empty call_id — will cause LLM API rejection"@,
        ),
    )
}

/// One issue for each action result without a call, in order.
pub open spec fn call_id_issues(messages: Seq<ThreadMessage>) -> Seq<IssueView>
    decreases messages.len(),
{
    if messages.len() == 0 {
        seq![]
    } else {
        call_id_issues(messages.drop_last()) + call_id_issue_of(
            messages.last(),
            messages.len() - 1,
        )
    }
}

/// Some message is an action result.
pub open spec fn has_tool_results(messages: Seq<ThreadMessage>) -> bool {
    exists|i: int|
        0 <= i < messages.len() && (#[trigger] messages[i]).role == MessageRole::ActionResult
}

/// The message shows the model a tool's output.
pub open spec fn shows_tool_output(m: ThreadMessage) -> bool {
    m.role == MessageRole::ActionResult || has_text(m.content@, " result]"@) || has_text(
        m.content@,
        " error]"@,
    )
}

/// Some message shows the model a tool's output.
pub open spec fn has_tool_output(messages: Seq<ThreadMessage>) -> bool {
    exists|i: int| 0 <= i < messages.len() && shows_tool_output(#[trigger] messages[i])
}

/// Tool results exist that no message shows.
pub open spec fn missing_output_issues(thread: Thread) -> Seq<IssueView> {
    issue_if(
        has_tool_results(thread.messages@) && !has_tool_output(thread.messages@),
        issue(
            IssueSeverity::Warning,
            "missing_tool_output"@,
            "Tool results exist but no tool output in messages — model may not see tool results"@,
        ),
    )
}

/// The thread took many steps.
pub open spec fn step_count_issues(thread: Thread) -> Seq<IssueView> {
    issue_if(
        thread.step_count > 10,
        issue(
            IssueSeverity::Warning,
            "excessive_steps"@,
            "Thread took "@ + decimal(thread.step_count as nat)
                + " steps — may be stuck in a loop"@,
        ),
    )
}

/// No event is an executed action.
pub open spec fn no_action_executed(events: Seq<ThreadEvent>) -> bool {
    forall|i: int| 0 <= i < events.len() ==> !((#[trigger] events[i]).kind is ActionExecuted)
}

/// The model answered at once, without tools.
pub open spec fn no_tools_issues(thread: Thread) -> Seq<IssueView> {
    issue_if(
        no_action_executed(thread.events@) && thread.step_count == 1 && has_response(
            thread.messages@,
        ),
        (IssueView {
            severity: IssueSeverity::Info,
            category: "no_tools_used"@,
            description:
                "Model answered in one step without using any tools — may be answering from training data"@,
            step: Some(1),
        }),
    )
}

/// Some step was started.
pub open spec fn step_started(events: Seq<ThreadEvent>) -> bool {
    exists|i: int| 0 <= i < events.len() && (#[trigger] events[i]).kind is StepStarted
}

/// The message is an assistant's text without code.
pub open spec fn is_text_without_code(m: ThreadMessage) -> bool {
    m.role == MessageRole::Assistant && !has_text(m.content@, "```"@) && !has_text(
        m.content@,
        "FINAL("@,
    )
}

/// How many assistant messages have no code.
pub open spec fn texts_without_code(messages: Seq<ThreadMessage>) -> nat
    decreases messages.len(),
{
    if messages.len() == 0 {
        0
    } else {
        texts_without_code(messages.drop_last()) + (if is_text_without_code(messages.last()) {
            1nat
        } else {
            0nat
        })
    }
}

/// Text answers stand beside code steps.
pub open spec fn mixed_mode_issues(thread: Thread) -> Seq<IssueView> {
    issue_if(
        texts_without_code(thread.messages@) > 0 && step_started(thread.events@),
        issue(
            IssueSeverity::Info,
            "mixed_mode"@,
            decimal(texts_without_code(thread.messages@))
                + " text response(s) without code blocks — model may not be following CodeAct prompt"@,
        ),
    )
}

/// The first `max` characters, and `...` where something was cut off.
pub open spec fn truncated(s: Seq<char>, max: nat) -> Seq<char> {
    if s.len() > max {
        prefix(s, max) + "..."@
    } else {
        s
    }
}

/// The issue of a reason to fail: a provider's or the orchestrator's fault.
pub open spec fn reason_issue(reason: Seq<char>) -> Seq<IssueView> {
    if has_text(reason, "LLM"@) || has_text(reason, "Provider"@) {
        seq![
            issue(
                IssueSeverity::Error,
                "llm_error"@,
                "LLM provider error: "@ + truncated(reason, 300),
            ),
        ]
    } else if has_text(reason, "orchestrator"@) {
        seq![
            issue(
                IssueSeverity::Error,
                "orchestrator_error"@,
                "Orchestrator error: "@ + truncated(reason, 300),
            ),
        ]
    } else {
        seq![]
    }
}

/// The issue of a change to the failed state, by its reason.
pub open spec fn failure_reason_of(event: ThreadEvent) -> Seq<IssueView> {
    match event.kind {
        EventKind::StateChanged { from, to, reason } => if to == ThreadState::Failed {
            match reason {
                Some(text) => reason_issue(text@),
                None => seq![],
            }
        } else {
            seq![]
        },
        _ => seq![],
    }
}

/// One issue for each change to the failed state with a known fault, in order.
pub open spec fn failure_reason_issues(events: Seq<ThreadEvent>) -> Seq<IssueView>
    decreases events.len(),
{
    if events.len() == 0 {
        seq![]
    } else {
        failure_reason_issues(events.drop_last()) + failure_reason_of(events.last())
    }
}

/// Everything that looks wrong in a thread, in the order of the checks.
pub open spec fn thread_issues(thread: Thread) -> Seq<IssueView> {
    failure_issues(thread) + no_response_issues(thread) + tool_error_issues(thread.events@)
        + code_error_issues(thread.messages@) + call_id_issues(thread.messages@)
        + missing_output_issues(thread) + step_count_issues(thread) + no_tools_issues(thread)
        + mixed_mode_issues(thread) + failure_reason_issues(thread.events@)
}

// ── The checks ──────────────────────────────────────────────

/// Cuts `s` to `max_chars` characters and marks a cut with `...`.
pub fn truncate(s: &str, max_chars: usize) -> (r: String)
    ensures
        r@ == truncated(s@, max_chars as nat),
{
    let mut chars = take_chars(s, max_chars);
    if char_count(s) > max_chars {
        chars.append("...");
    }
    chars
}

fn report(
    issues: &mut Vec<TraceIssue>,
    severity: IssueSeverity,
    category: &str,
    description: String,
    step: Option<usize>,
)
    ensures
        issue_views(final(issues)@) == issue_views(old(issues)@) + seq![
            (IssueView { severity, category: category@, description: description@, step }),
        ],
{
    issues.push(TraceIssue { severity, category: category.to_string(), description, step });
    assert(issue_views(issues@) =~= issue_views(old(issues)@) + seq![
        (IssueView { severity, category: category@, description: description@, step }),
    ]);
}

fn any_response(messages: &Vec<ThreadMessage>) -> (r: bool)
    ensures
        r == has_response(messages@),
{
    let mut i: usize = 0;
    while i < messages.len()
        invariant
            i <= messages.len(),
            forall|k: int|
                0 <= k < i ==> !((#[trigger] messages@[k]).role == MessageRole::Assistant
                    && messages@[k].content@.len() > 0),
        decreases messages.len() - i,
    {
        if messages[i].role == MessageRole::Assistant && char_count(messages[i].content.as_str())
            > 0 {
            return true;
        }
        i += 1;
    }
    false
}

fn check_tool_errors(events: &Vec<ThreadEvent>, issues: &mut Vec<TraceIssue>)
    ensures
        issue_views(final(issues)@) == issue_views(old(issues)@) + tool_error_issues(events@),
{
    let mut i: usize = 0;
    assert(events@.take(0) =~= seq![]);
    assert(issue_views(issues@) =~= issue_views(issues@) + tool_error_issues(events@.take(0)));
    while i < events.len()
        invariant
            i <= events.len(),
            issue_views(issues@) == issue_views(old(issues)@) + tool_error_issues(
                events@.take(i as int),
            ),
        decreases events.len() - i,
    {
        proof {
            let next = events@.take(i + 1);
            assert(next.drop_last() =~= events@.take(i as int));
            assert(next.last() == events@[i as int]);
        }
        match &events[i].kind {
            EventKind::ActionFailed { step_id, action_name, call_id, error } => {
                let mut text = "Tool '".to_string();
                text.append(action_name.as_str());
                text.append("' failed: ");
                text.append(error.as_str());
                report(issues, IssueSeverity::Warning, "tool_error", text, None);
            },
            _ => {},
        }
        i += 1;
        assert(issue_views(issues@) =~= issue_views(old(issues)@) + tool_error_issues(
            events@.take(i as int),
        ));
    }
    assert(events@.take(i as int) =~= events@);
}

fn holds_code_output(m: &ThreadMessage) -> (r: bool)
    ensures
        r == is_code_output(*m),
{
    let content = m.content.as_str();
    m.role == MessageRole::User && (starts_with_text(content, "[stdout]") || starts_with_text(
        content,
        "[stderr]",
    ) || starts_with_text(content, "[code ") || starts_with_text(content, "Traceback"))
}

fn holds_python_error(content: &str) -> (r: bool)
    ensures
        r == names_python_error(content@),
{
    contains_text(content, "NameError") || contains_text(content, "SyntaxError") || contains_text(
        content,
        "TypeError",
    ) || contains_text(content, "NotImplementedError")
}

fn check_code_errors(messages: &Vec<ThreadMessage>, issues: &mut Vec<TraceIssue>)
    ensures
        issue_views(final(issues)@) == issue_views(old(issues)@) + code_error_issues(messages@),
{
    let mut i: usize = 0;
    assert(messages@.take(0) =~= seq![]);
    assert(issue_views(issues@) =~= issue_views(issues@) + code_error_issues(messages@.take(0)));
    while i < messages.len()
        invariant
            i <= messages.len(),
            issue_views(issues@) == issue_views(old(issues)@) + code_error_issues(
                messages@.take(i as int),
            ),
        decreases messages.len() - i,
    {
        proof {
            let next = messages@.take(i + 1);
            assert(next.drop_last() =~= messages@.take(i as int));
            assert(next.last() == messages@[i as int]);
        }
        let m = &messages[i];
        if holds_code_output(m) && holds_python_error(m.content.as_str()) {
            let mut text = "Code execution error in message ".to_string();
            append_decimal(&mut text, i as u64);
            text.append(": ");
            text.append(take_chars(m.content.as_str(), 200).as_str());
            report(issues, IssueSeverity::Warning, "code_error", text, None);
        }
        i += 1;
        assert(issue_views(issues@) =~= issue_views(old(issues)@) + code_error_issues(
            messages@.take(i as int),
        ));
    }
    assert(messages@.take(i as int) =~= messages@);
}

fn is_call_id_missing(m: &ThreadMessage) -> (r: bool)
    ensures
        r == lacks_call_id(*m),
{
    if m.role != MessageRole::ActionResult {
        return false;
    }
    match &m.action_call_id {
        Some(id) => char_count(id.as_str()) == 0,
        None => true,
    }
}

fn check_call_ids(messages: &Vec<ThreadMessage>, issues: &mut Vec<TraceIssue>)
    ensures
        issue_views(final(issues)@) == issue_views(old(issues)@) + call_id_issues(messages@),
{
    let mut i: usize = 0;
    assert(messages@.take(0) =~= seq![]);
    assert(issue_views(issues@) =~= issue_views(issues@) + call_id_issues(messages@.take(0)));
    while i < messages.len()
        invariant
            i <= messages.len(),
            issue_views(issues@) == issue_views(old(issues)@) + call_id_issues(
                messages@.take(i as int),
            ),
        decreases messages.len() - i,
    {
        proof {
            let next = messages@.take(i + 1);
            assert(next.drop_last() =~= messages@.take(i as int));
            assert(next.last() == messages@[i as int]);
        }
        let m = &messages[i];
        if is_call_id_missing(m) {
            let mut text = "ActionResult message ".to_string();
            append_decimal(&mut text, i as u64);
            text.append(" (tool '");
            match &m.action_name {
                Some(name) => text.append(name.as_str()),
                None => text.append("unknown"),
            }
            text.append("') has empty call_id — will cause LLM API rejection");
            report(issues, IssueSeverity::Error, "empty_call_id", text, None);
        }
        i += 1;
        assert(issue_views(issues@) =~= issue_views(old(issues)@) + call_id_issues(
            messages@.take(i as int),
        ));
    }
    assert(messages@.take(i as int) =~= messages@);
}

fn any_tool_results(messages: &Vec<ThreadMessage>) -> (r: bool)
    ensures
        r == has_tool_results(messages@),
{
    let mut i: usize = 0;
    while i < messages.len()
        invariant
            i <= messages.len(),
            forall|k: int|
                0 <= k < i ==> (#[trigger] messages@[k]).role != MessageRole::ActionResult,
        decreases messages.len() - i,
    {
        if messages[i].role == MessageRole::ActionResult {
            return true;
        }
        i += 1;
    }
    false
}

fn any_tool_output(messages: &Vec<ThreadMessage>) -> (r: bool)
    ensures
        r == has_tool_output(messages@),
{
    let mut i: usize = 0;
    while i < messages.len()
        invariant
            i <= messages.len(),
            forall|k: int| 0 <= k < i ==> !shows_tool_output(#[trigger] messages@[k]),
        decreases messages.len() - i,
    {
        let m = &messages[i];
        if m.role == MessageRole::ActionResult || contains_text(m.content.as_str(), " result]")
            || contains_text(m.content.as_str(), " error]") {
            return true;
        }
        i += 1;
    }
    false
}

fn none_executed(events: &Vec<ThreadEvent>) -> (r: bool)
    ensures
        r == no_action_executed(events@),
{
    let mut i: usize = 0;
    while i < events.len()
        invariant
            i <= events.len(),
            forall|k: int| 0 <= k < i ==> !((#[trigger] events@[k]).kind is ActionExecuted),
        decreases events.len() - i,
    {
        if matches!(&events[i].kind, EventKind::ActionExecuted { .. }) {
            return false;
        }
        i += 1;
    }
    true
}

fn any_step_started(events: &Vec<ThreadEvent>) -> (r: bool)
    ensures
        r == step_started(events@),
{
    let mut i: usize = 0;
    while i < events.len()
        invariant
            i <= events.len(),
            forall|k: int| 0 <= k < i ==> !((#[trigger] events@[k]).kind is StepStarted),
        decreases events.len() - i,
    {
        if matches!(&events[i].kind, EventKind::StepStarted { .. }) {
            return true;
        }
        i += 1;
    }
    false
}

fn count_texts_without_code(messages: &Vec<ThreadMessage>) -> (r: usize)
    ensures
        r == texts_without_code(messages@),
{
    let mut count: usize = 0;
    let mut i: usize = 0;
    assert(messages@.take(0) =~= seq![]);
    while i < messages.len()
        invariant
            i <= messages.len(),
            count <= i,
            count == texts_without_code(messages@.take(i as int)),
        decreases messages.len() - i,
    {
        proof {
            let next = messages@.take(i + 1);
            assert(next.drop_last() =~= messages@.take(i as int));
            assert(next.last() == messages@[i as int]);
        }
        let m = &messages[i];
        if m.role == MessageRole::Assistant && !contains_text(m.content.as_str(), "```")
            && !contains_text(m.content.as_str(), "FINAL(") {
            count += 1;
        }
        i += 1;
    }
    assert(messages@.take(i as int) =~= messages@);
    count
}

fn check_reason(reason: &str, issues: &mut Vec<TraceIssue>)
    ensures
        issue_views(final(issues)@) == issue_views(old(issues)@) + reason_issue(reason@),
{
    if contains_text(reason, "LLM") || contains_text(reason, "Provider") {
        let mut text = "LLM provider error: ".to_string();
        text.append(truncate(reason, 300).as_str());
        report(issues, IssueSeverity::Error, "llm_error", text, None);
    } else if contains_text(reason, "orchestrator") {
        let mut text = "Orchestrator error: ".to_string();
        text.append(truncate(reason, 300).as_str());
        report(issues, IssueSeverity::Error, "orchestrator_error", text, None);
    } else {
        assert(issue_views(issues@) =~= issue_views(issues@) + reason_issue(reason@));
    }
}

fn check_failure_reasons(events: &Vec<ThreadEvent>, issues: &mut Vec<TraceIssue>)
    ensures
        issue_views(final(issues)@) == issue_views(old(issues)@) + failure_reason_issues(events@),
{
    let mut i: usize = 0;
    assert(events@.take(0) =~= seq![]);
    assert(issue_views(issues@) =~= issue_views(issues@) + failure_reason_issues(events@.take(0)));
    while i < events.len()
        invariant
            i <= events.len(),
            issue_views(issues@) == issue_views(old(issues)@) + failure_reason_issues(
                events@.take(i as int),
            ),
        decreases events.len() - i,
    {
        proof {
            let next = events@.take(i + 1);
            assert(next.drop_last() =~= events@.take(i as int));
            assert(next.last() == events@[i as int]);
        }
        match &events[i].kind {
            EventKind::StateChanged { from, to, reason } => {
                if *to == ThreadState::Failed {
                    match reason {
                        Some(text) => check_reason(text.as_str(), issues),
                        None => {},
                    }
                }
            },
            _ => {},
        }
        i += 1;
        assert(issue_views(issues@) =~= issue_views(old(issues)@) + failure_reason_issues(
            events@.take(i as int),
        ));
    }
    assert(events@.take(i as int) =~= events@);
}

/// Looks for common problems in a finished thread.
pub fn analyze_trace(thread: &Thread) -> (r: Vec<TraceIssue>)
    ensures
        issue_views(r@) == thread_issues(*thread),
{
    let mut issues: Vec<TraceIssue> = Vec::new();
    assert(issue_views(issues@) =~= seq![]);
    if thread.state == ThreadState::Failed {
        report(
            &mut issues,
            IssueSeverity::Error,
            "thread_failure",
            "Thread ended in Failed state".to_string(),
            None,
        );
    }
    assert(issue_views(issues@) =~= failure_issues(*thread));
    let responded = any_response(&thread.messages);
    if !responded {
        report(
            &mut issues,
            IssueSeverity::Warning,
            "no_response",
            "No assistant message in thread — model may not have generated output".to_string(),
            None,
        );
    }
    assert(issue_views(issues@) =~= failure_issues(*thread) + no_response_issues(*thread));
    check_tool_errors(&thread.events, &mut issues);
    check_code_errors(&thread.messages, &mut issues);
    check_call_ids(&thread.messages, &mut issues);
    let ghost before = issue_views(issues@);
    if any_tool_results(&thread.messages) && !any_tool_output(&thread.messages) {
        report(
            &mut issues,
            IssueSeverity::Warning,
            "missing_tool_output",
            "Tool results exist but no tool output in messages — model may not see tool results".to_string(),
            None,
        );
    }
    assert(issue_views(issues@) =~= before + missing_output_issues(*thread));
    let ghost before = issue_views(issues@);
    if thread.step_count > 10 {
        let mut text = "Thread took ".to_string();
        append_decimal(&mut text, thread.step_count as u64);
        text.append(" steps — may be stuck in a loop");
        report(&mut issues, IssueSeverity::Warning, "excessive_steps", text, None);
    }
    assert(issue_views(issues@) =~= before + step_count_issues(*thread));
    let ghost before = issue_views(issues@);
    if none_executed(&thread.events) && thread.step_count == 1 && responded {
        report(
            &mut issues,
            IssueSeverity::Info,
            "no_tools_used",
            "Model answered in one step without using any tools — may be answering from training data".to_string(),
            Some(1),
        );
    }
    assert(issue_views(issues@) =~= before + no_tools_issues(*thread));
    let ghost before = issue_views(issues@);
    let text_count: usize = count_texts_without_code(&thread.messages);
    if text_count > 0 && any_step_started(&thread.events) {
        let mut text = String::new();
        append_decimal(&mut text, text_count as u64);
        text.append(
            " text response(s) without code blocks — model may not be following CodeAct prompt",
        );
        assert(text@ =~= decimal(text_count as nat)
            + " text response(s) without code blocks — model may not be following CodeAct prompt"@);
        report(&mut issues, IssueSeverity::Info, "mixed_mode", text, None);
    }
    assert(issue_views(issues@) =~= before + mixed_mode_issues(*thread));
    check_failure_reasons(&thread.events, &mut issues);
    issues
}

// ── Traces ──────────────────────────────────────────────────

/// A doc that reflection produced, as the trace keeps it.
#[derive(Debug)]
pub struct ReflectionDocRecord {
    pub doc_type: String,
    pub title: String,
    pub content: String,
}

/// What a doc record holds.
pub ghost struct DocRecordView {
    pub doc_type: Seq<char>,
    pub title: Seq<char>,
    pub content: Seq<char>,
}

impl View for ReflectionDocRecord {
    type V = DocRecordView;

    open spec fn view(&self) -> DocRecordView {
        DocRecordView {
            doc_type: self.doc_type@,
            title: self.title@,
            content: self.content@,
        }
    }
}

/// The doc records of a list.
pub open spec fn doc_record_views(list: Seq<ReflectionDocRecord>) -> Seq<DocRecordView> {
    list.map_values(|d: ReflectionDocRecord| d@)
}

/// What reflection produced, as the trace keeps it.
#[derive(Debug)]
pub struct ReflectionTrace {
    pub docs: Vec<ReflectionDocRecord>,
    pub tokens_used: u64,
}

/// What a reflection trace holds.
pub ghost struct ReflectionTraceView {
    pub docs: Seq<DocRecordView>,
    pub tokens_used: u64,
}

impl View for ReflectionTrace {
    type V = ReflectionTraceView;

    open spec fn view(&self) -> ReflectionTraceView {
        ReflectionTraceView { docs: doc_record_views(self.docs@), tokens_used: self.tokens_used }
    }
}

/// A message, as the trace keeps it.
#[derive(Debug)]
pub struct MessageRecord {
    pub role: String,
    pub content_length: usize,
    pub content_preview: String,
    pub full_content: String,
    pub action_name: Option<String>,
    pub action_call_id: Option<String>,
}

/// What a message record holds.
pub ghost struct MessageRecordView {
    pub role: Seq<char>,
    pub content_length: nat,
    pub content_preview: Seq<char>,
    pub full_content: Seq<char>,
    pub action_name: Option<Seq<char>>,
    pub action_call_id: Option<Seq<char>>,
}

impl View for MessageRecord {
    type V = MessageRecordView;

    open spec fn view(&self) -> MessageRecordView {
        MessageRecordView {
            role: self.role@,
            content_length: self.content_length as nat,
            content_preview: self.content_preview@,
            full_content: self.full_content@,
            action_name: opt_text(self.action_name),
            action_call_id: opt_text(self.action_call_id),
        }
    }
}

/// The message records of a list.
pub open spec fn record_views(list: Seq<MessageRecord>) -> Seq<MessageRecordView> {
    list.map_values(|r: MessageRecord| r@)
}

/// The full trace of one thread.
#[derive(Debug)]
pub struct ExecutionTrace {
    pub thread_id: ThreadId,
    pub goal: String,
    pub final_state: ThreadState,
    pub step_count: usize,
    pub total_tokens: u64,
    pub messages: Vec<MessageRecord>,
    pub events: Vec<ThreadEvent>,
    pub issues: Vec<TraceIssue>,
    pub reflection: Option<ReflectionTrace>,
    pub timestamp: Timestamp,
}

/// What a trace holds.
pub ghost struct TraceView {
    pub thread_id: ThreadId,
    pub goal: Seq<char>,
    pub final_state: ThreadState,
    pub step_count: usize,
    pub total_tokens: u64,
    pub messages: Seq<MessageRecordView>,
    pub events: Seq<EventView>,
    pub issues: Seq<IssueView>,
    pub reflection: Option<ReflectionTraceView>,
    pub timestamp: Timestamp,
}

impl View for ExecutionTrace {
    type V = TraceView;

    open spec fn view(&self) -> TraceView {
        TraceView {
            thread_id: self.thread_id,
            goal: self.goal@,
            final_state: self.final_state,
            step_count: self.step_count,
            total_tokens: self.total_tokens,
            messages: record_views(self.messages@),
            events: event_views(self.events@),
            issues: issue_views(self.issues@),
            reflection: match self.reflection {
                Some(r) => Some(r@),
                None => None,
            },
            timestamp: self.timestamp,
        }
    }
}

/// The record of one message: a preview of at most 300 characters, and the
/// whole.
pub open spec fn record_of(m: ThreadMessage) -> MessageRecordView {
    MessageRecordView {
        role: role_name(m.role),
        content_length: m.content@.len(),
        content_preview: truncated(m.content@, 300),
        full_content: m.content@,
        action_name: opt_text(m.action_name),
        action_call_id: opt_text(m.action_call_id),
    }
}

/// The trace of a thread, taken at `at`, before reflection.
pub open spec fn trace_of(thread: Thread, at: Timestamp) -> TraceView {
    TraceView {
        thread_id: thread.id,
        goal: thread.goal@,
        final_state: thread.state,
        step_count: thread.step_count,
        total_tokens: thread.total_tokens_used,
        messages: thread.messages@.map_values(|m: ThreadMessage| record_of(m)),
        events: event_views(thread.events@),
        issues: thread_issues(thread),
        reflection: None,
        timestamp: at,
    }
}

/// Whether the value of the trace switch turns recording on: `1` or `true`.
pub fn is_trace_enabled(flag: Option<&str>) -> (r: bool)
    ensures
        r == (match flag {
            Some(value) => value@ == "1"@ || value@ == "true"@,
            None => false,
        }),
{
    match flag {
        Some(value) => same_text(value, "1") || same_text(value, "true"),
        None => false,
    }
}

fn record_messages(messages: &Vec<ThreadMessage>) -> (r: Vec<MessageRecord>)
    ensures
        record_views(r@) == messages@.map_values(|m: ThreadMessage| record_of(m)),
{
    let mut out: Vec<MessageRecord> = Vec::new();
    let mut i: usize = 0;
    while i < messages.len()
        invariant
            i <= messages.len(),
            out.len() == i,
            forall|k: int| 0 <= k < i ==> (#[trigger] out@[k])@ == record_of(messages@[k]),
        decreases messages.len() - i,
    {
        let m = &messages[i];
        out.push(
            MessageRecord {
                role: m.role.name().to_string(),
                content_length: char_count(m.content.as_str()),
                content_preview: truncate(m.content.as_str(), 300),
                full_content: m.content.clone(),
                action_name: copy_opt_text(&m.action_name),
                action_call_id: copy_opt_text(&m.action_call_id),
            },
        );
        i += 1;
    }
    assert(record_views(out@) =~= messages@.map_values(|m: ThreadMessage| record_of(m)));
    out
}

fn copy_events(events: &Vec<ThreadEvent>) -> (r: Vec<ThreadEvent>)
    ensures
        event_views(r@) == event_views(events@),
{
    let mut out: Vec<ThreadEvent> = Vec::new();
    let mut i: usize = 0;
    while i < events.len()
        invariant
            i <= events.len(),
            out.len() == i,
            forall|k: int| 0 <= k < i ==> (#[trigger] out@[k])@ == events@[k]@,
        decreases events.len() - i,
    {
        out.push(events[i].clone());
        i += 1;
    }
    assert(event_views(out@) =~= event_views(events@));
    out
}

/// Builds the trace of a finished thread, with the current time.
pub fn build_trace(thread: &Thread) -> (r: ExecutionTrace)
    ensures
        r.timestamp.valid(),
        r@ == trace_of(*thread, r.timestamp),
{
    build_trace_at(thread, now())
}

/// Builds the trace of a finished thread, taken at `at`.
pub fn build_trace_at(thread: &Thread, at: Timestamp) -> (r: ExecutionTrace)
    ensures
        r.timestamp == at,
        r@ == trace_of(*thread, at),
{
    ExecutionTrace {
        thread_id: thread.id,
        goal: thread.goal.clone(),
        final_state: thread.state,
        step_count: thread.step_count,
        total_tokens: thread.total_tokens_used,
        messages: record_messages(&thread.messages),
        events: copy_events(&thread.events),
        issues: analyze_trace(thread),
        reflection: None,
        timestamp: at,
    }
}

/// The name of the file that holds a trace written at `at`.
pub fn trace_filename(at: Timestamp) -> (r: String)
    requires
        at.valid(),
    ensures
        r@ == "engine_trace_"@ + compact_of(at.secs, at.nanos) + ".json"@,
{
    let mut name = "engine_trace_".to_string();
    name.append(compact(at).as_str());
    name.append(".json");
    name
}

/// The record of one doc.
pub open spec fn doc_record_of(d: MemoryDoc) -> DocRecordView {
    DocRecordView {
        doc_type: doc_type_name(d.doc_type),
        title: d.title@,
        content: d.content@,
    }
}

/// Puts the outcome of reflection into a trace.
pub fn attach_reflection(trace: &mut ExecutionTrace, result: &ReflectionResult)
    requires
        result.tokens_used.input_tokens + result.tokens_used.output_tokens <= u64::MAX,
    ensures
        final(trace)@ == (TraceView {
            reflection: Some(
                ReflectionTraceView {
                    docs: result.docs@.map_values(|d: MemoryDoc| doc_record_of(d)),
                    tokens_used: (result.tokens_used.input_tokens
                        + result.tokens_used.output_tokens) as u64,
                },
            ),
            ..old(trace)@
        }),
{
    let mut docs: Vec<ReflectionDocRecord> = Vec::new();
    let mut i: usize = 0;
    while i < result.docs.len()
        invariant
            i <= result.docs.len(),
            docs.len() == i,
            forall|k: int| 0 <= k < i ==> (#[trigger] docs@[k])@ == doc_record_of(result.docs@[k]),
        decreases result.docs.len() - i,
    {
        let d = &result.docs[i];
        docs.push(
            ReflectionDocRecord {
                doc_type: d.doc_type.name().to_string(),
                title: d.title.clone(),
                content: d.content.clone(),
            },
        );
        i += 1;
    }
    assert(doc_record_views(docs@) =~= result.docs@.map_values(|d: MemoryDoc| doc_record_of(d)));
    trace.reflection = Some(ReflectionTrace { docs, tokens_used: result.tokens_used.total() });
}

// ── Summary ─────────────────────────────────────────────────

/// How loud a log line is.
#[derive(Clone, Copy, Debug, PartialEq, Eq, Structural)]
pub enum LogLevel {
    Debug,
    Warn,
}

/// One line of a trace summary.
#[derive(Debug)]
pub enum SummaryLine {
    Head {
        thread_id: String,
        goal: String,
        state: ThreadState,
        steps: usize,
        tokens: u64,
        messages: usize,
        events: usize,
        issues: usize,
    },
    Issue { level: LogLevel, category: String, step: Option<usize>, message: String },
    Reflection { thread_id: String, docs: usize, tokens: u64 },
    Doc { doc_type: String, title: String, message: String },
}

/// What a summary line says.
pub ghost enum SummaryLineView {
    Head {
        thread_id: Seq<char>,
        goal: Seq<char>,
        state: ThreadState,
        steps: usize,
        tokens: u64,
        messages: nat,
        events: nat,
        issues: nat,
    },
    Issue { level: LogLevel, category: Seq<char>, step: Option<usize>, message: Seq<char> },
    Reflection { thread_id: Seq<char>, docs: nat, tokens: u64 },
    Doc { doc_type: Seq<char>, title: Seq<char>, message: Seq<char> },
}

impl View for SummaryLine {
    type V = SummaryLineView;

    open spec fn view(&self) -> SummaryLineView {
        match *self {
            SummaryLine::Head { thread_id, goal, state, steps, tokens, messages, events, issues } => {
                SummaryLineView::Head {
                    thread_id: thread_id@,
                    goal: goal@,
                    state,
                    steps,
                    tokens,
                    messages: messages as nat,
                    events: events as nat,
                    issues: issues as nat,
                }
            },
            SummaryLine::Issue { level, category, step, message } => SummaryLineView::Issue {
                level,
                category: category@,
                step,
                message: message@,
            },
            SummaryLine::Reflection { thread_id, docs, tokens } => SummaryLineView::Reflection {
                thread_id: thread_id@,
                docs: docs as nat,
                tokens,
            },
            SummaryLine::Doc { doc_type, title, message } => SummaryLineView::Doc {
                doc_type: doc_type@,
                title: title@,
                message: message@,
            },
        }
    }
}

/// The lines of a list.
pub open spec fn line_views(list: Seq<SummaryLine>) -> Seq<SummaryLineView> {
    list.map_values(|l: SummaryLine| l@)
}

/// The line of one issue: errors and warnings are loud, notes are not.
pub open spec fn issue_line(i: IssueView) -> SummaryLineView {
    SummaryLineView::Issue {
        level: if i.severity == IssueSeverity::Info {
            LogLevel::Debug
        } else {
            LogLevel::Warn
        },
        category: i.category,
        step: i.step,
        message: (match i.severity {
            IssueSeverity::Error => "ISSUE: "@,
            IssueSeverity::Warning => "WARNING: "@,
            IssueSeverity::Info => "NOTE: "@,
        }) + i.description,
    }
}

/// The line of one reflection doc, with at most 200 characters of content.
pub open spec fn doc_line(d: DocRecordView) -> SummaryLineView {
    SummaryLineView::Doc {
        doc_type: d.doc_type,
        title: d.title,
        message: "  "@ + truncated(d.content, 200),
    }
}

/// The whole summary: a head, the issues, and the reflection where there was one.
pub open spec fn summary_of(trace: TraceView) -> Seq<SummaryLineView> {
    let head = SummaryLineView::Head {
        thread_id: id_form(trace.thread_id.0),
        goal: trace.goal,
        state: trace.final_state,
        steps: trace.step_count,
        tokens: trace.total_tokens,
        messages: trace.messages.len(),
        events: trace.events.len(),
        issues: trace.issues.len(),
    };
    let issues = trace.issues.map_values(|i: IssueView| issue_line(i));
    let reflection = match trace.reflection {
        Some(r) => seq![
            SummaryLineView::Reflection {
                thread_id: id_form(trace.thread_id.0),
                docs: r.docs.len(),
                tokens: r.tokens_used,
            },
        ] + r.docs.map_values(|d: DocRecordView| doc_line(d)),
        None => seq![],
    };
    seq![head] + issues + reflection
}

fn issue_lines(issues: &Vec<TraceIssue>, lines: &mut Vec<SummaryLine>)
    ensures
        line_views(final(lines)@) == line_views(old(lines)@) + issue_views(issues@).map_values(
            |i: IssueView| issue_line(i),
        ),
{
    let ghost all = issue_views(issues@).map_values(|i: IssueView| issue_line(i));
    let mut i: usize = 0;
    assert(line_views(lines@) =~= line_views(lines@) + all.take(0));
    while i < issues.len()
        invariant
            i <= issues.len(),
            all == issue_views(issues@).map_values(|i: IssueView| issue_line(i)),
            line_views(lines@) == line_views(old(lines)@) + all.take(i as int),
        decreases issues.len() - i,
    {
        let issue = &issues[i];
        let ghost before = lines@;
        let (level, label) = match issue.severity {
            IssueSeverity::Error => (LogLevel::Warn, "ISSUE: "),
            IssueSeverity::Warning => (LogLevel::Warn, "WARNING: "),
            IssueSeverity::Info => (LogLevel::Debug, "NOTE: "),
        };
        let mut message = label.to_string();
        message.append(issue.description.as_str());
        let line = SummaryLine::Issue {
            level,
            category: issue.category.clone(),
            step: issue.step,
            message,
        };
        assert(all[i as int] == issue_line(issue@));
        assert(line@ == all[i as int]);
        lines.push(line);
        i += 1;
        assert(line_views(lines@) =~= line_views(before).push(all[i - 1]));
        assert(all.take(i as int) =~= all.take(i - 1).push(all[i - 1]));
        assert(line_views(lines@) =~= line_views(old(lines)@) + all.take(i as int));
    }
    assert(all.take(i as int) =~= all);
}

fn doc_lines(docs: &Vec<ReflectionDocRecord>, lines: &mut Vec<SummaryLine>)
    ensures
        line_views(final(lines)@) == line_views(old(lines)@) + doc_record_views(docs@).map_values(
            |d: DocRecordView| doc_line(d),
        ),
{
    let ghost all = doc_record_views(docs@).map_values(|d: DocRecordView| doc_line(d));
    let mut i: usize = 0;
    assert(line_views(lines@) =~= line_views(lines@) + all.take(0));
    while i < docs.len()
        invariant
            i <= docs.len(),
            all == doc_record_views(docs@).map_values(|d: DocRecordView| doc_line(d)),
            line_views(lines@) == line_views(old(lines)@) + all.take(i as int),
        decreases docs.len() - i,
    {
        let d = &docs[i];
        let ghost before = lines@;
        let mut message = "  ".to_string();
        message.append(truncate(d.content.as_str(), 200).as_str());
        let line = SummaryLine::Doc {
            doc_type: d.doc_type.clone(),
            title: d.title.clone(),
            message,
        };
        assert(all[i as int] == doc_line(d@));
        assert(line@ == all[i as int]);
        lines.push(line);
        i += 1;
        assert(line_views(lines@) =~= line_views(before).push(all[i - 1]));
        assert(all.take(i as int) =~= all.take(i - 1).push(all[i - 1]));
        assert(line_views(lines@) =~= line_views(old(lines)@) + all.take(i as int));
    }
    assert(all.take(i as int) =~= all);
}

/// The lines that sum a trace up for the log.
pub fn log_trace_summary(trace: &ExecutionTrace) -> (r: Vec<SummaryLine>)
    ensures
        line_views(r@) == summary_of(trace@),
{
    let mut lines: Vec<SummaryLine> = Vec::new();
    let head = SummaryLine::Head {
        thread_id: id_text(trace.thread_id.0),
        goal: trace.goal.clone(),
        state: trace.final_state,
        steps: trace.step_count,
        tokens: trace.total_tokens,
        messages: trace.messages.len(),
        events: trace.events.len(),
        issues: trace.issues.len(),
    };
    lines.push(head);
    assert(line_views(lines@) =~= seq![head@]);
    issue_lines(&trace.issues, &mut lines);
    match &trace.reflection {
        Some(refl) => {
            let ghost before = lines@;
            let line = SummaryLine::Reflection {
                thread_id: id_text(trace.thread_id.0),
                docs: refl.docs.len(),
                tokens: refl.tokens_used,
            };
            lines.push(line);
            assert(line_views(lines@) =~= line_views(before) + seq![line@]);
            doc_lines(&refl.docs, &mut lines);
            assert(line_views(lines@) =~= summary_of(trace@));
        },
        None => {
            assert(line_views(lines@) =~= summary_of(trace@));
        },
    }
    lines
}

// ── Laws ────────────────────────────────────────────────────

/// A tool result in the messages is itself tool output, so the analysis never
/// reports that results exist which no message shows.
pub proof fn law_tool_results_are_always_shown(thread: Thread)
    ensures
        missing_output_issues(thread) == Seq::<IssueView>::empty(),
{
    if has_tool_results(thread.messages@) {
        let i = choose|i: int|
            0 <= i < thread.messages@.len() && (#[trigger] thread.messages@[i]).role
                == MessageRole::ActionResult;
        assert(shows_tool_output(thread.messages@[i]));
    }
}

/// A failed thread is reported first, as an error.
pub proof fn law_failure_is_reported_first(thread: Thread)
    requires
        thread.state == ThreadState::Failed,
    ensures
        thread_issues(thread).len() > 0,
        thread_issues(thread)[0] == issue(
            IssueSeverity::Error,
            "thread_failure"@,
            "Thread ended in Failed state"@,
        ),
{
}

proof fn lemma_tool_errors(events: Seq<ThreadEvent>, i: int)
    requires
        0 <= i < events.len(),
        events[i].kind is ActionFailed,
    ensures
        tool_error_issues(events).contains(tool_error_of(events[i])[0]),
    decreases events.len(),
{
    let rest = tool_error_issues(events.drop_last());
    let last = tool_error_of(events.last());
    let found = tool_error_of(events[i])[0];
    if i < events.len() - 1 {
        lemma_tool_errors(events.drop_last(), i);
        let k = choose|k: int| 0 <= k < rest.len() && rest[k] == found;
        assert((rest + last)[k] == found);
    } else {
        assert((rest + last)[rest.len() as int] == found);
    }
}

/// Every failed action of a thread is among the reported issues, as a warning
/// that names the action and its error.
pub proof fn law_every_failed_action_is_reported(thread: Thread, i: int)
    requires
        0 <= i < thread.events@.len(),
        thread.events@[i].kind is ActionFailed,
    ensures
        thread_issues(thread).contains(
            issue(
                IssueSeverity::Warning,
                "tool_error"@,
                "Tool '"@ + thread.events@[i].kind->ActionFailed_action_name@ + "' failed: "@
                    + thread.events@[i].kind->ActionFailed_error@,
            ),
        ),
{
    lemma_tool_errors(thread.events@, i);
    let found = tool_error_of(thread.events@[i])[0];
    let head = failure_issues(thread) + no_response_issues(thread);
    let errors = tool_error_issues(thread.events@);
    let k = choose|k: int| 0 <= k < errors.len() && errors[k] == found;
    assert(thread_issues(thread)[head.len() + k] == found);
}

/// The issues of a category among those of a list, in order.
pub open spec fn of_category(list: Seq<IssueView>, category: Seq<char>) -> Seq<IssueView>
    decreases list.len(),
{
    if list.len() == 0 {
        seq![]
    } else if list.last().category == category {
        of_category(list.drop_last(), category).push(list.last())
    } else {
        of_category(list.drop_last(), category)
    }
}

proof fn lemma_category_of_more(a: Seq<IssueView>, b: Seq<IssueView>, category: Seq<char>)
    ensures
        of_category(a + b, category) == of_category(a, category) + of_category(b, category),
    decreases b.len(),
{
    if b.len() == 0 {
        assert(a + b =~= a);
        assert(of_category(a, category) + of_category(b, category) =~= of_category(a, category));
    } else {
        assert((a + b).drop_last() =~= a + b.drop_last());
        lemma_category_of_more(a, b.drop_last(), category);
        assert(of_category(a + b, category) =~= of_category(a, category) + of_category(
            b,
            category,
        ));
    }
}

proof fn lemma_one_category(list: Seq<IssueView>, have: Seq<char>, asked: Seq<char>)
    requires
        forall|i: int| 0 <= i < list.len() ==> (#[trigger] list[i]).category == have,
    ensures
        have == asked ==> of_category(list, asked) == list,
        have != asked ==> of_category(list, asked) == Seq::<IssueView>::empty(),
    decreases list.len(),
{
    if list.len() > 0 {
        lemma_one_category(list.drop_last(), have, asked);
        assert(list[list.len() - 1].category == have);
        assert(list.drop_last().push(list.last()) =~= list);
    } else {
        assert(of_category(list, asked) =~= list);
    }
}

proof fn lemma_tool_error_category(events: Seq<ThreadEvent>)
    ensures
        forall|i: int|
            0 <= i < tool_error_issues(events).len() ==> (#[trigger] tool_error_issues(
                events,
            )[i]).category == "tool_error"@,
    decreases events.len(),
{
    if events.len() > 0 {
        lemma_tool_error_category(events.drop_last());
    }
}

proof fn lemma_code_error_category(messages: Seq<ThreadMessage>)
    ensures
        forall|i: int|
            0 <= i < code_error_issues(messages).len() ==> (#[trigger] code_error_issues(
                messages,
            )[i]).category == "code_error"@,
    decreases messages.len(),
{
    if messages.len() > 0 {
        lemma_code_error_category(messages.drop_last());
    }
}

proof fn lemma_call_id_category(messages: Seq<ThreadMessage>)
    ensures
        forall|i: int|
            0 <= i < call_id_issues(messages).len() ==> (#[trigger] call_id_issues(
                messages,
            )[i]).category == "empty_call_id"@,
    decreases messages.len(),
{
    if messages.len() > 0 {
        lemma_call_id_category(messages.drop_last());
    }
}

proof fn lemma_reason_category(events: Seq<ThreadEvent>)
    ensures
        forall|i: int|
            0 <= i < failure_reason_issues(events).len() ==> (#[trigger] failure_reason_issues(
                events,
            )[i]).category == "llm_error"@ || failure_reason_issues(events)[i].category
                == "orchestrator_error"@,
    decreases events.len(),
{
    if events.len() > 0 {
        lemma_reason_category(events.drop_last());
    }
}

proof fn lemma_categories_differ()
    ensures
        "thread_failure"@.len() == 14,
        "no_response"@.len() == 11,
        "tool_error"@[0] == 't' && "tool_error"@.len() == 10,
        "code_error"@[0] == 'c' && "code_error"@.len() == 10,
        "mixed_mode"@[0] == 'm' && "mixed_mode"@.len() == 10,
        "empty_call_id"@[0] == 'e' && "empty_call_id"@.len() == 13,
        "no_tools_used"@[0] == 'n' && "no_tools_used"@.len() == 13,
        "missing_tool_output"@.len() == 19,
        "excessive_steps"@.len() == 15,
        "llm_error"@.len() == 9,
        "orchestrator_error"@.len() == 18,
{
    reveal_strlit("thread_failure");
    reveal_strlit("no_response");
    reveal_strlit("tool_error");
    reveal_strlit("code_error");
    reveal_strlit("mixed_mode");
    reveal_strlit("empty_call_id");
    reveal_strlit("no_tools_used");
    reveal_strlit("missing_tool_output");
    reveal_strlit("excessive_steps");
    reveal_strlit("llm_error");
    reveal_strlit("orchestrator_error");
}

/// The issues of each check are those of its category.
proof fn lemma_categories(thread: Thread)
    ensures
        ({
            let all = thread_issues(thread);
            &&& of_category(all, "thread_failure"@) == failure_issues(thread)
            &&& of_category(all, "no_response"@) == no_response_issues(thread)
            &&& of_category(all, "tool_error"@) == tool_error_issues(thread.events@)
            &&& of_category(all, "code_error"@) == code_error_issues(thread.messages@)
            &&& of_category(all, "empty_call_id"@) == call_id_issues(thread.messages@)
            &&& of_category(all, "missing_tool_output"@) == missing_output_issues(thread)
            &&& of_category(all, "excessive_steps"@) == step_count_issues(thread)
            &&& of_category(all, "no_tools_used"@) == no_tools_issues(thread)
            &&& of_category(all, "mixed_mode"@) == mixed_mode_issues(thread)
            &&& of_category(all, "llm_error"@) == of_category(
                failure_reason_issues(thread.events@),
                "llm_error"@,
            )
            &&& of_category(all, "orchestrator_error"@) == of_category(
                failure_reason_issues(thread.events@),
                "orchestrator_error"@,
            )
        }),
{
    lemma_categories_differ();
    lemma_category_here(thread, "thread_failure"@);
    lemma_category_here(thread, "no_response"@);
    lemma_category_here(thread, "tool_error"@);
    lemma_category_here(thread, "code_error"@);
    lemma_category_here(thread, "empty_call_id"@);
    lemma_category_here(thread, "missing_tool_output"@);
    lemma_category_here(thread, "excessive_steps"@);
    lemma_category_here(thread, "no_tools_used"@);
    lemma_category_here(thread, "mixed_mode"@);
    lemma_category_here(thread, "llm_error"@);
    lemma_category_here(thread, "orchestrator_error"@);
    let reasons = failure_reason_issues(thread.events@);
    lemma_reason_category(thread.events@);
    lemma_no_category(reasons, "thread_failure"@);
    lemma_no_category(reasons, "no_response"@);
    lemma_no_category(reasons, "tool_error"@);
    lemma_no_category(reasons, "code_error"@);
    lemma_no_category(reasons, "empty_call_id"@);
    lemma_no_category(reasons, "missing_tool_output"@);
    lemma_no_category(reasons, "excessive_steps"@);
    lemma_no_category(reasons, "no_tools_used"@);
    lemma_no_category(reasons, "mixed_mode"@);
}

proof fn lemma_no_category(list: Seq<IssueView>, asked: Seq<char>)
    requires
        forall|i: int| 0 <= i < list.len() ==> (#[trigger] list[i]).category != asked,
    ensures
        of_category(list, asked) == Seq::<IssueView>::empty(),
    decreases list.len(),
{
    if list.len() > 0 {
        assert(list[list.len() - 1].category != asked);
        lemma_no_category(list.drop_last(), asked);
    }
}

/// What `list` has of the asked category, where all of it is of `have`.
spec fn if_asked(list: Seq<IssueView>, have: Seq<char>, asked: Seq<char>) -> Seq<IssueView> {
    if have == asked {
        list
    } else {
        seq![]
    }
}

proof fn lemma_category_here(thread: Thread, asked: Seq<char>)
    ensures
        of_category(thread_issues(thread), asked) == if_asked(
            failure_issues(thread),
            "thread_failure"@,
            asked,
        ) + if_asked(no_response_issues(thread), "no_response"@, asked) + if_asked(
            tool_error_issues(thread.events@),
            "tool_error"@,
            asked,
        ) + if_asked(code_error_issues(thread.messages@), "code_error"@, asked) + if_asked(
            call_id_issues(thread.messages@),
            "empty_call_id"@,
            asked,
        ) + if_asked(missing_output_issues(thread), "missing_tool_output"@, asked) + if_asked(
            step_count_issues(thread),
            "excessive_steps"@,
            asked,
        ) + if_asked(no_tools_issues(thread), "no_tools_used"@, asked) + if_asked(
            mixed_mode_issues(thread),
            "mixed_mode"@,
            asked,
        ) + of_category(failure_reason_issues(thread.events@), asked),
{
    let p1 = failure_issues(thread);
    let p2 = no_response_issues(thread);
    let p3 = tool_error_issues(thread.events@);
    let p4 = code_error_issues(thread.messages@);
    let p5 = call_id_issues(thread.messages@);
    let p6 = missing_output_issues(thread);
    let p7 = step_count_issues(thread);
    let p8 = no_tools_issues(thread);
    let p9 = mixed_mode_issues(thread);
    let p10 = failure_reason_issues(thread.events@);
    lemma_category_of_more(p1, p2, asked);
    lemma_category_of_more(p1 + p2, p3, asked);
    lemma_category_of_more(p1 + p2 + p3, p4, asked);
    lemma_category_of_more(p1 + p2 + p3 + p4, p5, asked);
    lemma_category_of_more(p1 + p2 + p3 + p4 + p5, p6, asked);
    lemma_category_of_more(p1 + p2 + p3 + p4 + p5 + p6, p7, asked);
    lemma_category_of_more(p1 + p2 + p3 + p4 + p5 + p6 + p7, p8, asked);
    lemma_category_of_more(p1 + p2 + p3 + p4 + p5 + p6 + p7 + p8, p9, asked);
    lemma_category_of_more(p1 + p2 + p3 + p4 + p5 + p6 + p7 + p8 + p9, p10, asked);
    lemma_tool_error_category(thread.events@);
    lemma_code_error_category(thread.messages@);
    lemma_call_id_category(thread.messages@);
    lemma_one_category(p1, "thread_failure"@, asked);
    lemma_one_category(p2, "no_response"@, asked);
    lemma_one_category(p3, "tool_error"@, asked);
    lemma_one_category(p4, "code_error"@, asked);
    lemma_one_category(p5, "empty_call_id"@, asked);
    lemma_one_category(p6, "missing_tool_output"@, asked);
    lemma_one_category(p7, "excessive_steps"@, asked);
    lemma_one_category(p8, "no_tools_used"@, asked);
    lemma_one_category(p9, "mixed_mode"@, asked);
}

/// What is reported of a thread under a category.
pub open spec fn reported(issues: Vec<TraceIssue>, category: Seq<char>) -> Seq<IssueView> {
    of_category(issue_views(issues@), category)
}

/// A thread is reported as failed exactly where it is, once and as an error.
pub proof fn law_failed_threads_are_reported(thread: Thread, r: Vec<TraceIssue>)
    requires
        call_ensures(analyze_trace, (&thread,), r),
    ensures
        thread.state == ThreadState::Failed ==> reported(r, "thread_failure"@) == seq![
            (IssueView {
                severity: IssueSeverity::Error,
                category: "thread_failure"@,
                description: "Thread ended in Failed state"@,
                step: None,
            }),
        ] && r@[0].category@ == "thread_failure"@,
        thread.state != ThreadState::Failed ==> reported(r, "thread_failure"@).len() == 0,
{
    lemma_categories(thread);
    if thread.state == ThreadState::Failed {
        assert(issue_views(r@)[0] == r@[0]@);
    }
}

/// A thread in which the model never said anything is warned of, and no other.
pub proof fn law_silent_models_are_reported(thread: Thread, r: Vec<TraceIssue>)
    requires
        call_ensures(analyze_trace, (&thread,), r),
    ensures
        (forall|i: int|
            0 <= i < thread.messages@.len() ==> (#[trigger] thread.messages@[i]).role
                != MessageRole::Assistant || thread.messages@[i].content@.len() == 0) ==> reported(
            r,
            "no_response"@,
        ) == seq![
            (IssueView {
                severity: IssueSeverity::Warning,
                category: "no_response"@,
                description:
                    "No assistant message in thread — model may not have generated output"@,
                step: None,
            }),
        ],
        (exists|i: int|
            0 <= i < thread.messages@.len() && (#[trigger] thread.messages@[i]).role
                == MessageRole::Assistant && thread.messages@[i].content@.len() > 0) ==> reported(
            r,
            "no_response"@,
        ).len() == 0,
{
    lemma_categories(thread);
}

/// Each failed action is warned of once, in order, with its name and its error,
/// and no other event is.
pub proof fn law_failed_actions_are_reported(
    a: Thread,
    b: Thread,
    e: ThreadEvent,
    x: Vec<TraceIssue>,
    y: Vec<TraceIssue>,
)
    requires
        call_ensures(analyze_trace, (&a,), x),
        call_ensures(analyze_trace, (&b,), y),
        b.events@ == a.events@.push(e),
    ensures
        a.events@.len() == 0 ==> reported(x, "tool_error"@).len() == 0,
        !(e.kind is ActionFailed) ==> reported(y, "tool_error"@) == reported(x, "tool_error"@),
        e.kind matches EventKind::ActionFailed { action_name, error, .. } ==> reported(
            y,
            "tool_error"@,
        ) == reported(x, "tool_error"@).push(
            (IssueView {
                severity: IssueSeverity::Warning,
                category: "tool_error"@,
                description: "Tool '"@ + action_name@ + "' failed: "@ + error@,
                step: None,
            }),
        ),
{
    lemma_categories(a);
    lemma_categories(b);
    assert(b.events@.drop_last() =~= a.events@);
    let before = reported(x, "tool_error"@);
    assert(reported(y, "tool_error"@) == before + tool_error_of(e));
    if e.kind is ActionFailed {
        assert(before + tool_error_of(e) =~= before.push(tool_error_of(e)[0]));
    } else {
        assert(before + tool_error_of(e) =~= before);
    }
}

/// A message is warned of as a code error exactly where it is the user's,
/// begins with `[stdout]`, `[stderr]`, `[code ` or `Traceback`, and names a
/// `NameError`, a `SyntaxError`, a `TypeError` or a `NotImplementedError`
/// anywhere. The warning names the message by its position and shows its first
/// 200 characters.
pub proof fn law_code_errors_are_reported(
    a: Thread,
    b: Thread,
    m: ThreadMessage,
    x: Vec<TraceIssue>,
    y: Vec<TraceIssue>,
)
    requires
        call_ensures(analyze_trace, (&a,), x),
        call_ensures(analyze_trace, (&b,), y),
        b.messages@ == a.messages@.push(m),
    ensures
        ({
            let text = m.content@;
            let before = reported(x, "code_error"@);
            let after = reported(y, "code_error"@);
            let found = before.push(
                (IssueView {
                    severity: IssueSeverity::Warning,
                    category: "code_error"@,
                    description: "Code execution error in message "@ + decimal(a.messages@.len())
                        + ": "@ + (if text.len() <= 200 {
                        text
                    } else {
                        text.take(200)
                    }),
                    step: None,
                }),
            );
            let output = m.role == MessageRole::User && (begins_with(text, "[stdout]"@)
                || begins_with(text, "[stderr]"@) || begins_with(text, "[code "@) || begins_with(
                text,
                "Traceback"@,
            ));
            &&& a.messages@.len() == 0 ==> before.len() == 0
            &&& output && has_text(text, "NameError"@) ==> after == found
            &&& output && has_text(text, "SyntaxError"@) ==> after == found
            &&& output && has_text(text, "TypeError"@) ==> after == found
            &&& output && has_text(text, "NotImplementedError"@) ==> after == found
            &&& !output ==> after == before
            &&& !has_text(text, "NameError"@) && !has_text(text, "SyntaxError"@) && !has_text(
                text,
                "TypeError"@,
            ) && !has_text(text, "NotImplementedError"@) ==> after == before
        }),
{
    lemma_categories(a);
    lemma_categories(b);
    assert(b.messages@.drop_last() =~= a.messages@);
    let before = reported(x, "code_error"@);
    let more = code_error_of(m, a.messages@.len() as int);
    assert(reported(y, "code_error"@) == before + more);
    if more.len() == 0 {
        assert(before + more =~= before);
    } else {
        assert(before + more =~= before.push(more[0]));
    }
}

/// Whatever else a thread holds, each of its messages with a code error is
/// among its issues, as a warning that names the message by its position.
pub proof fn law_every_code_error_is_reported(thread: Thread, i: int, r: Vec<TraceIssue>)
    requires
        call_ensures(analyze_trace, (&thread,), r),
        0 <= i < thread.messages@.len(),
        thread.messages@[i].role == MessageRole::User,
        ({
            let text = thread.messages@[i].content@;
            &&& begins_with(text, "[stdout]"@) || begins_with(text, "[stderr]"@) || begins_with(
                text,
                "[code "@,
            ) || begins_with(text, "Traceback"@)
            &&& has_text(text, "NameError"@) || has_text(text, "SyntaxError"@) || has_text(
                text,
                "TypeError"@,
            ) || has_text(text, "NotImplementedError"@)
        }),
    ensures
        exists|k: int|
            0 <= k < r@.len() && (#[trigger] r@[k]).category@ == "code_error"@ && r@[k].severity
                == IssueSeverity::Warning && begins_with(
                r@[k].description@,
                "Code execution error in message "@ + decimal(i as nat) + ": "@,
            ),
{
    let m = thread.messages@[i];
    lemma_code_errors(thread.messages@, i);
    let found = code_error_of(m, i)[0];
    let head = failure_issues(thread) + no_response_issues(thread) + tool_error_issues(
        thread.events@,
    );
    let errors = code_error_issues(thread.messages@);
    let k = choose|k: int| 0 <= k < errors.len() && errors[k] == found;
    let at = head.len() + k;
    assert(at < thread_issues(thread).len());
    assert(thread_issues(thread)[at] == found);
    assert(issue_views(r@).len() == r@.len());
    assert(issue_views(r@)[at] == r@[at]@);
    let start = "Code execution error in message "@ + decimal(i as nat) + ": "@;
    assert(found.description.subrange(0, start.len() as int) =~= start);
}

proof fn lemma_code_errors(messages: Seq<ThreadMessage>, i: int)
    requires
        0 <= i < messages.len(),
        code_error_of(messages[i], i).len() > 0,
    ensures
        code_error_issues(messages).contains(code_error_of(messages[i], i)[0]),
    decreases messages.len(),
{
    let rest = code_error_issues(messages.drop_last());
    let last = code_error_of(messages.last(), messages.len() - 1);
    let found = code_error_of(messages[i], i)[0];
    if i < messages.len() - 1 {
        lemma_code_errors(messages.drop_last(), i);
        let k = choose|k: int| 0 <= k < rest.len() && rest[k] == found;
        assert((rest + last)[k] == found);
    } else {
        assert((rest + last)[rest.len() as int] == found);
    }
}

/// An action result is reported exactly where it names no call, as an error
/// that tells its position and its tool.
pub proof fn law_results_without_a_call_are_reported(
    a: Thread,
    b: Thread,
    m: ThreadMessage,
    x: Vec<TraceIssue>,
    y: Vec<TraceIssue>,
)
    requires
        call_ensures(analyze_trace, (&a,), x),
        call_ensures(analyze_trace, (&b,), y),
        b.messages@ == a.messages@.push(m),
    ensures
        ({
            let before = reported(x, "empty_call_id"@);
            let after = reported(y, "empty_call_id"@);
            let named = m.action_call_id matches Some(id) && id@.len() > 0;
            &&& a.messages@.len() == 0 ==> before.len() == 0
            &&& m.role != MessageRole::ActionResult || named ==> after == before
            &&& m.role == MessageRole::ActionResult && !named ==> {
                &&& after.len() == before.len() + 1
                &&& after.drop_last() == before
                &&& after.last().severity == IssueSeverity::Error
                &&& after.last().step is None
                &&& m.action_name matches Some(tool) ==> after.last().description
                    == "ActionResult message "@ + decimal(a.messages@.len()) + " (tool '"@ + tool@
                    + "') has empty call_id — will cause LLM API rejection"@
                &&& m.action_name is None ==> after.last().description == "ActionResult message "@
                    + decimal(a.messages@.len()) + " (tool '"@ + "unknown"@
                    + "') has empty call_id — will cause LLM API rejection"@
            }
        }),
{
    lemma_categories(a);
    lemma_categories(b);
    assert(b.messages@.drop_last() =~= a.messages@);
    let before = reported(x, "empty_call_id"@);
    let after = reported(y, "empty_call_id"@);
    let more = call_id_issue_of(m, a.messages@.len() as int);
    assert(after == before + more);
    if more.len() == 0 {
        assert(before + more =~= before);
    } else {
        assert(after.drop_last() =~= before);
    }
}

/// More than ten steps are warned of, with their number; ten are not.
pub proof fn law_many_steps_are_reported(thread: Thread, r: Vec<TraceIssue>)
    requires
        call_ensures(analyze_trace, (&thread,), r),
    ensures
        thread.step_count <= 10 ==> reported(r, "excessive_steps"@).len() == 0,
        thread.step_count >= 11 ==> reported(r, "excessive_steps"@) == seq![
            (IssueView {
                severity: IssueSeverity::Warning,
                category: "excessive_steps"@,
                description: "Thread took "@ + decimal(thread.step_count as nat)
                    + " steps — may be stuck in a loop"@,
                step: None,
            }),
        ],
{
    lemma_categories(thread);
}

/// An answer in a single step without any executed action is noted, at that
/// step; nothing is where an action ran, where there were more steps or none,
/// or where the model said nothing.
pub proof fn law_answers_without_tools_are_noted(thread: Thread, r: Vec<TraceIssue>)
    requires
        call_ensures(analyze_trace, (&thread,), r),
    ensures
        ({
            let ran = exists|i: int|
                0 <= i < thread.events@.len() && (
                #[trigger] thread.events@[i]).kind is ActionExecuted;
            let said = exists|i: int|
                0 <= i < thread.messages@.len() && (#[trigger] thread.messages@[i]).role
                    == MessageRole::Assistant && thread.messages@[i].content@.len() > 0;
            &&& ran || !said || thread.step_count != 1 ==> reported(r, "no_tools_used"@).len() == 0
            &&& !ran && said && thread.step_count == 1 ==> reported(r, "no_tools_used"@) == seq![
                (IssueView {
                    severity: IssueSeverity::Info,
                    category: "no_tools_used"@,
                    description:
                        "Model answered in one step without using any tools — may be answering from training data"@,
                    step: Some(1),
                }),
            ]
        }),
{
    lemma_categories(thread);
}

/// Of the messages just the assistant's without a code block and without
/// `FINAL(` count as texts without code.
pub proof fn law_texts_without_code_are_counted(messages: Seq<ThreadMessage>, m: ThreadMessage)
    ensures
        texts_without_code(Seq::<ThreadMessage>::empty()) == 0,
        m.role != MessageRole::Assistant ==> texts_without_code(messages.push(m))
            == texts_without_code(messages),
        has_text(m.content@, "```"@) ==> texts_without_code(messages.push(m))
            == texts_without_code(messages),
        has_text(m.content@, "FINAL("@) ==> texts_without_code(messages.push(m))
            == texts_without_code(messages),
        m.role == MessageRole::Assistant && !has_text(m.content@, "```"@) && !has_text(
            m.content@,
            "FINAL("@,
        ) ==> texts_without_code(messages.push(m)) == texts_without_code(messages) + 1,
{
    assert(messages.push(m).drop_last() =~= messages);
}

/// Texts without code are noted where a step was started beside them, with how
/// many there are.
pub proof fn law_mixed_answers_are_noted(thread: Thread, r: Vec<TraceIssue>)
    requires
        call_ensures(analyze_trace, (&thread,), r),
    ensures
        ({
            let started = exists|i: int|
                0 <= i < thread.events@.len() && (#[trigger] thread.events@[i]).kind is StepStarted;
            let count = texts_without_code(thread.messages@);
            &&& !started || count == 0 ==> reported(r, "mixed_mode"@).len() == 0
            &&& started && count > 0 ==> reported(r, "mixed_mode"@) == seq![
                (IssueView {
                    severity: IssueSeverity::Info,
                    category: "mixed_mode"@,
                    description: decimal(count)
                        + " text response(s) without code blocks — model may not be following CodeAct prompt"@,
                    step: None,
                }),
            ]
        }),
{
    lemma_categories(thread);
}

/// A change to the failed state is reported by its reason, cut to 300
/// characters: as the provider's fault where it names an LLM or a provider, else
/// as the orchestrator's where it names that. Any other event, a change to
/// another state and a failure without such a reason add nothing.
pub proof fn law_failure_reasons_are_reported(
    a: Thread,
    b: Thread,
    e: ThreadEvent,
    x: Vec<TraceIssue>,
    y: Vec<TraceIssue>,
)
    requires
        call_ensures(analyze_trace, (&a,), x),
        call_ensures(analyze_trace, (&b,), y),
        b.events@ == a.events@.push(e),
    ensures
        a.events@.len() == 0 ==> reported(x, "llm_error"@).len() == 0 && reported(
            x,
            "orchestrator_error"@,
        ).len() == 0,
        (match e.kind {
            EventKind::StateChanged { to: ThreadState::Failed, reason: Some(why), .. } => {
                let shown = if why@.len() <= 300 {
                    why@
                } else {
                    why@.take(300) + "..."@
                };
                let provider = has_text(why@, "LLM"@) || has_text(why@, "Provider"@);
                &&& provider ==> reported(y, "llm_error"@) == reported(x, "llm_error"@).push(
                    (IssueView {
                        severity: IssueSeverity::Error,
                        category: "llm_error"@,
                        description: "LLM provider error: "@ + shown,
                        step: None,
                    }),
                )
                &&& !provider ==> reported(y, "llm_error"@) == reported(x, "llm_error"@)
                &&& !provider && has_text(why@, "orchestrator"@) ==> reported(
                    y,
                    "orchestrator_error"@,
                ) == reported(x, "orchestrator_error"@).push(
                    (IssueView {
                        severity: IssueSeverity::Error,
                        category: "orchestrator_error"@,
                        description: "Orchestrator error: "@ + shown,
                        step: None,
                    }),
                )
                &&& provider || !has_text(why@, "orchestrator"@) ==> reported(
                    y,
                    "orchestrator_error"@,
                ) == reported(x, "orchestrator_error"@)
            },
            _ => reported(y, "llm_error"@) == reported(x, "llm_error"@) && reported(
                y,
                "orchestrator_error"@,
            ) == reported(x, "orchestrator_error"@),
        }),
{
    lemma_categories(a);
    lemma_categories(b);
    lemma_categories_differ();
    assert(b.events@.drop_last() =~= a.events@);
    let more = failure_reason_of(e);
    let rest = failure_reason_issues(a.events@);
    lemma_category_of_more(rest, more, "llm_error"@);
    lemma_category_of_more(rest, more, "orchestrator_error"@);
    if more.len() == 1 {
        assert(more.drop_last() =~= seq![]);
        assert(of_category(more.drop_last(), "llm_error"@) == Seq::<IssueView>::empty());
        assert(of_category(more.drop_last(), "orchestrator_error"@) == Seq::<IssueView>::empty());
    }
    assert(more.len() <= 1);
    let l = reported(x, "llm_error"@);
    let o = reported(x, "orchestrator_error"@);
    assert(reported(y, "llm_error"@) == l + of_category(more, "llm_error"@));
    assert(reported(y, "orchestrator_error"@) == o + of_category(more, "orchestrator_error"@));
    if more.len() == 1 && more[0].category == "llm_error"@ {
        assert(of_category(more, "llm_error"@) =~= seq![more[0]]);
        assert(l + seq![more[0]] =~= l.push(more[0]));
        assert(o + Seq::<IssueView>::empty() =~= o);
    } else if more.len() == 1 {
        assert(of_category(more, "orchestrator_error"@) =~= seq![more[0]]);
        assert(o + seq![more[0]] =~= o.push(more[0]));
        assert(l + Seq::<IssueView>::empty() =~= l);
    } else {
        assert(l + Seq::<IssueView>::empty() =~= l);
        assert(o + Seq::<IssueView>::empty() =~= o);
    }
}

/// The place of a category in the order of the checks; 0 for none of theirs.
pub open spec fn check_order(category: Seq<char>) -> int {
    if category == "thread_failure"@ {
        1
    } else if category == "no_response"@ {
        2
    } else if category == "tool_error"@ {
        3
    } else if category == "code_error"@ {
        4
    } else if category == "empty_call_id"@ {
        5
    } else if category == "missing_tool_output"@ {
        6
    } else if category == "excessive_steps"@ {
        7
    } else if category == "no_tools_used"@ {
        8
    } else if category == "mixed_mode"@ {
        9
    } else if category == "llm_error"@ || category == "orchestrator_error"@ {
        10
    } else {
        0
    }
}

/// Nothing is reported but what the checks look for, and in their order.
pub proof fn law_issues_come_in_the_order_of_the_checks(
    thread: Thread,
    i: int,
    j: int,
    r: Vec<TraceIssue>,
)
    requires
        call_ensures(analyze_trace, (&thread,), r),
        0 <= i <= j < r@.len(),
    ensures
        1 <= check_order(r@[i].category@) <= check_order(r@[j].category@),
        r@[i].category@ != "missing_tool_output"@,
{
    lemma_categories_differ();
    lemma_tool_error_category(thread.events@);
    lemma_code_error_category(thread.messages@);
    lemma_call_id_category(thread.messages@);
    lemma_reason_category(thread.events@);
    law_tool_results_are_always_shown(thread);
    let views = issue_views(r@);
    assert(views[i] == r@[i]@ && views[j] == r@[j]@);
    let p1 = failure_issues(thread);
    let p2 = p1 + no_response_issues(thread);
    let p3 = p2 + tool_error_issues(thread.events@);
    let p4 = p3 + code_error_issues(thread.messages@);
    let p5 = p4 + call_id_issues(thread.messages@);
    let p6 = p5 + missing_output_issues(thread);
    let p7 = p6 + step_count_issues(thread);
    let p8 = p7 + no_tools_issues(thread);
    let p9 = p8 + mixed_mode_issues(thread);
    lemma_ordered(Seq::empty(), p1, 0, 1);
    assert(Seq::<IssueView>::empty() + p1 =~= p1);
    lemma_ordered(p1, no_response_issues(thread), 1, 2);
    lemma_ordered(p2, tool_error_issues(thread.events@), 2, 3);
    lemma_ordered(p3, code_error_issues(thread.messages@), 3, 4);
    lemma_ordered(p4, call_id_issues(thread.messages@), 4, 5);
    lemma_ordered(p5, missing_output_issues(thread), 5, 6);
    lemma_ordered(p6, step_count_issues(thread), 6, 7);
    lemma_ordered(p7, no_tools_issues(thread), 7, 8);
    lemma_ordered(p8, mixed_mode_issues(thread), 8, 9);
    lemma_ordered(p9, failure_reason_issues(thread.events@), 9, 10);
    if views[i].category == "missing_tool_output"@ {
        lemma_categories(thread);
        lemma_has_category(views, i);
    }
}

/// The issues are those of the first `last` checks, in order.
spec fn in_order(list: Seq<IssueView>, last: int) -> bool {
    forall|i: int, j: int|
        0 <= i <= j < list.len() ==> 1 <= check_order((#[trigger] list[i]).category)
            <= check_order((#[trigger] list[j]).category) <= last
}

proof fn lemma_ordered(list: Seq<IssueView>, more: Seq<IssueView>, before: int, order: int)
    requires
        in_order(list, before),
        before < order,
        forall|i: int|
            0 <= i < more.len() ==> check_order((#[trigger] more[i]).category) == order,
        0 <= before,
    ensures
        in_order(list + more, order),
{
    let all = list + more;
    assert forall|i: int, j: int| 0 <= i <= j < all.len() implies 1 <= check_order(
        (#[trigger] all[i]).category,
    ) <= check_order((#[trigger] all[j]).category) <= order by {
        if i < list.len() {
            assert(all[i] == list[i]);
        } else {
            assert(all[i] == more[i - list.len()]);
        }
        if j < list.len() {
            assert(all[j] == list[j]);
        } else {
            assert(all[j] == more[j - list.len()]);
        }
        if i < list.len() && j >= list.len() {
            assert(1 <= check_order(list[i].category) <= check_order(list[i].category) <= before);
        }
    }
}

proof fn lemma_has_category(list: Seq<IssueView>, i: int)
    requires
        0 <= i < list.len(),
    ensures
        of_category(list, list[i].category).len() > 0,
    decreases list.len(),
{
    if i < list.len() - 1 {
        assert(list.drop_last()[i] == list[i]);
        lemma_has_category(list.drop_last(), i);
    }
}

/// Cutting keeps a text that is short enough as it is, and of any other its
/// beginning and a mark.
pub proof fn law_cut_texts(s: &str, max: usize, r: String)
    requires
        call_ensures(truncate, (s, max), r),
    ensures
        s@.len() <= max ==> r@ == s@,
        s@.len() > max ==> r@ == s@.take(max as int) + "..."@,
{
}

/// Tracing is on for `1` and for `true`, and for nothing else.
pub proof fn law_trace_switch(value: &str, on: bool, unset: bool)
    requires
        call_ensures(is_trace_enabled, (Some(value),), on),
        call_ensures(is_trace_enabled, (None::<&str>,), unset),
    ensures
        on <==> value@ == seq!['1'] || value@ == seq!['t', 'r', 'u', 'e'],
        !unset,
{
    reveal_strlit("1");
    reveal_strlit("true");
    assert("1"@ =~= seq!['1']);
    assert("true"@ =~= seq!['t', 'r', 'u', 'e']);
}

/// A trace holds what the thread does, every message in full and every event,
/// the issues that the analysis finds, and no reflection yet.
pub proof fn law_traces_hold_the_thread(
    thread: Thread,
    at: Timestamp,
    i: int,
    role: &'static str,
    issues: Vec<TraceIssue>,
    r: ExecutionTrace,
)
    requires
        call_ensures(build_trace_at, (&thread, at), r),
        call_ensures(analyze_trace, (&thread,), issues),
        0 <= i < thread.messages@.len(),
        call_ensures(MessageRole::name, (&thread.messages@[i].role,), role),
    ensures
        r.thread_id == thread.id,
        r.goal@ == thread.goal@,
        r.final_state == thread.state,
        r.step_count == thread.step_count,
        r.total_tokens == thread.total_tokens_used,
        r.timestamp == at,
        r.reflection is None,
        r.messages@.len() == thread.messages@.len(),
        ({
            let kept = r.messages@[i];
            let m = thread.messages@[i];
            &&& kept.role@ == role@
            &&& kept.full_content@ == m.content@
            &&& kept.content_length == m.content@.len()
            &&& m.content@.len() <= 300 ==> kept.content_preview@ == m.content@
            &&& m.content@.len() > 300 ==> kept.content_preview@ == m.content@.take(300) + "..."@
            &&& opt_text(kept.action_name) == opt_text(m.action_name)
            &&& opt_text(kept.action_call_id) == opt_text(m.action_call_id)
        }),
        r.events@.len() == thread.events@.len(),
        forall|k: int|
            0 <= k < thread.events@.len() ==> (#[trigger] r.events@[k]).kind@
                == thread.events@[k].kind@ && r.events@[k].thread_id == thread.events@[k].thread_id
                && r.events@[k].timestamp == thread.events@[k].timestamp,
        issue_views(r.issues@) == issue_views(issues@),
{
    let views = record_views(r.messages@);
    assert(views.len() == r.messages@.len());
    assert(views[i] == r.messages@[i]@);
    assert(event_views(r.events@).len() == r.events@.len());
    assert(event_views(thread.events@).len() == thread.events@.len());
    assert forall|k: int| 0 <= k < thread.events@.len() implies (
    #[trigger] r.events@[k]).kind@ == thread.events@[k].kind@ && r.events@[k].thread_id
        == thread.events@[k].thread_id && r.events@[k].timestamp == thread.events@[k].timestamp by {
        assert(event_views(r.events@)[k] == r.events@[k]@);
        assert(event_views(thread.events@)[k] == thread.events@[k]@);
    }
}

/// Reflection is put into a trace doc by doc, with all of its tokens, and
/// changes nothing else there.
pub proof fn law_reflection_is_attached(
    trace: &mut ExecutionTrace,
    result: ReflectionResult,
    i: int,
    name: &'static str,
)
    requires
        call_ensures(attach_reflection, (trace, &result), ()),
        result.tokens_used.input_tokens + result.tokens_used.output_tokens <= u64::MAX,
        0 <= i < result.docs@.len(),
        call_ensures(DocType::name, (&result.docs@[i].doc_type,), name),
    ensures
        final(trace).reflection matches Some(kept) && kept.docs@.len() == result.docs@.len()
            && kept.docs@[i].doc_type@ == name@ && kept.docs@[i].title@ == result.docs@[i].title@
            && kept.docs@[i].content@ == result.docs@[i].content@ && kept.tokens_used
            == result.tokens_used.input_tokens + result.tokens_used.output_tokens,
        final(trace).thread_id == old(trace).thread_id,
        final(trace).goal@ == old(trace).goal@,
        final(trace).final_state == old(trace).final_state,
        final(trace).step_count == old(trace).step_count,
        final(trace).total_tokens == old(trace).total_tokens,
        final(trace).timestamp == old(trace).timestamp,
        issue_views(final(trace).issues@) == issue_views(old(trace).issues@),
        record_views(final(trace).messages@) == record_views(old(trace).messages@),
        event_views(final(trace).events@) == event_views(old(trace).events@),
{
    let kept = final(trace)@.reflection->0;
    assert(final(trace).reflection is Some);
    let docs = final(trace).reflection->0.docs@;
    assert(kept.docs == doc_record_views(docs));
    assert(kept.docs.len() == result.docs@.len());
    assert(doc_record_views(docs)[i] == docs[i]@);
}

/// A summary opens with the thread and its counts. Then comes a line for each
/// issue, loud for errors and warnings and quiet for notes, with a word that
/// tells which it is. Where there was a reflection it follows, a line for its
/// counts and one for each doc.
pub proof fn law_summaries_tell_everything(
    trace: ExecutionTrace,
    i: int,
    k: int,
    r: Vec<SummaryLine>,
)
    requires
        call_ensures(log_trace_summary, (&trace,), r),
    ensures
        r@.len() == 1 + trace.issues@.len() + (match trace.reflection {
            Some(kept) => 1 + kept.docs@.len() as int,
            None => 0int,
        }),
        r@[0] matches SummaryLine::Head {
            thread_id,
            goal,
            state,
            steps,
            tokens,
            messages,
            events,
            issues,
        } && thread_id@ == id_form(trace.thread_id.0) && goal@ == trace.goal@ && state
            == trace.final_state && steps == trace.step_count && tokens == trace.total_tokens
            && messages == trace.messages@.len() && events == trace.events@.len() && issues
            == trace.issues@.len(),
        0 <= i < trace.issues@.len() ==> (r@[1 + i] matches SummaryLine::Issue {
            level,
            category,
            step,
            message,
        } && {
            let issue = trace.issues@[i];
            &&& category@ == issue.category@
            &&& step == issue.step
            &&& level == LogLevel::Debug <==> issue.severity == IssueSeverity::Info
            &&& issue.severity == IssueSeverity::Error ==> message@ == "ISSUE: "@
                + issue.description@
            &&& issue.severity == IssueSeverity::Warning ==> message@ == "WARNING: "@
                + issue.description@
            &&& issue.severity == IssueSeverity::Info ==> message@ == "NOTE: "@
                + issue.description@
        }),
        trace.reflection matches Some(kept) ==> (
        r@[1 + trace.issues@.len() as int] matches SummaryLine::Reflection { thread_id, docs, tokens }
            && thread_id@ == id_form(trace.thread_id.0) && docs == kept.docs@.len() && tokens
            == kept.tokens_used),
        trace.reflection matches Some(kept) ==> 0 <= k < kept.docs@.len() ==> (
        r@[2 + trace.issues@.len() as int + k] matches SummaryLine::Doc { doc_type, title, message } && {
            let doc = kept.docs@[k];
            &&& doc_type@ == doc.doc_type@
            &&& title@ == doc.title@
            &&& doc.content@.len() <= 200 ==> message@ == "  "@ + doc.content@
            &&& doc.content@.len() > 200 ==> message@ == "  "@ + (doc.content@.take(200)
                + "..."@)
        }),
{
    let views = line_views(r@);
    let n = trace.issues@.len() as int;
    assert(views.len() == r@.len());
    assert(trace@.messages.len() == trace.messages@.len());
    assert(trace@.events.len() == trace.events@.len());
    assert(trace@.issues.len() == trace.issues@.len());
    assert(views[0] == r@[0]@);
    if 0 <= i < n {
        assert(views[1 + i] == r@[1 + i]@);
        assert(trace@.issues[i] == trace.issues@[i]@);
        assert(views[1 + i] == issue_line(trace.issues@[i]@));
    }
    if trace.reflection is Some {
        let kept = trace.reflection->0;
        assert(views[1 + n] == r@[1 + n]@);
        assert(kept@.docs.len() == kept.docs@.len());
        if 0 <= k < kept.docs@.len() {
            assert(views[2 + n + k] == r@[2 + n + k]@);
            assert(kept@.docs[k] == kept.docs@[k]@);
            assert(views[2 + n + k] == doc_line(kept.docs@[k]@));
        }
    }
}

/// The file of a trace is named after the time at which it was written.
pub proof fn law_trace_files_have_names(at: Timestamp, r: String)
    requires
        call_ensures(trace_filename, (at,), r),
    ensures
        r@ == "engine_trace_"@ + compact_of(at.secs, at.nanos) + ".json"@,
{
}

/// A trace that is built now is one that is built at some time of the calendar,
/// of the same thread.
pub proof fn law_traces_are_built_now(thread: Thread, r: ExecutionTrace)
    requires
        call_ensures(build_trace, (&thread,), r),
    ensures
        r.timestamp.valid(),
        r.thread_id == thread.id && r.goal@ == thread.goal@,
{
    assert(r@.goal == r.goal@ && r@.thread_id == r.thread_id);
}

} // verus!
