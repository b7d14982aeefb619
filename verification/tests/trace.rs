use ironclaw::engine::reflection::pipeline::ReflectionResult;
use ironclaw::engine::trace::{
    analyze_trace, attach_reflection, build_trace, build_trace_at, is_trace_enabled,
    log_trace_summary, trace_filename, truncate, IssueSeverity, LogLevel, SummaryLine, TraceIssue,
};
use ironclaw::engine::types::{
    DocType, EventKind, MemoryDoc, MessageRole, ProjectId, StepId, Thread, ThreadEvent, ThreadId,
    ThreadMessage, ThreadState, TokenUsage,
};
use ironclaw::time::Timestamp;

const AT: Timestamp = Timestamp { secs: 1_700_000_000, nanos: 5 };

fn message(role: MessageRole, content: &str) -> ThreadMessage {
    ThreadMessage { role, content: content.to_string(), action_call_id: None, action_name: None }
}

fn event(kind: EventKind) -> ThreadEvent {
    ThreadEvent { thread_id: ThreadId(1), timestamp: AT, kind }
}

fn thread(
    state: ThreadState,
    steps: usize,
    messages: Vec<ThreadMessage>,
    events: Vec<EventKind>,
) -> Thread {
    Thread {
        id: ThreadId(0xa1a2a3a4b1b2c1c2d1d2d3d4d5d6d7d8),
        project_id: ProjectId(2),
        goal: "test goal".to_string(),
        state,
        step_count: steps,
        total_tokens_used: 99,
        messages,
        events: events.into_iter().map(event).collect(),
    }
}

fn categories(issues: &[TraceIssue]) -> Vec<&str> {
    issues.iter().map(|i| i.category.as_str()).collect()
}

fn started() -> EventKind {
    EventKind::StepStarted { step_id: StepId(1) }
}

fn executed() -> EventKind {
    EventKind::ActionExecuted {
        step_id: StepId(1),
        action_name: "echo".to_string(),
        call_id: "c1".to_string(),
        duration_ms: 5,
    }
}

fn failed_to(reason: &str) -> EventKind {
    EventKind::StateChanged {
        from: ThreadState::Running,
        to: ThreadState::Failed,
        reason: Some(reason.to_string()),
    }
}

#[test]
fn clean_thread_has_no_issues() {
    let t = thread(
        ThreadState::Done,
        2,
        vec![message(MessageRole::User, "hi"), message(MessageRole::Assistant, "```repl\nx```")],
        vec![started(), executed()],
    );
    assert!(analyze_trace(&t).is_empty());
}

#[test]
fn failed_thread_is_reported_first() {
    let t = thread(ThreadState::Failed, 0, vec![], vec![]);
    let issues = analyze_trace(&t);
    assert_eq!(categories(&issues), vec!["thread_failure", "no_response"]);
    assert_eq!(issues[0].severity, IssueSeverity::Error);
    assert_eq!(issues[0].description, "Thread ended in Failed state");
    assert_eq!(
        issues[1].description,
        "No assistant message in thread — model may not have generated output"
    );
}

#[test]
fn tool_errors_are_listed_in_order() {
    let fail = |name: &str, error: &str| EventKind::ActionFailed {
        step_id: StepId(1),
        action_name: name.to_string(),
        call_id: "c".to_string(),
        error: error.to_string(),
    };
    let t = thread(
        ThreadState::Done,
        2,
        vec![message(MessageRole::Assistant, "FINAL(1)")],
        vec![fail("a", "boom"), executed(), fail("b", "bang")],
    );
    let issues = analyze_trace(&t);
    assert_eq!(categories(&issues), vec!["tool_error", "tool_error"]);
    assert_eq!(issues[0].description, "Tool 'a' failed: boom");
    assert_eq!(issues[1].description, "Tool 'b' failed: bang");
    assert_eq!(issues[0].severity, IssueSeverity::Warning);
}

#[test]
fn code_errors_only_in_code_output() {
    let long = format!("[stderr] NameError {}", "x".repeat(300));
    let t = thread(
        ThreadState::Done,
        2,
        vec![
            message(MessageRole::System, "[stdout] NameError"),
            message(MessageRole::User, "I saw a NameError"),
            message(MessageRole::User, "Traceback: TypeError: bad"),
            message(MessageRole::User, "[stdout] fine"),
            message(MessageRole::User, &long),
            message(MessageRole::Assistant, "```"),
        ],
        vec![executed()],
    );
    let issues = analyze_trace(&t);
    assert_eq!(categories(&issues), vec!["code_error", "code_error"]);
    assert_eq!(
        issues[0].description,
        "Code execution error in message 2: Traceback: TypeError: bad"
    );
    let preview: String = long.chars().take(200).collect();
    assert_eq!(issues[1].description, format!("Code execution error in message 4: {preview}"));
}

#[test]
fn action_results_need_a_call_id() {
    let mut with_empty = message(MessageRole::ActionResult, "r");
    with_empty.action_call_id = Some(String::new());
    with_empty.action_name = Some("echo".to_string());
    let mut good = message(MessageRole::ActionResult, "r");
    good.action_call_id = Some("c1".to_string());
    let t = thread(
        ThreadState::Done,
        2,
        vec![good, with_empty, message(MessageRole::ActionResult, "x"), message(MessageRole::Assistant, "```")],
        vec![executed()],
    );
    let issues = analyze_trace(&t);
    assert_eq!(categories(&issues), vec!["empty_call_id", "empty_call_id"]);
    assert_eq!(
        issues[0].description,
        "ActionResult message 1 (tool 'echo') has empty call_id — will cause LLM API rejection"
    );
    assert_eq!(
        issues[1].description,
        "ActionResult message 2 (tool 'unknown') has empty call_id — will cause LLM API rejection"
    );
    assert_eq!(issues[1].severity, IssueSeverity::Error);
}

#[test]
fn tool_results_count_as_shown() {
    let mut result = message(MessageRole::ActionResult, "r");
    result.action_call_id = Some("c1".to_string());
    let t = thread(
        ThreadState::Done,
        2,
        vec![result, message(MessageRole::Assistant, "```")],
        vec![executed()],
    );
    assert!(analyze_trace(&t).is_empty());
}

#[test]
fn step_counts_and_tool_use() {
    let many = thread(ThreadState::Done, 11, vec![message(MessageRole::Assistant, "```")], vec![]);
    let issues = analyze_trace(&many);
    assert_eq!(categories(&issues), vec!["excessive_steps"]);
    assert_eq!(issues[0].description, "Thread took 11 steps — may be stuck in a loop");
    let ten = thread(ThreadState::Done, 10, vec![message(MessageRole::Assistant, "```")], vec![]);
    assert!(analyze_trace(&ten).is_empty());
    let one = thread(ThreadState::Done, 1, vec![message(MessageRole::Assistant, "```")], vec![]);
    let issues = analyze_trace(&one);
    assert_eq!(categories(&issues), vec!["no_tools_used"]);
    assert_eq!(issues[0].severity, IssueSeverity::Info);
    assert_eq!(issues[0].step, Some(1));
}

#[test]
fn mixed_mode_is_counted() {
    let t = thread(
        ThreadState::Done,
        3,
        vec![
            message(MessageRole::Assistant, "just text"),
            message(MessageRole::Assistant, "```code```"),
            message(MessageRole::Assistant, "more text"),
            message(MessageRole::Assistant, "FINAL(x)"),
        ],
        vec![started(), executed()],
    );
    let issues = analyze_trace(&t);
    assert_eq!(categories(&issues), vec!["mixed_mode"]);
    assert_eq!(
        issues[0].description,
        "2 text response(s) without code blocks — model may not be following CodeAct prompt"
    );
}

#[test]
fn failure_reasons_are_classified() {
    let long = format!("orchestrator {}", "y".repeat(400));
    let t = thread(
        ThreadState::Done,
        3,
        vec![message(MessageRole::Assistant, "```")],
        vec![
            failed_to("LLM down"),
            failed_to("Provider and orchestrator"),
            failed_to(&long),
            failed_to("something else"),
            EventKind::StateChanged {
                from: ThreadState::Running,
                to: ThreadState::Done,
                reason: Some("LLM".to_string()),
            },
            EventKind::StateChanged {
                from: ThreadState::Running,
                to: ThreadState::Failed,
                reason: None,
            },
        ],
    );
    let issues = analyze_trace(&t);
    assert_eq!(categories(&issues), vec!["llm_error", "llm_error", "orchestrator_error"]);
    assert_eq!(issues[0].description, "LLM provider error: LLM down");
    let cut: String = long.chars().take(300).collect();
    assert_eq!(issues[2].description, format!("Orchestrator error: {cut}..."));
}

#[test]
fn truncation_counts_characters() {
    assert_eq!(truncate("héllo", 5), "héllo");
    assert_eq!(truncate("héllo", 4), "héll...");
    assert_eq!(truncate("", 0), "");
}

#[test]
fn trace_switch() {
    assert!(is_trace_enabled(Some("1")));
    assert!(is_trace_enabled(Some("true")));
    assert!(!is_trace_enabled(Some("TRUE")));
    assert!(!is_trace_enabled(Some("0")));
    assert!(!is_trace_enabled(None));
}

fn sample() -> Thread {
    let mut m = message(MessageRole::ActionResult, &"é".repeat(301));
    m.action_call_id = Some("c1".to_string());
    m.action_name = Some("echo".to_string());
    thread(ThreadState::Failed, 2, vec![m, message(MessageRole::Assistant, "```")], vec![started(), executed()])
}

#[test]
fn trace_of_a_thread() {
    let t = sample();
    let trace = build_trace_at(&t, AT);
    assert_eq!(trace.thread_id, t.id);
    assert_eq!(trace.goal, "test goal");
    assert_eq!(trace.final_state, ThreadState::Failed);
    assert_eq!(trace.step_count, 2);
    assert_eq!(trace.total_tokens, 99);
    assert_eq!(trace.timestamp, AT);
    assert!(trace.reflection.is_none());
    assert_eq!(trace.events.len(), 2);
    assert_eq!(trace.issues.len(), 1);
    let m = &trace.messages[0];
    assert_eq!(m.role, "ActionResult");
    assert_eq!(m.content_length, 301);
    assert_eq!(m.content_preview, format!("{}...", "é".repeat(300)));
    assert_eq!(m.full_content, "é".repeat(301));
    assert_eq!(m.action_name.as_deref(), Some("echo"));
    assert_eq!(m.action_call_id.as_deref(), Some("c1"));
    assert!(build_trace(&t).timestamp.is_valid());
}

#[test]
fn trace_file_names() {
    assert_eq!(trace_filename(AT), "engine_trace_20231114T221320.json");
}

#[test]
fn reflection_is_attached_and_summed_up() {
    let mut trace = build_trace_at(&sample(), AT);
    let result = ReflectionResult {
        docs: vec![
            MemoryDoc::new(ProjectId(2), DocType::Lesson, "t".to_string(), "c".repeat(201)),
            MemoryDoc::new(ProjectId(2), DocType::Note, "n".to_string(), "short".to_string()),
        ],
        tokens_used: TokenUsage { input_tokens: 3, output_tokens: 4 },
    };
    attach_reflection(&mut trace, &result);
    let refl = trace.reflection.as_ref().expect("attached");
    assert_eq!(refl.tokens_used, 7);
    assert_eq!(refl.docs[0].doc_type, "Lesson");
    let lines = log_trace_summary(&trace);
    assert_eq!(lines.len(), 5);
    match &lines[0] {
        SummaryLine::Head { thread_id, goal, state, steps, tokens, messages, events, issues } => {
            assert_eq!(thread_id, "a1a2a3a4-b1b2-c1c2-d1d2-d3d4d5d6d7d8");
            assert_eq!(goal, "test goal");
            assert_eq!(*state, ThreadState::Failed);
            assert_eq!((*steps, *tokens, *messages, *events, *issues), (2, 99, 2, 2, 1));
        }
        _ => panic!("expected the head"),
    }
    match &lines[1] {
        SummaryLine::Issue { level, category, step, message } => {
            assert_eq!(*level, LogLevel::Warn);
            assert_eq!(category, "thread_failure");
            assert_eq!(*step, None);
            assert_eq!(message, "ISSUE: Thread ended in Failed state");
        }
        _ => panic!("expected an issue"),
    }
    match &lines[2] {
        SummaryLine::Reflection { docs, tokens, .. } => assert_eq!((*docs, *tokens), (2, 7)),
        _ => panic!("expected the reflection"),
    }
    match &lines[3] {
        SummaryLine::Doc { doc_type, title, message } => {
            assert_eq!(doc_type, "Lesson");
            assert_eq!(title, "t");
            assert_eq!(*message, format!("  {}...", "c".repeat(200)));
        }
        _ => panic!("expected a doc"),
    }
    match &lines[4] {
        SummaryLine::Doc { message, .. } => assert_eq!(message, "  short"),
        _ => panic!("expected a doc"),
    }
}

#[test]
fn notes_are_quiet() {
    let t = thread(ThreadState::Done, 1, vec![message(MessageRole::Assistant, "```")], vec![]);
    let lines = log_trace_summary(&build_trace_at(&t, AT));
    match &lines[1] {
        SummaryLine::Issue { level, step, message, .. } => {
            assert_eq!(*level, LogLevel::Debug);
            assert_eq!(*step, Some(1));
            assert!(message.starts_with("NOTE: Model answered in one step"));
        }
        _ => panic!("expected a note"),
    }
}
