use ironclaw::engine::reflection::executor::{
    build_reflection_prompt, Capability, CapabilityRegistry, ReflectionExecutor, ReflectionStep,
};
use ironclaw::engine::reflection::pipeline::{
    build_transcript, doc_request, produce_doc, reflect, ISSUE_PROMPT, LESSON_PROMPT,
    SPEC_PROMPT, SUMMARY_PROMPT,
};
use ironclaw::engine::types::{
    ActionDef, DocType, EffectType, EngineError, EventKind, LlmOutput, LlmResponse, MemoryDoc,
    MessageRole, ProjectId, StepId, Thread, ThreadEvent, ThreadId, ThreadMessage, ThreadState,
    TokenUsage,
};
use ironclaw::json::{put_entry, render, JsonValue, Number};
use ironclaw::time::{Duration, Timestamp};

fn text(s: &str) -> JsonValue {
    JsonValue::Str(s.to_string())
}

fn object(pairs: Vec<(&str, JsonValue)>) -> JsonValue {
    let mut entries: Vec<(String, JsonValue)> = Vec::new();
    for (k, v) in pairs {
        put_entry(&mut entries, k.to_string(), v);
    }
    JsonValue::Object(entries)
}

fn make_action_def(name: &str) -> ActionDef {
    ActionDef {
        name: name.to_string(),
        description: format!("{name} action"),
        parameters_schema: object(vec![("type", text("object")), ("properties", object(vec![]))]),
        effects: vec![EffectType::ReadLocal],
        requires_approval: false,
    }
}

fn make_capability(name: &str, actions: Vec<ActionDef>) -> Capability {
    Capability { name: name.to_string(), description: format!("{name} capability"), actions }
}

fn executor(registry: CapabilityRegistry, transcript: &str) -> ReflectionExecutor<()> {
    ReflectionExecutor::new((), registry, transcript.to_string(), ProjectId(1))
}

fn answer(step: ReflectionStep) -> JsonValue {
    match step {
        ReflectionStep::Answer(v) => v,
        _ => panic!("expected an answer"),
    }
}

#[test]
fn get_transcript_returns_content() {
    let transcript = "Step 1: called web_search\nStep 2: got results\nDone.";
    let e = executor(CapabilityRegistry::new(), transcript);
    let output = answer(e.execute_action("get_transcript", &object(vec![])));
    let result = ReflectionExecutor::<()>::result("get_transcript", output, Duration::zero());
    assert_eq!(result.action_name, "get_transcript");
    assert!(!result.is_error);
    assert_eq!(result.output.get("transcript").and_then(|v| v.as_str()), Some(transcript));
    assert_eq!(result.call_id, "");
}

#[test]
fn query_memory_finds_docs() {
    let e = executor(CapabilityRegistry::new(), "");
    let params = object(vec![
        ("query", text("deployment error")),
        ("max_docs", JsonValue::Number(Number::PosInt(5))),
    ]);
    match e.execute_action("query_memory", &params) {
        ReflectionStep::Retrieve { query, max_docs } => {
            assert_eq!(query, "deployment error");
            assert_eq!(max_docs, 5);
        }
        _ => panic!("expected a search"),
    }
    let docs = vec![
        MemoryDoc::new(
            ProjectId(1),
            DocType::Lesson,
            "deployment error".to_string(),
            "Fix: restart the service".to_string(),
        ),
        MemoryDoc::new(
            ProjectId(1),
            DocType::Summary,
            "weather check".to_string(),
            "Fetched weather data".to_string(),
        ),
    ];
    let output = ReflectionExecutor::<()>::docs_output(&docs);
    let result = ReflectionExecutor::<()>::result("query_memory", output, Duration::zero());
    assert!(!result.is_error);
    let found = match result.output.get("docs") {
        Some(JsonValue::Array(found)) => found,
        _ => panic!("expected docs"),
    };
    assert!(found.iter().any(|d| {
        d.get("title").and_then(|t| t.as_str()).expect("a title").contains("deployment")
    }));
    assert_eq!(
        render(&result.output),
        "{\"count\":2,\"docs\":[{\"content\":\"Fix: restart the service\",\"title\":\"deployment error\",\"type\":\"Lesson\"},{\"content\":\"Fetched weather data\",\"title\":\"weather check\",\"type\":\"Summary\"}]}"
    );
}

#[test]
fn query_memory_limits() {
    let e = executor(CapabilityRegistry::new(), "");
    let params = object(vec![
        ("query", text("deployment error")),
        ("max_docs", JsonValue::Number(Number::PosInt(7))),
    ]);
    match e.execute_action("query_memory", &params) {
        ReflectionStep::Retrieve { query, max_docs } => {
            assert_eq!(query, "deployment error");
            assert_eq!(max_docs, 7);
        }
        _ => panic!("expected a search"),
    }
    match e.execute_action("query_memory", &JsonValue::Null) {
        ReflectionStep::Retrieve { query, max_docs } => {
            assert_eq!(query, "");
            assert_eq!(max_docs, 5);
        }
        _ => panic!("expected a search"),
    }
}

#[test]
fn check_tool_exists_found() {
    let mut registry = CapabilityRegistry::new();
    registry.register(make_capability("search", vec![make_action_def("web-search")]));
    let e = executor(registry, "");
    let output = answer(e.execute_action("check_tool_exists", &object(vec![("name", text("web-search"))])));
    assert_eq!(render(&output), "{\"exists\":true,\"similar\":[]}");
}

#[test]
fn check_tool_exists_not_found_suggests_similar() {
    let mut registry = CapabilityRegistry::new();
    registry.register(make_capability(
        "search",
        vec![make_action_def("web-search"), make_action_def("read-file")],
    ));
    let e = executor(registry, "");
    let output = answer(e.execute_action("check_tool_exists", &object(vec![("name", text("web_search"))])));
    assert_eq!(render(&output), "{\"exists\":false,\"similar\":[\"web-search\"]}");
    let output = answer(e.execute_action("check_tool_exists", &object(vec![("name", text("FILE"))])));
    assert_eq!(render(&output), "{\"exists\":false,\"similar\":[\"read-file\"]}");
    let output = answer(e.execute_action("check_tool_exists", &object(vec![("name", text("my-READ-FILE-tool"))])));
    assert_eq!(render(&output), "{\"exists\":false,\"similar\":[\"read-file\"]}");
    let output = answer(e.execute_action("check_tool_exists", &object(vec![])));
    assert_eq!(render(&output), "{\"exists\":false,\"similar\":[\"web-search\",\"read-file\"]}");
}

#[test]
fn list_tools_returns_all() {
    let mut registry = CapabilityRegistry::new();
    registry.register(make_capability(
        "search",
        vec![make_action_def("web-search"), make_action_def("memory-search")],
    ));
    registry.register(make_capability("files", vec![make_action_def("read-file")]));
    let e = executor(registry, "");
    let output = answer(e.execute_action("list_tools", &object(vec![])));
    assert_eq!(output.get("count").and_then(|v| v.as_u64()), Some(3));
    assert_eq!(
        render(&output),
        "{\"count\":3,\"tools\":[{\"description\":\"web-search action\",\"name\":\"web-search\"},{\"description\":\"memory-search action\",\"name\":\"memory-search\"},{\"description\":\"read-file action\",\"name\":\"read-file\"}]}"
    );
}

#[test]
fn unknown_action_fails() {
    let e = executor(CapabilityRegistry::new(), "");
    match e.execute_action("launch", &object(vec![])) {
        ReflectionStep::Fail(EngineError::Effect { reason }) => {
            assert_eq!(reason, "unknown reflection action: launch")
        }
        _ => panic!("expected a failure"),
    }
    assert_eq!(e.project_id(), ProjectId(1));
}

#[test]
fn every_offered_tool_is_known() {
    let e = executor(CapabilityRegistry::new(), "");
    let defs = e.available_actions();
    let names: Vec<&str> = defs.iter().map(|d| d.name.as_str()).collect();
    assert_eq!(names, vec!["get_transcript", "query_memory", "check_tool_exists", "list_tools"]);
    for d in &defs {
        assert_eq!(d.effects, vec![EffectType::ReadLocal]);
        assert!(!d.requires_approval);
        assert!(!matches!(e.execute_action(&d.name, &object(vec![])), ReflectionStep::Fail(_)));
    }
    assert_eq!(
        render(&defs[1].parameters_schema),
        "{\"properties\":{\"max_docs\":{\"description\":\"Max results (default 5)\",\"type\":\"integer\"},\"query\":{\"description\":\"Search query\",\"type\":\"string\"}},\"required\":[\"query\"],\"type\":\"object\"}"
    );
}

#[test]
fn build_reflection_prompt_includes_tools() {
    let actions = vec![
        ActionDef {
            name: "get_transcript".to_string(),
            description: "Get the execution transcript".to_string(),
            parameters_schema: object(vec![("type", text("object")), ("properties", object(vec![]))]),
            effects: vec![EffectType::ReadLocal],
            requires_approval: false,
        },
        ActionDef {
            name: "query_memory".to_string(),
            description: "Search memory docs".to_string(),
            parameters_schema: object(vec![
                ("type", text("object")),
                (
                    "properties",
                    object(vec![
                        ("query", object(vec![("type", text("string"))])),
                        ("max_docs", object(vec![("type", text("integer"))])),
                    ]),
                ),
            ]),
            effects: vec![EffectType::ReadLocal],
            requires_approval: false,
        },
    ];
    let prompt = build_reflection_prompt(&actions, "analyze deployment failure");
    assert!(prompt.contains("get_transcript"));
    assert!(prompt.contains("query_memory"));
    assert!(prompt.contains("analyze deployment failure"));
    assert!(prompt.contains("Available tools"));
    assert!(prompt.contains("- `get_transcript()` — Get the execution transcript\n"));
    assert!(prompt.contains("- `query_memory(max_docs, query)` — Search memory docs\n"));
    assert!(prompt.starts_with("You are analyzing a completed agent thread to extract"));
    assert!(prompt.ends_with("a few sentences, not paragraphs"));
}

fn thread(state: ThreadState, messages: Vec<ThreadMessage>, kinds: Vec<EventKind>) -> Thread {
    Thread {
        id: ThreadId(5),
        project_id: ProjectId(6),
        goal: "deploy".to_string(),
        state,
        step_count: 3,
        total_tokens_used: 77,
        messages,
        events: kinds
            .into_iter()
            .map(|kind| ThreadEvent {
                thread_id: ThreadId(5),
                timestamp: Timestamp { secs: 0, nanos: 0 },
                kind,
            })
            .collect(),
    }
}

fn step_failed(error: &str) -> EventKind {
    EventKind::StepFailed { step_id: StepId(1), error: error.to_string() }
}

fn action_failed() -> EventKind {
    EventKind::ActionFailed {
        step_id: StepId(1),
        action_name: "ssh".to_string(),
        call_id: "c".to_string(),
        error: "refused".to_string(),
    }
}

#[test]
fn transcript_is_exact() {
    let t = thread(
        ThreadState::Done,
        vec![ThreadMessage::user("hi".to_string()), ThreadMessage::system("é".repeat(251))],
        vec![action_failed(), EventKind::StepStarted { step_id: StepId(1) }, step_failed("late")],
    );
    let want = format!(
        "Goal: deploy\nSteps: 3\nTokens used: 77\nState: Done\n\n--- Messages ---\n[User] hi\n[System] {}...\n\n--- Errors ---\nAction 'ssh' failed: refused\nStep failed: late",
        "é".repeat(251)
    );
    assert_eq!(build_transcript(&t), want);
}

#[test]
fn transcript_shows_the_last_thirty_messages() {
    let messages: Vec<ThreadMessage> = (0..32).map(|i| ThreadMessage::user(format!("m{i}"))).collect();
    let text = build_transcript(&thread(ThreadState::Done, messages, vec![]));
    assert!(!text.contains("[User] m1\n"));
    assert!(text.contains("--- Messages ---\n[User] m2\n"));
    assert!(text.ends_with("[User] m31"));
    assert!(!text.contains("Errors"));
}

#[test]
fn requests_and_docs() {
    let request = doc_request("T", "P");
    assert!(request.force_text);
    assert_eq!(
        request.messages[0].content,
        "You are analyzing a completed agent thread. Here is the transcript:\n\nT"
    );
    assert_eq!(request.messages[1].role, MessageRole::User);
    assert_eq!(request.messages[1].content, "P");
    let t = thread(ThreadState::Done, vec![], vec![]);
    for (kind, title) in [
        (DocType::Summary, "Summary: deploy"),
        (DocType::Lesson, "Lessons: deploy"),
        (DocType::Issue, "Issues: deploy"),
        (DocType::Playbook, "Playbook: deploy"),
        (DocType::Spec, "Spec: deploy"),
        (DocType::Note, "Note: deploy"),
    ] {
        let (doc, usage) = produce_doc(&t, kind, output("c", 1));
        assert_eq!(doc.title, title);
        assert_eq!(doc.content, "c");
        assert_eq!(doc.project_id, ProjectId(6));
        assert_eq!(doc.source_thread, Some(ThreadId(5)));
        assert_eq!(usage.output_tokens, 1);
    }
    let other = produce_doc(&t, DocType::Note, output("c", 1)).0;
    let again = produce_doc(&t, DocType::Note, output("c", 1)).0;
    assert!(other.id != again.id);
}

fn output(content: &str, tokens: u64) -> LlmOutput {
    LlmOutput {
        response: LlmResponse::Text(content.to_string()),
        usage: TokenUsage { input_tokens: tokens, output_tokens: tokens },
    }
}

#[test]
fn clean_thread_gets_a_summary_only() {
    let t = thread(ThreadState::Done, vec![], vec![]);
    let mut run = reflect(&t);
    let request = run.next_request().expect("a summary");
    assert_eq!(request.messages[1].content, SUMMARY_PROMPT);
    assert!(request.messages[0].content.ends_with(&build_transcript(&t)));
    run.take_reply(&t, Ok(output("all well", 2))).expect("accepted");
    assert!(run.next_request().is_none());
    let result = run.finish();
    assert_eq!(result.docs.len(), 1);
    assert_eq!(result.docs[0].doc_type, DocType::Summary);
    assert_eq!(result.tokens_used.total(), 4);
}

#[test]
fn failed_thread_gets_everything() {
    let t = thread(ThreadState::Failed, vec![], vec![step_failed("x")]);
    let mut run = reflect(&t);
    run.take_reply(&t, Ok(output("s", 1))).expect("accepted");
    assert_eq!(run.next_request().expect("lessons").messages[1].content, LESSON_PROMPT);
    run.take_reply(&t, Ok(output("l", 1))).expect("accepted");
    assert_eq!(run.next_request().expect("issues").messages[1].content, ISSUE_PROMPT);
    run.take_reply(&t, Ok(output("this issue is long enough", 1))).expect("accepted");
    assert!(run.next_request().is_none());
    let result = run.finish();
    assert_eq!(result.docs.len(), 3);
    assert_eq!(result.tokens_used.input_tokens, 3);
}

#[test]
fn an_unleased_action_gets_a_spec() {
    let refused = |error: &str| EventKind::ActionFailed {
        step_id: StepId(1),
        action_name: "x".to_string(),
        call_id: "c".to_string(),
        error: error.to_string(),
    };
    let t = thread(ThreadState::Done, vec![], vec![refused("no lease for action 'x'")]);
    let mut run = reflect(&t);
    for prompt in [SUMMARY_PROMPT, LESSON_PROMPT, ISSUE_PROMPT, SPEC_PROMPT] {
        assert_eq!(run.next_request().expect("a request").messages[1].content, prompt);
        run.take_reply(&t, Ok(output("a reply longer than twenty bytes", 1))).expect("accepted");
    }
    assert!(run.next_request().is_none());
    let result = run.finish();
    let kinds: Vec<DocType> = result.docs.iter().map(|d| d.doc_type).collect();
    assert_eq!(kinds, [DocType::Summary, DocType::Lesson, DocType::Issue, DocType::Spec]);
    assert_eq!(result.docs[3].title, "Spec: deploy");
    assert_eq!(result.docs[3].project_id, ProjectId(6));

    let other = thread(ThreadState::Done, vec![], vec![refused("x: no lease for action 'x'")]);
    let mut run = reflect(&other);
    for _ in 0..3 {
        run.take_reply(&other, Ok(output("a reply longer than twenty bytes", 1))).expect("accepted");
    }
    assert!(run.next_request().is_none());
}

#[test]
fn trivial_issues_are_dropped_but_counted() {
    let t = thread(ThreadState::Failed, vec![], vec![]);
    let mut run = reflect(&t);
    run.take_reply(&t, Ok(output("s", 1))).expect("accepted");
    assert_eq!(run.next_request().expect("issues").messages[1].content, ISSUE_PROMPT);
    run.take_reply(&t, Ok(output("exactly twenty bytes", 5))).expect("accepted");
    let result = run.finish();
    assert_eq!(result.docs.len(), 1);
    assert_eq!(result.tokens_used.input_tokens, 6);
}

#[test]
fn a_failed_request_ends_the_reflection() {
    let t = thread(ThreadState::Done, vec![], vec![]);
    let mut run = reflect(&t);
    let r = run.take_reply(&t, Err(EngineError::Llm { reason: "down".to_string() }));
    assert!(matches!(r, Err(EngineError::Llm { reason }) if reason == "down"));
}
