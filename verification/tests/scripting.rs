use ironclaw::engine::pyvalue::{
    extract_string_arg, float_value, json_to_monty, monty_args_to_json, monty_to_json,
    monty_to_string, PyKey, PyValue,
};
use ironclaw::engine::scripting::{
    build_context_inputs, compact_output_metadata, default_limits, handle_llm_query, CodeRun,
    DispatchEvent, DispatchStep, ExcKind, ExtResult, RunStage, VmAction, VmEvent,
};
use ironclaw::engine::types::{
    ActionDef, ActionResult, EngineError, EventKind, LlmOutput, LlmResponse, MessageRole,
    PolicyDecision, ProjectId, StepId, Thread, ThreadId, ThreadMessage, ThreadState, TokenUsage,
};
use ironclaw::json::{render, JsonValue, Number};
use ironclaw::time::Duration;

fn s(text: &str) -> PyValue {
    PyValue::Str(text.to_string())
}

fn key(text: &str) -> PyKey {
    PyKey::Str(text.to_string())
}

#[test]
fn python_values_become_json() {
    let v = PyValue::List(vec![
        PyValue::Nil,
        PyValue::Bool(true),
        PyValue::Int(-3),
        PyValue::Int(3),
        PyValue::BigInt("123456789012345678901234567890".to_string()),
        PyValue::Float { display: "1.5".to_string(), json: Some("1.5".to_string()) },
        PyValue::Float { display: "NaN".to_string(), json: None },
        s("x"),
        PyValue::Tuple(vec![PyValue::Int(1)]),
        PyValue::Items(vec![PyValue::Int(2)]),
        PyValue::Bytes(vec![1, 171]),
        PyValue::Other("Ellipsis".to_string()),
        PyValue::Dict(vec![
            (key("b"), PyValue::Int(1)),
            (PyKey::Other("Int(7)".to_string()), PyValue::Int(2)),
            (key("b"), PyValue::Int(3)),
        ]),
    ]);
    assert_eq!(
        render(&monty_to_json(&v)),
        "[null,true,-3,3,\"123456789012345678901234567890\",1.5,null,\"x\",[1],[2],\"01ab\",\"Ellipsis\",{\"Int(7)\":2,\"b\":3}]"
    );
}

#[test]
fn json_round_trips_through_python() {
    let mut entries = Vec::new();
    ironclaw::json::put_entry(&mut entries, "a".to_string(), JsonValue::Array(vec![JsonValue::Null]));
    ironclaw::json::put_entry(&mut entries, "b".to_string(), JsonValue::Number(Number::NegInt(-5)));
    ironclaw::json::put_entry(&mut entries, "c".to_string(), JsonValue::Number(Number::Float("2.5".to_string())));
    let v = JsonValue::Object(entries);
    assert_eq!(render(&monty_to_json(&json_to_monty(&v))), render(&v));
    for n in [u64::MAX, 9_223_372_036_854_775_808, 9_223_372_036_854_777_857] {
        let value = json_to_monty(&JsonValue::Number(Number::PosInt(n)));
        let float = n as f64;
        assert_eq!(monty_to_string(&value), float.to_string());
        assert_eq!(render(&monty_to_json(&value)), serde_json::Value::from(float).to_string());
        assert!(monty_to_string(&value) != n.to_string());
    }
    let largest = json_to_monty(&JsonValue::Number(Number::PosInt(u64::MAX)));
    assert_eq!(monty_to_string(&largest), "18446744073709552000");
    let one = json_to_monty(&JsonValue::Number(Number::Float("1.0".to_string())));
    assert_eq!(monty_to_string(&one), "1");
    assert_eq!(render(&monty_to_json(&one)), "1.0");
    let no_numeral = json_to_monty(&JsonValue::Number(Number::Float("x".to_string())));
    assert_eq!(monty_to_string(&no_numeral), "x");
    assert!(matches!(
        float_value("1e999".to_string(), Some(("inf".to_string(), None))),
        PyValue::Float { json: None, .. }
    ));
    assert!(matches!(float_value("x".to_string(), None), PyValue::Str(ref t) if t == "x"));
    assert!(matches!(json_to_monty(&JsonValue::Number(Number::PosInt(4))), PyValue::Int(4)));
}

#[test]
fn arguments_become_one_object() {
    let v = monty_args_to_json(&vec![PyValue::Int(1), s("a")], &vec![(key("k"), PyValue::Nil)]);
    assert_eq!(render(&v), "{\"_args\":[1,\"a\"],\"k\":null}");
    assert_eq!(render(&monty_args_to_json(&vec![], &vec![])), "{}");
    let clash = monty_args_to_json(&vec![PyValue::Int(1)], &vec![(key("_args"), s("mine"))]);
    assert_eq!(render(&clash), "{\"_args\":\"mine\"}");
}

#[test]
fn values_become_text() {
    assert_eq!(monty_to_string(&PyValue::Nil), "None");
    assert_eq!(monty_to_string(&PyValue::Bool(true)), "true");
    assert_eq!(monty_to_string(&PyValue::Int(i64::MIN)), "-9223372036854775808");
    assert_eq!(
        monty_to_string(&PyValue::Float { display: "inf".to_string(), json: None }),
        "inf"
    );
    assert_eq!(monty_to_string(&PyValue::List(vec![s("q"), PyValue::Int(2)])), "[\"q\",2]");
    let args = vec![s("first"), PyValue::Int(2)];
    let kwargs = vec![
        (PyKey::Other("name".to_string()), s("no")),
        (key("name"), s("kw")),
        (key("name"), s("later")),
    ];
    assert_eq!(extract_string_arg(&args, &kwargs, "name", 0).as_deref(), Some("kw"));
    assert_eq!(extract_string_arg(&args, &kwargs, "other", 1).as_deref(), Some("2"));
    assert_eq!(extract_string_arg(&args, &kwargs, "other", 2), None);
}

#[test]
fn output_metadata() {
    assert_eq!(compact_output_metadata("", &JsonValue::Null), "[code executed, no output]");
    assert_eq!(
        compact_output_metadata("hi", &JsonValue::Number(Number::PosInt(42))),
        "[code output] stdout (2 chars): hi; return (2 chars): 42"
    );
    let long = "é".repeat(100);
    assert_eq!(
        compact_output_metadata(&long, &JsonValue::Null),
        format!("[code output] stdout (200 chars): {long}...")
    );
    let longer = "x".repeat(130);
    assert_eq!(
        compact_output_metadata("", &JsonValue::Str(longer.clone())),
        format!("[code output] return (132 chars): \"{}...", &longer[..119])
    );
}

#[test]
fn limits() {
    let l = default_limits();
    assert_eq!(l.max_duration_secs, 30);
    assert_eq!(l.max_allocations, 1_000_000);
    assert_eq!(l.max_memory, 64 * 1024 * 1024);
    assert_eq!(l.max_recursion_depth, 1000);
}

#[test]
fn context_inputs() {
    let mut result = ThreadMessage::user("42".to_string());
    result.role = MessageRole::ActionResult;
    result.action_name = Some("echo".to_string());
    result.action_call_id = Some("c1".to_string());
    let mut nameless = ThreadMessage::user("lost".to_string());
    nameless.role = MessageRole::ActionResult;
    let t = Thread {
        id: ThreadId(1),
        project_id: ProjectId(1),
        goal: "g".to_string(),
        state: ThreadState::Running,
        step_count: 3,
        total_tokens_used: 0,
        messages: vec![ThreadMessage::system("sys".to_string()), result, nameless],
        events: vec![],
    };
    let (names, values) = build_context_inputs(&t);
    assert_eq!(names, vec!["context", "goal", "step_number", "previous_results"]);
    assert_eq!(
        render(&monty_to_json(&values[0])),
        "[{\"content\":\"sys\",\"role\":\"System\"},{\"action_name\":\"echo\",\"content\":\"42\",\"role\":\"ActionResult\"},{\"content\":\"lost\",\"role\":\"ActionResult\"}]"
    );
    assert_eq!(render(&monty_to_json(&values[1])), "\"g\"");
    assert_eq!(render(&monty_to_json(&values[2])), "3");
    assert_eq!(render(&monty_to_json(&values[3])), "{\"c1\":\"42\"}");
}

#[test]
fn queries_need_a_prompt() {
    let request = handle_llm_query(&vec![s("ask"), s("ctx")], &vec![]).expect("a request");
    assert!(request.force_text);
    assert_eq!(request.messages.len(), 2);
    assert_eq!(request.messages[0].role, MessageRole::System);
    assert_eq!(
        request.messages[0].content,
        "You are a sub-agent. Here is the context:\n\nctx"
    );
    assert_eq!(request.messages[1].content, "ask");
    let bare = handle_llm_query(&vec![], &vec![(key("prompt"), s("p"))]).expect("a request");
    assert_eq!(bare.messages.len(), 1);
    match handle_llm_query(&vec![], &vec![(key("context"), s("c"))]) {
        Err(ExtResult::Raise { kind, message }) => {
            assert_eq!(kind, ExcKind::TypeError);
            assert_eq!(message, "llm_query() requires a 'prompt' argument");
        }
        _ => panic!("expected a type error"),
    }
}

fn call(name: &str, args: Vec<PyValue>) -> VmEvent {
    VmEvent::FunctionCall { name: name.to_string(), args, kwargs: vec![] }
}

fn reason(action: VmAction) -> String {
    match action {
        VmAction::Fail(EngineError::Effect { reason }) => reason,
        _ => panic!("expected a failure"),
    }
}

fn run() -> CodeRun {
    CodeRun::new(StepId(9))
}

#[test]
fn interpreter_errors() {
    let cases: Vec<(VmEvent, &str)> = vec![
        (VmEvent::ParseFailed("bad".to_string()), "Python parse error: bad"),
        (VmEvent::ParsePanicked, "Monty VM panicked during code parsing"),
        (VmEvent::StartFailed("bad".to_string()), "Python execution error: bad"),
        (VmEvent::StartPanicked, "Monty VM panicked during execution start"),
        (VmEvent::ResumeFailed("bad".to_string()), "Python execution error: bad"),
        (VmEvent::ResumePanicked, "Monty VM panicked during execution resume"),
        (VmEvent::ResolveFutures, "async/await is not supported in CodeAct scripts"),
    ];
    for (event, want) in cases {
        let mut r = run();
        assert_eq!(reason(r.execute_code(event)), want);
        assert_eq!(r.stage(), RunStage::Over);
    }
    let mut r = run();
    assert!(matches!(
        r.execute_code(VmEvent::NameLookup("x".to_string())),
        VmAction::ResumeUndefined
    ));
    match r.execute_code(VmEvent::OsCall) {
        VmAction::Resume(ExtResult::Raise { kind, message }) => {
            assert_eq!(kind, ExcKind::OsError);
            assert_eq!(message, "OS operations are not permitted in CodeAct scripts");
        }
        _ => panic!("expected an exception"),
    }
    assert_eq!(r.stage(), RunStage::Interpreter);
}

#[test]
fn code_completes() {
    let mut r = run();
    let value = match r.execute_code(VmEvent::Complete(PyValue::Int(5))) {
        VmAction::Finish(v) => v,
        _ => panic!("expected the end"),
    };
    let result = r.finish(value, "out".to_string());
    assert_eq!(render(&result.return_value), "5");
    assert_eq!(result.stdout, "out");
    assert!(result.need_approval.is_none());
    assert!(result.events.is_empty());
    assert_eq!(result.recursive_tokens, TokenUsage { input_tokens: 0, output_tokens: 0 });
}

#[test]
fn queries_are_answered_and_counted() {
    let mut r = run();
    for (response, want) in [
        (LlmResponse::Text("t".to_string()), "t"),
        (LlmResponse::ActionCalls { content: Some("a".to_string()) }, "a"),
        (LlmResponse::Code { code: "x".to_string(), content: None }, ""),
    ] {
        assert!(matches!(r.execute_code(call("llm_query", vec![s("p")])), VmAction::AskModel(_)));
        let usage = TokenUsage { input_tokens: 10, output_tokens: 1 };
        match r.answer_query(Ok(LlmOutput { response, usage })) {
            ExtResult::Return(PyValue::Str(text)) => assert_eq!(text, want),
            _ => panic!("expected text"),
        }
    }
    r.execute_code(call("llm_query", vec![s("p")]));
    match r.answer_query(Err("down".to_string())) {
        ExtResult::Raise { kind, message } => {
            assert_eq!(kind, ExcKind::RuntimeError);
            assert_eq!(message, "llm_query failed: down");
        }
        _ => panic!("expected an exception"),
    }
    assert!(matches!(
        r.execute_code(call("llm_query", vec![])),
        VmAction::Resume(ExtResult::Raise { kind: ExcKind::TypeError, .. })
    ));
    assert_eq!(r.call_count(), 5);
    assert_eq!(r.tokens_used(), TokenUsage { input_tokens: 30, output_tokens: 3 });
    assert!(!r.tokens_used().has_room(TokenUsage { input_tokens: u64::MAX, output_tokens: 0 }));
    assert!(r.tokens_used().has_room(TokenUsage { input_tokens: u64::MAX - 30, output_tokens: 0 }));
    r.execute_code(VmEvent::Complete(PyValue::Nil));
    let result = r.finish(JsonValue::Null, String::new());
    assert_eq!(result.recursive_tokens, TokenUsage { input_tokens: 30, output_tokens: 3 });
}

fn def(name: &str) -> ActionDef {
    ActionDef {
        name: name.to_string(),
        description: "d".to_string(),
        parameters_schema: JsonValue::Null,
        effects: vec![],
        requires_approval: false,
    }
}

fn to_policy(r: &mut CodeRun) {
    assert!(matches!(r.execute_code(call("echo", vec![PyValue::Int(1)])), VmAction::AskLease));
    assert!(matches!(r.dispatch_action(DispatchEvent::Lease(true)), DispatchStep::AskActions));
    assert!(matches!(
        r.dispatch_action(DispatchEvent::Actions(Some(vec![def("x"), def("echo")]))),
        DispatchStep::AskPolicy(1)
    ));
}

#[test]
fn action_without_lease() {
    let mut r = run();
    r.execute_code(call("echo", vec![]));
    match r.dispatch_action(DispatchEvent::Lease(false)) {
        DispatchStep::Resume(ExtResult::NotFound(name)) => assert_eq!(name, "echo"),
        _ => panic!("expected not found"),
    }
    let result = r.finish(JsonValue::Null, String::new());
    match &result.events[0] {
        EventKind::ActionFailed { step_id, action_name, call_id, error } => {
            assert_eq!(*step_id, StepId(9));
            assert_eq!(action_name, "echo");
            assert_eq!(call_id, "code_call_1");
            assert_eq!(error, "no lease for action 'echo'");
        }
        _ => panic!("expected a failure"),
    }
    assert!(result.action_results.is_empty());
}

#[test]
fn denied_action() {
    let mut r = run();
    to_policy(&mut r);
    match r.dispatch_action(DispatchEvent::Policy(PolicyDecision::Deny { reason: "no".to_string() })) {
        DispatchStep::Resume(ExtResult::Raise { kind, message }) => {
            assert_eq!(kind, ExcKind::RuntimeError);
            assert_eq!(message, "denied: no");
        }
        _ => panic!("expected an exception"),
    }
    let result = r.finish(JsonValue::Null, String::new());
    assert!(matches!(&result.events[0], EventKind::ActionFailed { error, .. } if error == "no"));
    assert_eq!(result.events.len(), 1);
    assert!(result.action_results.is_empty());
}

#[test]
fn approval_suspends_the_run() {
    let mut r = run();
    to_policy(&mut r);
    assert!(matches!(
        r.dispatch_action(DispatchEvent::Policy(PolicyDecision::RequireApproval { reason: "r".to_string() })),
        DispatchStep::NeedApproval
    ));
    assert_eq!(r.stage(), RunStage::Over);
    let result = r.suspend("so far".to_string());
    let need = result.need_approval.expect("approval");
    assert_eq!(need.action_name, "echo");
    assert_eq!(need.call_id, "code_call_1");
    assert_eq!(render(&need.parameters), "{\"_args\":[1]}");
    assert!(result.return_value.is_null());
    assert!(matches!(&result.events[0], EventKind::ApprovalRequested { call_id, .. } if call_id == "code_call_1"));
}

#[test]
fn action_runs_and_fails() {
    let mut r = run();
    to_policy(&mut r);
    assert_eq!(r.pending_call().call_id, "code_call_1");
    assert!(matches!(
        r.dispatch_action(DispatchEvent::Policy(PolicyDecision::Allow)),
        DispatchStep::ConsumeUse
    ));
    assert!(matches!(r.dispatch_action(DispatchEvent::Use(None)), DispatchStep::Execute));
    let done = ActionResult {
        call_id: String::new(),
        action_name: "echo".to_string(),
        output: JsonValue::Number(Number::PosInt(7)),
        is_error: false,
        duration: Duration { secs: 1, nanos: 2_500_000 },
    };
    assert!(matches!(
        r.dispatch_action(DispatchEvent::Outcome(Ok(done))),
        DispatchStep::Resume(ExtResult::Return(PyValue::Int(7)))
    ));

    r.execute_code(call("gone", vec![]));
    r.dispatch_action(DispatchEvent::Lease(true));
    assert!(matches!(r.dispatch_action(DispatchEvent::Actions(None)), DispatchStep::ConsumeUse));
    match r.dispatch_action(DispatchEvent::Use(Some("none left".to_string()))) {
        DispatchStep::Resume(ExtResult::Raise { message, .. }) => {
            assert_eq!(message, "lease exhausted: none left")
        }
        _ => panic!("expected an exception"),
    }

    r.execute_code(call("bad", vec![]));
    r.dispatch_action(DispatchEvent::Lease(true));
    assert!(matches!(
        r.dispatch_action(DispatchEvent::Actions(Some(vec![def("x")]))),
        DispatchStep::ConsumeUse
    ));
    r.dispatch_action(DispatchEvent::Use(None));
    match r.dispatch_action(DispatchEvent::Outcome(Err("boom".to_string()))) {
        DispatchStep::Resume(ExtResult::Raise { kind, message }) => {
            assert_eq!(kind, ExcKind::RuntimeError);
            assert_eq!(message, "boom");
        }
        _ => panic!("expected an exception"),
    }
    let result = r.finish(JsonValue::Null, String::new());
    assert_eq!(result.events.len(), 2);
    assert!(matches!(&result.events[0], EventKind::ActionExecuted { duration_ms: 1002, .. }));
    assert!(matches!(&result.events[1], EventKind::ActionFailed { call_id, error, .. } if call_id == "code_call_3" && error == "boom"));
    assert_eq!(result.action_results.len(), 2);
    assert_eq!(render(&result.action_results[1].output), "{\"error\":\"boom\"}");
    assert!(result.action_results[1].is_error);
    assert_eq!(result.action_results[1].call_id, "code_call_3");
}
