use ironclaw::bridge::effect_adapter::{
    available_actions, is_v1_only_tool, ApprovalRequirement, CallAction, CallEvent, CallStage,
    EffectBridgeAdapter, EffectCall, HookReply, ToolDefinition,
};
use ironclaw::bridge::store_adapter::{
    doc_directories, doc_workspace_path, docs_to_read, is_doc_entry, HybridStore, WorkspaceEntry,
};
use ironclaw::engine::store::{list_with_shared, merge_shared, Store};
use ironclaw::engine::types::{
    ActionResult, CapabilityLease, ConversationId, DocId, DocType, EngineError, EventKind,
    LeaseId, MemoryDoc, Mission, MissionId, MissionStatus, Project, ProjectId, Step, StepId,
    Thread, ThreadEvent, ThreadExecutionContext, ThreadId, ThreadState, TokenUsage,
};
use ironclaw::hooks::hook::HookEvent;
use ironclaw::json::{render, JsonValue, Number};
use ironclaw::time::{Duration, Timestamp};

fn refused(a: CallAction) -> (bool, String) {
    match a {
        CallAction::Refuse(EngineError::LeaseDenied { reason }) => (true, reason),
        CallAction::Refuse(EngineError::Effect { reason }) => (false, reason),
        _ => panic!("expected a refusal"),
    }
}

fn started(adapter: &mut EffectBridgeAdapter, name: &str, registered: bool) -> EffectCall {
    let mut call = EffectBridgeAdapter::start_call(name);
    assert!(matches!(
        adapter.execute_action(&mut call, CallEvent::Registered(registered)),
        CallAction::AskApproval
    ));
    call
}

fn to_execution(adapter: &mut EffectBridgeAdapter, name: &str) -> EffectCall {
    let mut call = started(adapter, name, false);
    assert!(matches!(
        adapter.execute_action(&mut call, CallEvent::Approval(Some(ApprovalRequirement::Never))),
        CallAction::AskRateLimit
    ));
    assert!(matches!(
        adapter.execute_action(&mut call, CallEvent::RateLimit(None)),
        CallAction::RunHook
    ));
    assert!(matches!(
        adapter.execute_action(&mut call, CallEvent::Hook(HookReply::Failed)),
        CallAction::Execute
    ));
    call
}

#[test]
fn tool_names_fall_back_to_hyphens() {
    let mut a = EffectBridgeAdapter::new();
    assert_eq!(started(&mut a, "web_search", false).lookup_name, "web-search");
    assert_eq!(started(&mut a, "web_search", true).lookup_name, "web_search");
}

#[test]
fn call_limit_holds_until_reset() {
    let mut a = EffectBridgeAdapter::new();
    for _ in 0..50 {
        started(&mut a, "echo", true);
    }
    for _ in 0..2 {
        let mut call = EffectBridgeAdapter::start_call("echo");
        assert_eq!(
            refused(a.execute_action(&mut call, CallEvent::Registered(true))),
            (
                false,
                "Tool call limit reached (50 per code step). Break your task into multiple steps."
                    .to_string()
            )
        );
        assert_eq!(call.stage, CallStage::Over);
    }
    a.reset_call_count();
    started(&mut a, "echo", true);
}

#[test]
fn blocked_tools() {
    for name in ["routine_create", "routine-fire", "create_job", "build-software"] {
        assert!(is_v1_only_tool(name));
        assert!(is_v1_only_tool(&name.replace('_', "-")));
        assert!(is_v1_only_tool(&name.replace('-', "_")));
    }
    for name in ["routine_list", "build software", "_", "create__job"] {
        assert!(!is_v1_only_tool(name));
        assert!(!is_v1_only_tool(&name.replace('_', "-")));
        assert!(!is_v1_only_tool(&name.replace('-', "_")));
    }
    let mut a = EffectBridgeAdapter::new();
    let mut call = EffectBridgeAdapter::start_call("cancel_job");
    assert_eq!(
        refused(a.execute_action(&mut call, CallEvent::Registered(false))).1,
        "Tool 'cancel_job' is not available in engine v2. Tell the user to use the slash command instead (e.g. /routine, /job)."
    );
}

#[test]
fn approvals() {
    let mut a = EffectBridgeAdapter::new();
    let mut call = started(&mut a, "shell_run", false);
    assert_eq!(
        refused(a.execute_action(&mut call, CallEvent::Approval(Some(ApprovalRequirement::Always)))),
        (
            true,
            "Tool 'shell_run' requires explicit approval for this operation. This action cannot be auto-approved."
                .to_string()
        )
    );
    let mut call = started(&mut a, "shell_run", false);
    assert_eq!(
        refused(a.execute_action(
            &mut call,
            CallEvent::Approval(Some(ApprovalRequirement::UnlessAutoApproved))
        ))
        .1,
        "Tool 'shell_run' requires approval. Use a read-only tool instead, or ask the user to approve this action."
    );
    a.auto_approve_tool("shell-run");
    let mut call = started(&mut a, "shell_run", false);
    assert!(matches!(
        a.execute_action(&mut call, CallEvent::Approval(Some(ApprovalRequirement::UnlessAutoApproved))),
        CallAction::AskRateLimit
    ));
    let mut call = started(&mut a, "nobody", false);
    assert!(matches!(
        a.execute_action(&mut call, CallEvent::Approval(None)),
        CallAction::AskRateLimit
    ));
}

#[test]
fn rate_limits_and_hooks_refuse() {
    let mut a = EffectBridgeAdapter::new();
    let mut call = started(&mut a, "echo", true);
    a.execute_action(&mut call, CallEvent::Approval(Some(ApprovalRequirement::Never)));
    assert_eq!(
        refused(a.execute_action(&mut call, CallEvent::RateLimit(Some("12".to_string())))).1,
        "Tool 'echo' is rate limited. Try again in 12s."
    );
    let mut call = started(&mut a, "echo", true);
    a.execute_action(&mut call, CallEvent::Approval(None));
    a.execute_action(&mut call, CallEvent::RateLimit(None));
    assert_eq!(
        refused(a.execute_action(
            &mut call,
            CallEvent::Hook(HookReply::Rejected { reason: "secret".to_string() })
        )),
        (true, "Tool 'echo' blocked by hook: secret".to_string())
    );
    let mut call = started(&mut a, "echo", true);
    a.execute_action(&mut call, CallEvent::Approval(None));
    a.execute_action(&mut call, CallEvent::RateLimit(None));
    assert!(matches!(
        a.execute_action(&mut call, CallEvent::Hook(HookReply::Continue)),
        CallAction::Execute
    ));
}

fn sanitizing(a: &mut EffectBridgeAdapter, result: Result<String, String>) -> (EffectCall, String) {
    let mut call = to_execution(a, "web_get");
    let duration = Duration::from_millis(5);
    match a.execute_action(&mut call, CallEvent::Executed { result, duration }) {
        CallAction::Sanitize(text) => (call, text),
        _ => panic!("expected the text to be sanitised"),
    }
}

fn finished(a: &mut EffectBridgeAdapter, call: &mut EffectCall, event: CallEvent) -> ActionResult {
    match a.execute_action(call, event) {
        CallAction::Finish(result) => result,
        _ => panic!("expected a result"),
    }
}

#[test]
fn outcomes_are_wrapped() {
    let mut a = EffectBridgeAdapter::new();
    let (mut call, text) = sanitizing(&mut a, Ok("raw secret".to_string()));
    assert_eq!(text, "raw secret");
    assert_eq!(call.stage, CallStage::Sanitizing);
    match a.execute_action(&mut call, CallEvent::Sanitized("raw ***".to_string())) {
        CallAction::WrapAndParse(text) => assert_eq!(text, "raw ***"),
        _ => panic!("expected the text to be wrapped"),
    }
    let event = CallEvent::Wrapped { parsed: None, wrapped: "<out>raw ***</out>".to_string() };
    let r = finished(&mut a, &mut call, event);
    assert_eq!(render(&r.output), "\"<out>raw ***</out>\"");
    assert_eq!(r.action_name, "web_get");
    assert_eq!(r.call_id, "");
    assert!(!r.is_error);
    assert_eq!(r.duration, Duration::from_millis(5));
    assert_eq!(call.stage, CallStage::Over);

    let (mut call, _) = sanitizing(&mut a, Ok("4".to_string()));
    a.execute_action(&mut call, CallEvent::Sanitized("4".to_string()));
    let parsed = Some(JsonValue::Number(Number::PosInt(4)));
    let event = CallEvent::Wrapped { parsed, wrapped: "w".to_string() };
    assert_eq!(render(&finished(&mut a, &mut call, event).output), "4");

    let (mut call, text) = sanitizing(&mut a, Err("404".to_string()));
    assert_eq!(text, "Tool 'web-get' failed: 404");
    let r = finished(&mut a, &mut call, CallEvent::Sanitized("clean".to_string()));
    assert_eq!(render(&r.output), "{\"error\":\"clean\"}");
    assert!(r.is_error);
    assert_eq!(r.duration, Duration::from_millis(5));
    assert_eq!(call.stage, CallStage::Over);
}

#[test]
fn hooks_see_the_call() {
    let mut a = EffectBridgeAdapter::new();
    let call = started(&mut a, "web_get", false);
    let context = ThreadExecutionContext {
        thread_id: ThreadId(0xa1a2a3a4b1b2c1c2d1d2d3d4d5d6d7d8),
        project_id: ProjectId(1),
        user_id: "u".to_string(),
        step_id: StepId(1),
    };
    match EffectBridgeAdapter::hook_event(&call, JsonValue::Null, &context) {
        HookEvent::ToolCall { tool_name, user_id, context, .. } => {
            assert_eq!(tool_name, "web-get");
            assert_eq!(user_id, "u");
            assert_eq!(context, "engine_v2:a1a2a3a4-b1b2-c1c2-d1d2-d3d4d5d6d7d8");
        }
        _ => panic!("expected a tool call"),
    }
    assert_eq!(
        EffectBridgeAdapter::job_title(&context),
        "Thread a1a2a3a4-b1b2-c1c2-d1d2-d3d4d5d6d7d8"
    );
}

#[test]
fn offered_actions() {
    let tool = |name: &str| ToolDefinition {
        name: name.to_string(),
        description: format!("does {name}"),
        parameters: JsonValue::Null,
    };
    let tools = vec![tool("web-get"), tool("create-job"), tool("shell"), tool("ghost")];
    let requirements = vec![
        Some(ApprovalRequirement::Never),
        Some(ApprovalRequirement::Never),
        Some(ApprovalRequirement::UnlessAutoApproved),
        None,
    ];
    let actions = available_actions(&tools, &requirements);
    let seen: Vec<(&str, bool)> =
        actions.iter().map(|a| (a.name.as_str(), a.requires_approval)).collect();
    assert_eq!(seen, vec![("web_get", false), ("shell", true), ("ghost", false)]);
    assert!(actions[0].effects.is_empty());
    assert_eq!(actions[0].description, "does web-get");
}

fn thread(id: u128, project: u128) -> Thread {
    Thread {
        id: ThreadId(id),
        project_id: ProjectId(project),
        goal: "g".to_string(),
        state: ThreadState::Created,
        step_count: 0,
        total_tokens_used: 0,
        messages: vec![],
        events: vec![],
    }
}

#[test]
fn threads_by_project() {
    let mut s = HybridStore::new(false);
    s.save_thread(thread(1, 10));
    s.save_thread(thread(2, 10));
    s.save_thread(thread(3, 11));
    let mut ids: Vec<u128> = s.list_threads(ProjectId(10)).iter().map(|t| t.id.0).collect();
    ids.sort();
    assert_eq!(ids, vec![1, 2]);
    s.update_thread_state(ThreadId(2), ThreadState::Running);
    s.update_thread_state(ThreadId(99), ThreadState::Running);
    assert_eq!(s.load_thread(ThreadId(2)).map(|t| t.state), Some(ThreadState::Running));
    assert_eq!(s.load_thread(ThreadId(1)).map(|t| t.state), Some(ThreadState::Created));
    assert!(s.load_thread(ThreadId(99)).is_none());
}

#[test]
fn steps_and_events_keep_their_order() {
    let mut s = HybridStore::new(false);
    let tokens = TokenUsage { input_tokens: 0, output_tokens: 0 };
    for (id, thread_id) in [(1, 7), (2, 8), (3, 7)] {
        s.save_step(Step { id: StepId(id), thread_id: ThreadId(thread_id), tokens });
    }
    let steps: Vec<u128> =
        s.load_steps(ThreadId(7)).map(|l| l.iter().map(|x| x.id.0).collect()).unwrap_or_default();
    assert_eq!(steps, vec![1, 3]);
    assert!(s.load_steps(ThreadId(9)).is_none());
    let event = |thread_id: u128, label: &str| ThreadEvent {
        thread_id: ThreadId(thread_id),
        timestamp: Timestamp { secs: 0, nanos: 0 },
        kind: EventKind::Other { label: label.to_string() },
    };
    s.append_events(vec![event(7, "a"), event(8, "b"), event(7, "c")]);
    s.append_events(vec![event(7, "d")]);
    let labels: Vec<String> = s
        .load_events(ThreadId(7))
        .map(|l| {
            l.iter()
                .map(|e| match &e.kind {
                    EventKind::Other { label } => label.clone(),
                    _ => String::new(),
                })
                .collect()
        })
        .unwrap_or_default();
    assert_eq!(labels, vec!["a", "c", "d"]);
    assert!(s.load_events(ThreadId(1)).is_none());
}

fn doc(id: u128, project: u128, doc_type: DocType) -> MemoryDoc {
    MemoryDoc {
        id: DocId(id),
        project_id: ProjectId(project),
        doc_type,
        title: "t".to_string(),
        content: "c".to_string(),
        source_thread: None,
    }
}

#[test]
fn docs_are_kept_and_persisted() {
    let mut s = HybridStore::new(true);
    assert_eq!(
        s.save_memory_doc(doc(1, 10, DocType::Playbook)).as_deref(),
        Some("engine/docs/playbooks/00000000-0000-0000-0000-000000000001.json")
    );
    let mut memory_only = HybridStore::new(false);
    assert!(memory_only.save_memory_doc(doc(1, 10, DocType::Note)).is_none());
    assert_eq!(
        s.load_docs_from_workspace(vec![
            Some(doc(2, 10, DocType::Spec)),
            None,
            Some(doc(3, 11, DocType::Issue)),
            Some(doc(1, 11, DocType::Lesson)),
        ]),
        3
    );
    let mut ids: Vec<u128> = s.list_memory_docs(ProjectId(11)).iter().map(|d| d.id.0).collect();
    ids.sort();
    assert_eq!(ids, vec![1, 3]);
    assert_eq!(s.load_memory_doc(DocId(2)).map(|d| d.doc_type), Some(DocType::Spec));
    assert_eq!(s.load_memory_doc(DocId(1)).map(|d| d.doc_type), Some(DocType::Lesson));
    for (kind, dir) in [
        (DocType::Summary, "summaries"),
        (DocType::Lesson, "lessons"),
        (DocType::Issue, "issues"),
        (DocType::Spec, "specs"),
        (DocType::Note, "notes"),
    ] {
        assert_eq!(
            doc_workspace_path(&doc(255, 1, kind)),
            format!("engine/docs/{dir}/00000000-0000-0000-0000-0000000000ff.json")
        );
    }
}

#[test]
fn workspace_entries() {
    let entry = |path: &str, is_directory: bool| WorkspaceEntry {
        path: path.to_string(),
        is_directory,
    };
    let kept = doc_workspace_path(&doc(7, 1, DocType::Spec));
    assert!(is_doc_entry(&entry(&kept, false)));
    assert!(kept != doc_workspace_path(&doc(8, 1, DocType::Spec)));
    assert!(is_doc_entry(&entry("engine/docs/a.json", false)));
    assert!(!is_doc_entry(&entry("engine/docs/a.json", true)));
    assert!(!is_doc_entry(&entry("engine/docs/a.md", false)));
}

#[test]
fn docs_survive_a_restart() {
    let kinds = [
        DocType::Summary,
        DocType::Lesson,
        DocType::Playbook,
        DocType::Issue,
        DocType::Spec,
        DocType::Note,
    ];
    let mut first = HybridStore::new(true);
    let mut files: Vec<(String, MemoryDoc)> = Vec::new();
    for (i, kind) in kinds.into_iter().enumerate() {
        let saved = doc(i as u128 + 1, 10, kind);
        let path = first.save_memory_doc(doc(i as u128 + 1, 10, kind)).expect("a path");
        files.push((path, saved));
    }
    files.push(("engine/docs/put-by-hand.json".to_string(), doc(7, 10, DocType::Note)));
    let directories = doc_directories();
    assert_eq!(
        directories,
        [
            "engine/docs",
            "engine/docs/summaries",
            "engine/docs/lessons",
            "engine/docs/playbooks",
            "engine/docs/issues",
            "engine/docs/specs",
            "engine/docs/notes",
        ]
    );
    let mut listing = Vec::new();
    for directory in &directories {
        for (path, _) in &files {
            if path.rsplit_once('/').map(|(dir, _)| dir) == Some(directory.as_str()) {
                listing.push(WorkspaceEntry { path: path.clone(), is_directory: false });
            }
        }
        listing.push(WorkspaceEntry { path: format!("{directory}/old.json"), is_directory: true });
        listing.push(WorkspaceEntry { path: format!("{directory}/a.md"), is_directory: false });
    }
    let paths = docs_to_read(&listing);
    assert_eq!(paths.len(), 7);
    assert_eq!(paths[0], "engine/docs/put-by-hand.json");
    let read = paths
        .iter()
        .map(|path| files.iter().find(|(p, _)| p == path).map(|(_, d)| d.clone()))
        .collect();
    let mut second = HybridStore::new(true);
    assert_eq!(second.load_docs_from_workspace(read), 7);
    assert_eq!(second.load_memory_doc(DocId(7)).map(|d| d.doc_type), Some(DocType::Note));
    for (i, kind) in kinds.into_iter().enumerate() {
        let found = second.load_memory_doc(DocId(i as u128 + 1)).expect("the doc");
        assert_eq!(found.doc_type, kind);
        assert_eq!(found.project_id, ProjectId(10));
    }
}

fn lease(id: u128, expires: Option<i64>, uses: Option<u32>) -> CapabilityLease {
    CapabilityLease {
        id: LeaseId(id),
        thread_id: ThreadId(7),
        capability_name: "c".to_string(),
        granted_actions: vec![],
        granted_at: Timestamp { secs: 0, nanos: 0 },
        expires_at: expires.map(|secs| Timestamp { secs, nanos: 0 }),
        max_uses: None,
        uses_remaining: uses,
        revoked: false,
    }
}

#[test]
fn leases_expire_run_out_and_are_revoked() {
    let mut s = HybridStore::new(false);
    s.save_lease(lease(1, None, None));
    s.save_lease(lease(2, Some(100), None));
    s.save_lease(lease(3, None, Some(0)));
    s.save_lease(lease(4, None, Some(1)));
    let active = |s: &HybridStore, secs: i64| {
        let mut ids: Vec<u128> = s
            .load_active_leases_at(ThreadId(7), Timestamp { secs, nanos: 0 })
            .iter()
            .map(|l| l.id.0)
            .collect();
        ids.sort();
        ids
    };
    assert_eq!(active(&s, 99), vec![1, 2, 4]);
    assert_eq!(active(&s, 100), vec![1, 4]);
    s.revoke_lease(LeaseId(1));
    s.revoke_lease(LeaseId(9));
    assert_eq!(active(&s, 99), vec![2, 4]);
    assert_eq!(s.load_active_leases(ThreadId(7)).len(), 1);
    assert!(s.load_active_leases(ThreadId(8)).is_empty());
}

#[test]
fn projects_and_missions() {
    let mut s = HybridStore::new(false);
    s.save_project(Project { id: ProjectId(1), name: "p".to_string() });
    assert_eq!(s.load_project(ProjectId(1)).map(|p| p.name.as_str()), Some("p"));
    assert!(s.load_project(ProjectId(2)).is_none());
    let mission = |id: u128| Mission {
        id: MissionId(id),
        project_id: ProjectId(1),
        goal: "g".to_string(),
        status: MissionStatus::Active,
    };
    s.save_mission(mission(1));
    s.save_mission(mission(2));
    s.update_mission_status(MissionId(2), MissionStatus::Paused);
    assert_eq!(s.load_mission(MissionId(2)).map(|m| m.status), Some(MissionStatus::Paused));
    assert_eq!(s.list_missions(ProjectId(1)).len(), 2);
    assert!(s.list_missions(ProjectId(2)).is_empty());
}

struct PerUser;

fn none<T>() -> Result<T, EngineError> {
    Err(EngineError::Store { reason: "unused".to_string() })
}

impl Store for PerUser {
    fn save_thread(&self, _: &Thread) -> Result<(), EngineError> {
        none()
    }
    fn load_thread(&self, _: ThreadId) -> Result<Option<Thread>, EngineError> {
        none()
    }
    fn list_threads(&self, _: ProjectId, _: &str) -> Result<Vec<Thread>, EngineError> {
        none()
    }
    fn update_thread_state(&self, _: ThreadId, _: ThreadState) -> Result<(), EngineError> {
        none()
    }
    fn save_step(&self, _: &Step) -> Result<(), EngineError> {
        none()
    }
    fn load_steps(&self, _: ThreadId) -> Result<Vec<Step>, EngineError> {
        none()
    }
    fn append_events(&self, _: &Vec<ThreadEvent>) -> Result<(), EngineError> {
        none()
    }
    fn load_events(&self, _: ThreadId) -> Result<Vec<ThreadEvent>, EngineError> {
        none()
    }
    fn save_project(&self, _: &Project) -> Result<(), EngineError> {
        none()
    }
    fn load_project(&self, _: ProjectId) -> Result<Option<Project>, EngineError> {
        none()
    }
    fn save_memory_doc(&self, _: &MemoryDoc) -> Result<(), EngineError> {
        none()
    }
    fn load_memory_doc(&self, _: DocId) -> Result<Option<MemoryDoc>, EngineError> {
        none()
    }
    fn list_memory_docs(&self, _: ProjectId, user_id: &str) -> Result<Vec<MemoryDoc>, EngineError> {
        match user_id {
            "system" => Ok(vec![doc(1, 1, DocType::Note)]),
            "alice" => Ok(vec![doc(2, 1, DocType::Note), doc(3, 1, DocType::Note)]),
            _ => none(),
        }
    }
    fn save_lease(&self, _: &CapabilityLease) -> Result<(), EngineError> {
        none()
    }
    fn load_active_leases(&self, _: ThreadId) -> Result<Vec<CapabilityLease>, EngineError> {
        none()
    }
    fn revoke_lease(&self, _: LeaseId, _: &str) -> Result<(), EngineError> {
        none()
    }
    fn save_mission(&self, _: &Mission) -> Result<(), EngineError> {
        none()
    }
    fn load_mission(&self, _: MissionId) -> Result<Option<Mission>, EngineError> {
        none()
    }
    fn list_missions(&self, _: ProjectId, user_id: &str) -> Result<Vec<Mission>, EngineError> {
        Ok(vec![Mission {
            id: MissionId(user_id.len() as u128),
            project_id: ProjectId(1),
            goal: user_id.to_string(),
            status: MissionStatus::Active,
        }])
    }
    fn update_mission_status(&self, _: MissionId, _: MissionStatus) -> Result<(), EngineError> {
        none()
    }
}

#[test]
fn shared_items_follow_own_ones() {
    let ids = |r: Result<Vec<MemoryDoc>, EngineError>| -> Vec<u128> {
        r.map(|l| l.iter().map(|d| d.id.0).collect()).unwrap_or_default()
    };
    assert_eq!(ids(PerUser.list_memory_docs_with_shared(ProjectId(1), "alice")), vec![2, 3, 1]);
    assert_eq!(ids(PerUser.list_memory_docs_with_shared(ProjectId(1), "system")), vec![1]);
    assert!(PerUser.list_memory_docs_with_shared(ProjectId(1), "bob").is_err());
    let goals = |user: &str| -> Vec<String> {
        PerUser
            .list_missions_with_shared(ProjectId(1), user)
            .map(|l| l.into_iter().map(|m| m.goal).collect())
            .unwrap_or_default()
    };
    assert_eq!(goals("alice"), vec!["alice", "system"]);
    assert_eq!(goals("system"), vec!["system"]);
    assert!(merge_shared(Ok(vec![1]), none::<Vec<i32>>()).is_err());
    let list = |user: &str| -> Result<Vec<usize>, EngineError> {
        if user == "bob" {
            none()
        } else {
            Ok(vec![user.len()])
        }
    };
    assert_eq!(list_with_shared(list, "alice").ok(), Some(vec![5, 6]));
    assert_eq!(list_with_shared(list, "system").ok(), Some(vec![6]));
    assert!(list_with_shared(list, "bob").is_err());
}

#[test]
fn store_defaults_are_empty() {
    assert!(PerUser.list_projects("u").map(|l| l.is_empty()).unwrap_or(false));
    assert!(PerUser.list_conversations("u").map(|l| l.is_empty()).unwrap_or(false));
    assert!(matches!(PerUser.load_conversation(ConversationId(1)), Ok(None)));
    assert!(PerUser.list_all_threads(ProjectId(1)).map(|l| l.is_empty()).unwrap_or(false));
    assert!(PerUser.list_all_missions(ProjectId(1)).map(|l| l.is_empty()).unwrap_or(false));
}
