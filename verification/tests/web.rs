use ironclaw::json::{render, JsonValue, Number};
use ironclaw::time::Timestamp;
use ironclaw::web::reply::{StatusCode, StoreReply};
use ironclaw::web::settings::{
    hygiene_keys, hygiene_write_step, settings_delete_handler, settings_export_handler,
    settings_get_handler, settings_hygiene_get_handler, settings_hygiene_set_handler,
    settings_import_handler, settings_list_handler, settings_set_handler, HygieneRequest,
    HygieneSettings, HygieneValues, SettingRow, WriteStep,
};
use ironclaw::web::workspaces::{
    plan_change, require_access, require_change, require_workspace_manager, resolve_workspace_scope,
    scope_found, scope_start, workspace_members_delete_handler, workspace_members_list_handler,
    workspace_members_upsert_handler, workspace_scope_user_id, workspaces_archive_handler,
    workspaces_create_handler, workspaces_detail_handler, workspaces_list_handler,
    workspaces_update_handler, ApiError, MemberRecord, ResolvedWorkspace, ScopeStep, WorkspaceCall,
    WorkspaceChange, WorkspaceMembership, WorkspaceQuery, WorkspaceRecord,
};

fn row(key: &str) -> SettingRow {
    SettingRow {
        key: key.to_string(),
        value: JsonValue::Bool(true),
        updated_at: Timestamp { secs: 1_700_000_000, nanos: 0 },
    }
}

#[test]
fn settings_answers() {
    let list = settings_list_handler(StoreReply::Done(vec![row("a"), row("b")])).expect("a list");
    assert_eq!(list.len(), 2);
    assert_eq!(list[1].key, "b");
    assert_eq!(list[0].updated_at, "2023-11-14T22:13:20+00:00");
    assert!(matches!(
        settings_list_handler(StoreReply::NoStore),
        Err(StatusCode::ServiceUnavailable)
    ));
    assert!(matches!(
        settings_list_handler(StoreReply::Failed),
        Err(StatusCode::InternalServerError)
    ));
    let one = settings_get_handler(StoreReply::Done(Some(row("k")))).expect("a setting");
    assert_eq!(one.key, "k");
    assert!(matches!(settings_get_handler(StoreReply::Done(None)), Err(StatusCode::NotFound)));
    assert_eq!(settings_set_handler(StoreReply::Done(())), Ok(StatusCode::NoContent));
    assert_eq!(settings_set_handler(StoreReply::Failed), Err(StatusCode::InternalServerError));
    assert_eq!(settings_delete_handler(StoreReply::Done(())), Ok(StatusCode::NoContent));
    assert_eq!(settings_import_handler(StoreReply::NoStore), Err(StatusCode::ServiceUnavailable));
    let all = settings_export_handler(StoreReply::Done(vec![("k".to_string(), JsonValue::Null)]));
    assert_eq!(all.expect("settings").len(), 1);
    assert_eq!(StatusCode::Gone.number(), 410);
    assert_eq!(StatusCode::NoContent.number(), 204);
}

const DEFAULTS: HygieneSettings = HygieneSettings {
    enabled: true,
    daily_retention_days: 30,
    conversation_retention_days: 7,
    cadence_hours: 12,
};

fn number(n: u64) -> Option<JsonValue> {
    Some(JsonValue::Number(Number::PosInt(n)))
}

#[test]
fn hygiene_falls_back_to_defaults() {
    assert_eq!(settings_hygiene_get_handler(&None, DEFAULTS), DEFAULTS);
    let values = HygieneValues {
        enabled: Some(JsonValue::Str("no".to_string())),
        daily_retention_days: number(5),
        conversation_retention_days: None,
        cadence_hours: number(4_294_967_297),
    };
    assert_eq!(
        settings_hygiene_get_handler(&Some(values), DEFAULTS),
        HygieneSettings {
            enabled: true,
            daily_retention_days: 5,
            conversation_retention_days: 7,
            cadence_hours: 1,
        }
    );
}

#[test]
fn hygiene_writes_and_reads_back() {
    let body = HygieneRequest {
        enabled: Some(false),
        daily_retention_days: None,
        conversation_retention_days: Some(9),
        cadence_hours: None,
    };
    assert!(matches!(
        settings_hygiene_set_handler(false, body),
        Err(StatusCode::ServiceUnavailable)
    ));
    let writes = settings_hygiene_set_handler(true, body).expect("writes");
    assert_eq!(writes.len(), 2);
    assert_eq!(writes[0].0, "memory_hygiene.enabled");
    assert_eq!(render(&writes[0].1), "false");
    assert_eq!(writes[1].0, "memory_hygiene.conversation_retention_days");
    assert_eq!(render(&writes[1].1), "9");
    let keys = hygiene_keys();
    let mut values: Vec<Option<JsonValue>> = vec![None, number(1), number(2), number(3)];
    for (key, value) in writes {
        let at = keys.iter().position(|k| *k == key).expect("a known key");
        values[at] = Some(value);
    }
    let mut it = values.into_iter();
    let stored = HygieneValues {
        enabled: it.next().unwrap_or(None),
        daily_retention_days: it.next().unwrap_or(None),
        conversation_retention_days: it.next().unwrap_or(None),
        cadence_hours: it.next().unwrap_or(None),
    };
    assert_eq!(
        settings_hygiene_get_handler(&Some(stored), DEFAULTS),
        HygieneSettings {
            enabled: false,
            daily_retention_days: 1,
            conversation_retention_days: 9,
            cadence_hours: 3,
        }
    );
}

#[test]
fn hygiene_write_steps() {
    assert_eq!(hygiene_write_step(2, 0, true), WriteStep::Write(0));
    assert_eq!(hygiene_write_step(2, 1, true), WriteStep::Write(1));
    assert_eq!(hygiene_write_step(2, 2, true), WriteStep::Finish(StatusCode::NoContent));
    assert_eq!(hygiene_write_step(2, 1, false), WriteStep::Fail(StatusCode::InternalServerError));
    assert_eq!(hygiene_write_step(0, 0, true), WriteStep::Finish(StatusCode::NoContent));
}

fn workspace(status: &str) -> WorkspaceRecord {
    WorkspaceRecord {
        id: 0xa1a2a3a4b1b2c1c2d1d2d3d4d5d6d7d8,
        name: "Team".to_string(),
        slug: "team".to_string(),
        description: "d".to_string(),
        status: status.to_string(),
        created_at: Timestamp { secs: 0, nanos: 0 },
        updated_at: Timestamp { secs: 1, nanos: 500_000_000 },
        created_by: "alice".to_string(),
        settings: JsonValue::Null,
    }
}

fn role(name: &str) -> StoreReply<Option<String>> {
    StoreReply::Done(Some(name.to_string()))
}

fn found(status: &str) -> StoreReply<Option<WorkspaceRecord>> {
    StoreReply::Done(Some(workspace(status)))
}

fn refusal<T>(r: Result<T, ApiError>) -> (u16, String) {
    match r {
        Err(e) => (e.status.number(), e.message),
        Ok(_) => panic!("expected a refusal"),
    }
}

#[test]
fn scopes_are_named_after_the_workspace() {
    assert_eq!(
        workspace_scope_user_id(0xa1a2a3a4b1b2c1c2d1d2d3d4d5d6d7d8),
        "workspace:a1a2a3a4-b1b2-c1c2-d1d2-d3d4d5d6d7d8"
    );
    assert!(workspace_scope_user_id(1) != workspace_scope_user_id(2));
}

#[test]
fn scope_resolution() {
    let query = WorkspaceQuery { workspace: Some("team".to_string()) };
    let slug = query.workspace.as_deref();
    assert!(matches!(resolve_workspace_scope(None, StoreReply::Failed, StoreReply::Failed), Ok(None)));
    let resolved = resolve_workspace_scope(slug, found("active"), role("member"))
        .expect("access")
        .expect("a workspace");
    assert_eq!(resolved.role, "member");
    assert_eq!(resolved.workspace.slug, "team");
    assert_eq!(
        refusal(resolve_workspace_scope(slug, StoreReply::Done(None), role("owner"))),
        (404, "Workspace not found".to_string())
    );
    assert_eq!(
        refusal(resolve_workspace_scope(slug, found("archived"), StoreReply::Done(None))),
        (410, "Workspace is archived".to_string())
    );
    assert_eq!(
        refusal(resolve_workspace_scope(slug, found("archived"), role("owner"))),
        (410, "Workspace is archived".to_string())
    );
    assert_eq!(
        refusal(resolve_workspace_scope(slug, found("active"), StoreReply::Done(None))),
        (403, "Workspace access denied".to_string())
    );
    assert_eq!(
        refusal(resolve_workspace_scope(slug, StoreReply::Failed, role("owner"))),
        (500, "Internal database error".to_string())
    );
    assert_eq!(
        refusal(resolve_workspace_scope(slug, found("active"), StoreReply::Failed)),
        (500, "Internal database error".to_string())
    );
    assert!(matches!(scope_start(slug), ScopeStep::FindWorkspace));
    assert!(matches!(scope_found(found("active")), ScopeStep::FindRole(_)));
}

fn scope(role: &str) -> Result<Option<ResolvedWorkspace>, ApiError> {
    Ok(Some(ResolvedWorkspace { workspace: workspace("active"), role: role.to_string() }))
}

#[test]
fn only_managers_change() {
    assert!(require_workspace_manager("owner").is_ok());
    assert!(require_workspace_manager("admin").is_ok());
    assert_eq!(
        refusal(require_workspace_manager("member")),
        (403, "Workspace admin or owner role required".to_string())
    );
    assert!(require_change(true, scope("admin")).is_ok());
    assert_eq!(refusal(require_change(true, scope("viewer"))).0, 403);
    assert_eq!(
        refusal(require_change(false, scope("owner"))),
        (503, "Database not available".to_string())
    );
    assert_eq!(refusal(require_change(true, Ok(None))).0, 404);
    assert!(require_access(true, scope("viewer")).is_ok());
    let gone = Err(ApiError { status: StatusCode::Gone, message: "x".to_string() });
    assert_eq!(refusal(require_access(true, gone)), (410, "x".to_string()));
}

#[test]
fn planned_changes() {
    let id: u128 = 0xa1a2a3a4b1b2c1c2d1d2d3d4d5d6d7d8;
    let put = || WorkspaceChange::PutMember {
        member_user_id: "bob".to_string(),
        role: "member".to_string(),
    };
    let plan = plan_change(true, scope("admin"), "alice", put()).expect("a plan");
    assert_eq!(plan.role, "admin");
    match plan.call {
        WorkspaceCall::AddMember { workspace_id, member_user_id, role, invited_by } => {
            assert_eq!(workspace_id, id);
            assert_eq!(member_user_id, "bob");
            assert_eq!(role, "member");
            assert_eq!(invited_by, "alice");
        }
        _ => panic!("expected an addition"),
    }
    let update = WorkspaceChange::Update {
        name: "n".to_string(),
        description: "d".to_string(),
        settings: JsonValue::Bool(true),
    };
    match plan_change(true, scope("owner"), "alice", update).expect("a plan").call {
        WorkspaceCall::Update { workspace_id, name, description, settings } => {
            assert_eq!((workspace_id, name.as_str(), description.as_str()), (id, "n", "d"));
            assert_eq!(render(&settings), "true");
        }
        _ => panic!("expected an update"),
    }
    let archive = plan_change(true, scope("owner"), "alice", WorkspaceChange::Archive);
    assert!(matches!(
        archive.map(|p| p.call),
        Ok(WorkspaceCall::Archive { workspace_id }) if workspace_id == id
    ));
    let remove = WorkspaceChange::RemoveMember { member_user_id: "bob".to_string() };
    assert!(matches!(
        plan_change(true, scope("owner"), "alice", remove).map(|p| p.call),
        Ok(WorkspaceCall::RemoveMember { member_user_id, .. }) if member_user_id == "bob"
    ));
    assert_eq!(refusal(plan_change(true, scope("member"), "alice", put())).0, 403);
    assert_eq!(refusal(plan_change(false, scope("owner"), "alice", put())).0, 503);
    assert_eq!(refusal(plan_change(true, Ok(None), "alice", put())).0, 404);
    let archived = resolve_workspace_scope(Some("team"), found("archived"), role("owner"));
    assert_eq!(refusal(plan_change(true, archived, "alice", put())).0, 410);
}

#[test]
fn workspace_answers() {
    let list = workspaces_list_handler(StoreReply::Done(vec![WorkspaceMembership {
        workspace: workspace("active"),
        role: "member".to_string(),
    }]))
    .expect("a list");
    assert_eq!(list[0].role, "member");
    assert_eq!(list[0].created_at, "1970-01-01T00:00:00+00:00");
    assert_eq!(list[0].updated_at, "1970-01-01T00:00:01.500+00:00");
    assert_eq!(refusal(workspaces_list_handler(StoreReply::NoStore)).0, 503);
    let made = workspaces_create_handler(StoreReply::Done(workspace("active"))).expect("made");
    assert_eq!(made.role, "owner");
    assert_eq!(made.created_by, "alice");
    let detail = workspaces_detail_handler(true, scope("viewer")).expect("detail");
    assert_eq!(detail.role, "viewer");
    assert_eq!(refusal(workspaces_detail_handler(true, Ok(None))).0, 404);
    let updated =
        workspaces_update_handler("admin".to_string(), found("active")).expect("updated");
    assert_eq!(updated.role, "admin");
    assert_eq!(
        refusal(workspaces_update_handler("admin".to_string(), StoreReply::Done(None))).1,
        "Workspace not found"
    );
    assert!(matches!(
        workspaces_archive_handler(StoreReply::Done(true)),
        Ok(StatusCode::NoContent)
    ));
    assert_eq!(refusal(workspaces_archive_handler(StoreReply::Done(false))).0, 404);
    assert!(matches!(
        workspace_members_upsert_handler(StoreReply::Done(())),
        Ok(StatusCode::NoContent)
    ));
    assert_eq!(refusal(workspace_members_upsert_handler(StoreReply::Failed)).0, 500);
    assert!(matches!(
        workspace_members_delete_handler(StoreReply::Done(true)),
        Ok(StatusCode::NoContent)
    ));
    assert_eq!(
        refusal(workspace_members_delete_handler(StoreReply::Done(false))),
        (404, "Workspace member not found".to_string())
    );
    let members = workspace_members_list_handler(StoreReply::Done(vec![MemberRecord {
        user_id: "u".to_string(),
        email: None,
        display_name: "U".to_string(),
        status: "active".to_string(),
        role: "member".to_string(),
        joined_at: Timestamp { secs: 0, nanos: 0 },
        invited_by: Some("alice".to_string()),
    }]))
    .expect("members");
    assert_eq!(members[0].joined_at, "1970-01-01T00:00:00+00:00");
    assert_eq!(members[0].invited_by.as_deref(), Some("alice"));
}
