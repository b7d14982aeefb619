//! Shared workspaces: who may see and change them.

use vstd::prelude::*;
use crate::ids::{id_form, id_text, law_id_forms_are_distinct};
use crate::json::JsonValue;
use crate::text::same_text;
use crate::time::{rfc3339, rfc3339_of, Timestamp};
use crate::web::reply::{StatusCode, StoreReply};

verus! {

broadcast use vstd::string::group_string_axioms;

/// What a scope identifier of a workspace begins with.
pub const WORKSPACE_SCOPE_PREFIX: &'static str = "workspace:";

/// The workspace that a request names, if it names one.
#[derive(Debug)]
pub struct WorkspaceQuery {
    pub workspace: Option<String>,
}

/// A stored workspace.
#[derive(Debug)]
pub struct WorkspaceRecord {
    pub id: u128,
    pub name: String,
    pub slug: String,
    pub description: String,
    pub status: String,
    pub created_at: Timestamp,
    pub updated_at: Timestamp,
    pub created_by: String,
    pub settings: JsonValue,
}

impl WorkspaceRecord {
    /// Both times are in the calendar.
    pub open spec fn valid(self) -> bool {
        self.created_at.valid() && self.updated_at.valid()
    }
}

/// A workspace and a member's role in it.
#[derive(Debug)]
pub struct WorkspaceMembership {
    pub workspace: WorkspaceRecord,
    pub role: String,
}

/// A workspace that a user has access to, with their role.
#[derive(Debug)]
pub struct ResolvedWorkspace {
    pub workspace: WorkspaceRecord,
    pub role: String,
}

/// A refusal: a status and a message.
#[derive(Debug)]
pub struct ApiError {
    pub status: StatusCode,
    pub message: String,
}

/// The refusal carries this status and this message.
pub open spec fn says(e: ApiError, status: StatusCode, message: Seq<char>) -> bool {
    e.status == status && e.message@ == message
}

fn refuse(status: StatusCode, message: &str) -> (r: ApiError)
    ensures
        says(r, status, message@),
{
    ApiError { status, message: message.to_string() }
}

/// The scope under which the data of the workspace `id` is kept.
pub open spec fn scope_of(id: u128) -> Seq<char> {
    WORKSPACE_SCOPE_PREFIX@ + id_form(id)
}

/// The scope under which a workspace's data is kept.
pub fn workspace_scope_user_id(workspace_id: u128) -> (r: String)
    ensures
        r@ == scope_of(workspace_id),
{
    let mut scope = WORKSPACE_SCOPE_PREFIX.to_string();
    scope.append(id_text(workspace_id).as_str());
    scope
}

// ── Scope resolution ────────────────────────────────────────

/// The next step on the way to a workspace.
#[derive(Debug)]
pub enum ScopeStep {
    /// Look the workspace up by the requested name.
    FindWorkspace,
    /// Look up the user's role in this workspace.
    FindRole(WorkspaceRecord),
    /// Finished: the workspace, none where none was asked for, or a refusal.
    Finished(Result<Option<ResolvedWorkspace>, ApiError>),
}

/// Only a request that names a workspace needs one.
pub fn scope_start(workspace_slug: Option<&str>) -> (r: ScopeStep)
    ensures
        workspace_slug is None ==> r == ScopeStep::Finished(Ok(None)),
        workspace_slug is Some ==> r == ScopeStep::FindWorkspace,
{
    match workspace_slug {
        Some(_) => ScopeStep::FindWorkspace,
        None => ScopeStep::Finished(Ok(None)),
    }
}

/// The step is a refusal with this status and this message.
pub open spec fn refuses(step: ScopeStep, status: StatusCode, message: Seq<char>) -> bool {
    step matches ScopeStep::Finished(Err(e)) && says(e, status, message)
}

/// A refusal of the store: it is missing or it failed.
pub open spec fn store_refusal<T>(reply: StoreReply<T>, e: ApiError) -> bool {
    match reply {
        StoreReply::NoStore => says(e, StatusCode::ServiceUnavailable, "Database not available"@),
        StoreReply::Failed => says(
            e,
            StatusCode::InternalServerError,
            "Internal database error"@,
        ),
        StoreReply::Done(_) => false,
    }
}

fn database_answer<T>(reply: StoreReply<T>) -> (r: Result<T, ApiError>)
    ensures
        (match reply {
            StoreReply::Done(value) => r == Ok::<T, ApiError>(value),
            _ => r is Err && store_refusal(reply, r->Err_0),
        }),
{
    match reply {
        StoreReply::NoStore => Err(
            refuse(StatusCode::ServiceUnavailable, "Database not available"),
        ),
        StoreReply::Failed => Err(
            refuse(StatusCode::InternalServerError, "Internal database error"),
        ),
        StoreReply::Done(value) => Ok(value),
    }
}

/// After the workspace was looked up: an unknown one is not found, an
/// archived one is gone, and of any other the user's role is asked.
pub fn scope_found(reply: StoreReply<Option<WorkspaceRecord>>) -> (r: ScopeStep)
    ensures
        (match reply {
            StoreReply::Done(Some(workspace)) => if workspace.status@ == "archived"@ {
                refuses(r, StatusCode::Gone, "Workspace is archived"@)
            } else {
                r == ScopeStep::FindRole(workspace)
            },
            StoreReply::Done(None) => refuses(r, StatusCode::NotFound, "Workspace not found"@),
            _ => r matches ScopeStep::Finished(Err(e)) && store_refusal(reply, e),
        }),
{
    match database_answer(reply) {
        Ok(Some(workspace)) => {
            if same_text(workspace.status.as_str(), "archived") {
                return ScopeStep::Finished(
                    Err(refuse(StatusCode::Gone, "Workspace is archived")),
                );
            }
            ScopeStep::FindRole(workspace)
        },
        Ok(None) => ScopeStep::Finished(Err(refuse(StatusCode::NotFound, "Workspace not found"))),
        Err(e) => ScopeStep::Finished(Err(e)),
    }
}

/// After the role was looked up: who has none has no access.
pub fn scope_role(workspace: WorkspaceRecord, reply: StoreReply<Option<String>>) -> (r: Result<
    ResolvedWorkspace,
    ApiError,
>)
    ensures
        (match reply {
            StoreReply::Done(Some(role)) => r is Ok && r->Ok_0 == (ResolvedWorkspace {
                workspace,
                role,
            }),
            StoreReply::Done(None) => r is Err && says(
                r->Err_0,
                StatusCode::Forbidden,
                "Workspace access denied"@,
            ),
            _ => r is Err && store_refusal(reply, r->Err_0),
        }),
{
    match database_answer(reply) {
        Ok(Some(role)) => Ok(ResolvedWorkspace { workspace, role }),
        Ok(None) => Err(refuse(StatusCode::Forbidden, "Workspace access denied")),
        Err(e) => Err(e),
    }
}

/// The refusal that the two lookups lead to, or none where the user has
/// access: an unknown, archived or closed workspace, in this order.
pub open spec fn scope_refusal(
    workspace: StoreReply<Option<WorkspaceRecord>>,
    role: StoreReply<Option<String>>,
    e: ApiError,
) -> bool {
    match workspace {
        StoreReply::Done(Some(w)) => if w.status@ == "archived"@ {
            says(e, StatusCode::Gone, "Workspace is archived"@)
        } else {
            match role {
                StoreReply::Done(Some(_)) => false,
                StoreReply::Done(None) => says(
                    e,
                    StatusCode::Forbidden,
                    "Workspace access denied"@,
                ),
                _ => store_refusal(role, e),
            }
        },
        StoreReply::Done(None) => says(e, StatusCode::NotFound, "Workspace not found"@),
        _ => store_refusal(workspace, e),
    }
}

/// The two lookups give the user access.
pub open spec fn scope_grants(
    workspace: StoreReply<Option<WorkspaceRecord>>,
    role: StoreReply<Option<String>>,
) -> bool {
    workspace matches StoreReply::Done(Some(w)) && w.status@ != "archived"@
        && role matches StoreReply::Done(Some(_))
}

/// What the two lookups lead to for a request that names a workspace.
pub open spec fn scope_outcome(
    workspace: StoreReply<Option<WorkspaceRecord>>,
    role: StoreReply<Option<String>>,
    r: Result<Option<ResolvedWorkspace>, ApiError>,
) -> bool {
    if scope_grants(workspace, role) {
        r is Ok && r->Ok_0 == Some(
            (ResolvedWorkspace { workspace: workspace->Done_0->0, role: role->Done_0->0 }),
        )
    } else {
        r is Err && scope_refusal(workspace, role, r->Err_0)
    }
}

/// The workspace that a request is about, from what the two lookups gave. A
/// lookup that the steps do not ask for does not count.
pub fn resolve_workspace_scope(
    workspace_slug: Option<&str>,
    workspace: StoreReply<Option<WorkspaceRecord>>,
    role: StoreReply<Option<String>>,
) -> (r: Result<Option<ResolvedWorkspace>, ApiError>)
    ensures
        workspace_slug is None ==> r == Ok::<Option<ResolvedWorkspace>, ApiError>(None),
        workspace_slug is Some ==> scope_outcome(workspace, role, r),
{
    match scope_start(workspace_slug) {
        ScopeStep::Finished(outcome) => outcome,
        _ => match scope_found(workspace) {
            ScopeStep::FindRole(found) => match scope_role(found, role) {
                Ok(resolved) => Ok(Some(resolved)),
                Err(e) => Err(e),
            },
            ScopeStep::Finished(outcome) => outcome,
            ScopeStep::FindWorkspace => Ok(None),
        },
    }
}

/// Roles that may change a workspace.
pub open spec fn is_manager(role: Seq<char>) -> bool {
    role == "owner"@ || role == "admin"@
}

/// Refuses whoever may not change a workspace.
pub fn require_workspace_manager(role: &str) -> (r: Result<(), ApiError>)
    ensures
        r is Ok == is_manager(role@),
        r is Err ==> says(
            r->Err_0,
            StatusCode::Forbidden,
            "Workspace admin or owner role required"@,
        ),
{
    if same_text(role, "owner") || same_text(role, "admin") {
        Ok(())
    } else {
        Err(refuse(StatusCode::Forbidden, "Workspace admin or owner role required"))
    }
}

/// What a request about one workspace needs first: a store, and access.
pub open spec fn access_refusal(
    has_store: bool,
    scope: Result<Option<ResolvedWorkspace>, ApiError>,
    e: ApiError,
) -> bool {
    if !has_store {
        says(e, StatusCode::ServiceUnavailable, "Database not available"@)
    } else {
        match scope {
            Ok(Some(_)) => false,
            Ok(None) => says(e, StatusCode::NotFound, "Workspace not found"@),
            Err(cause) => e == cause,
        }
    }
}

/// The workspace that a request is about, or the refusal.
pub fn require_access(has_store: bool, scope: Result<Option<ResolvedWorkspace>, ApiError>) -> (r:
    Result<ResolvedWorkspace, ApiError>)
    ensures
        r is Ok == (has_store && scope is Ok && scope->Ok_0 is Some),
        r is Ok ==> r->Ok_0 == scope->Ok_0->0,
        r is Err ==> access_refusal(has_store, scope, r->Err_0),
{
    if !has_store {
        return Err(refuse(StatusCode::ServiceUnavailable, "Database not available"));
    }
    match scope {
        Ok(Some(resolved)) => Ok(resolved),
        Ok(None) => Err(refuse(StatusCode::NotFound, "Workspace not found")),
        Err(e) => Err(e),
    }
}

/// Why a change is refused: no store, no access, or a role that may not make it.
pub open spec fn change_refusal(
    has_store: bool,
    scope: Result<Option<ResolvedWorkspace>, ApiError>,
    e: ApiError,
) -> bool {
    if has_store && scope is Ok && scope->Ok_0 is Some {
        says(e, StatusCode::Forbidden, "Workspace admin or owner role required"@)
    } else {
        access_refusal(has_store, scope, e)
    }
}

/// The workspace that a change is about, where the user may make it.
pub fn require_change(has_store: bool, scope: Result<Option<ResolvedWorkspace>, ApiError>) -> (r:
    Result<ResolvedWorkspace, ApiError>)
    ensures
        r is Ok == (has_store && scope is Ok && scope->Ok_0 is Some && is_manager(
            scope->Ok_0->0.role@,
        )),
        r is Ok ==> r->Ok_0 == scope->Ok_0->0,
        r matches Err(e) ==> change_refusal(has_store, scope, e),
{
    let resolved = match require_access(has_store, scope) {
        Ok(resolved) => resolved,
        Err(e) => {
            return Err(e);
        },
    };
    match require_workspace_manager(resolved.role.as_str()) {
        Ok(_) => Ok(resolved),
        Err(e) => Err(e),
    }
}

// ── Changes ─────────────────────────────────────────────────

/// A change that a user asks for.
#[derive(Debug)]
pub enum WorkspaceChange {
    Update { name: String, description: String, settings: JsonValue },
    Archive,
    PutMember { member_user_id: String, role: String },
    RemoveMember { member_user_id: String },
}

/// What the store is asked to do for a change.
#[derive(Debug)]
pub enum WorkspaceCall {
    Update { workspace_id: u128, name: String, description: String, settings: JsonValue },
    Archive { workspace_id: u128 },
    AddMember { workspace_id: u128, member_user_id: String, role: String, invited_by: String },
    RemoveMember { workspace_id: u128, member_user_id: String },
}

/// `call` makes the change `change` to the workspace `workspace_id`, for the
/// user `user_id`.
pub open spec fn makes_change(
    call: WorkspaceCall,
    workspace_id: u128,
    user_id: Seq<char>,
    change: WorkspaceChange,
) -> bool {
    match change {
        WorkspaceChange::Update { name, description, settings } => call == (WorkspaceCall::Update {
            workspace_id,
            name,
            description,
            settings,
        }),
        WorkspaceChange::Archive => call == (WorkspaceCall::Archive { workspace_id }),
        WorkspaceChange::PutMember { member_user_id, role } => {
            call matches WorkspaceCall::AddMember {
                workspace_id: id,
                member_user_id: member,
                role: given,
                invited_by,
            } && id == workspace_id && member == member_user_id && given == role && invited_by@
                == user_id
        },
        WorkspaceChange::RemoveMember { member_user_id } => call == (
        WorkspaceCall::RemoveMember { workspace_id, member_user_id }),
    }
}

/// A change that may be made: the call for it, and the user's role.
#[derive(Debug)]
pub struct PlannedChange {
    pub call: WorkspaceCall,
    pub role: String,
}

/// The user may make changes to the workspace that was resolved.
pub open spec fn change_granted(
    has_store: bool,
    scope: Result<Option<ResolvedWorkspace>, ApiError>,
) -> bool {
    has_store && scope is Ok && scope->Ok_0 is Some && is_manager(scope->Ok_0->0.role@)
}

/// What to ask of the store for a change to the workspace that was resolved; or
/// the refusal.
pub fn plan_change(
    has_store: bool,
    scope: Result<Option<ResolvedWorkspace>, ApiError>,
    user_id: &str,
    change: WorkspaceChange,
) -> (r: Result<PlannedChange, ApiError>)
    ensures
        r is Ok == change_granted(has_store, scope),
        r matches Ok(plan) ==> plan.role == scope->Ok_0->0.role && makes_change(
            plan.call,
            scope->Ok_0->0.workspace.id,
            user_id@,
            change,
        ),
        r matches Err(e) ==> change_refusal(has_store, scope, e),
{
    let resolved = match require_change(has_store, scope) {
        Ok(resolved) => resolved,
        Err(e) => {
            return Err(e);
        },
    };
    let workspace_id: u128 = resolved.workspace.id;
    let call = match change {
        WorkspaceChange::Update { name, description, settings } => WorkspaceCall::Update {
            workspace_id,
            name,
            description,
            settings,
        },
        WorkspaceChange::Archive => WorkspaceCall::Archive { workspace_id },
        WorkspaceChange::PutMember { member_user_id, role } => WorkspaceCall::AddMember {
            workspace_id,
            member_user_id,
            role,
            invited_by: user_id.to_string(),
        },
        WorkspaceChange::RemoveMember { member_user_id } => WorkspaceCall::RemoveMember {
            workspace_id,
            member_user_id,
        },
    };
    Ok(PlannedChange { call, role: resolved.role })
}

// ── Answers ─────────────────────────────────────────────────

/// A workspace as it is sent out.
#[derive(Debug)]
pub struct WorkspaceInfo {
    pub id: u128,
    pub name: String,
    pub slug: String,
    pub description: String,
    pub status: String,
    pub role: String,
    pub created_at: String,
    pub updated_at: String,
    pub created_by: String,
    pub settings: JsonValue,
}

/// `info` shows the workspace `w` to a user with the role `role`.
pub open spec fn info_shows(info: WorkspaceInfo, w: WorkspaceRecord, role: Seq<char>) -> bool {
    &&& info.id == w.id
    &&& info.name == w.name
    &&& info.slug == w.slug
    &&& info.description == w.description
    &&& info.status == w.status
    &&& info.role@ == role
    &&& info.created_at@ == rfc3339_of(w.created_at.secs, w.created_at.nanos)
    &&& info.updated_at@ == rfc3339_of(w.updated_at.secs, w.updated_at.nanos)
    &&& info.created_by == w.created_by
    &&& info.settings == w.settings
}

/// A workspace for a user with a role in it.
pub fn workspace_info(workspace: WorkspaceRecord, role: String) -> (r: WorkspaceInfo)
    requires
        workspace.valid(),
    ensures
        info_shows(r, workspace, role@),
{
    let created_at = rfc3339(workspace.created_at);
    let updated_at = rfc3339(workspace.updated_at);
    WorkspaceInfo {
        id: workspace.id,
        name: workspace.name,
        slug: workspace.slug,
        description: workspace.description,
        status: workspace.status,
        role,
        created_at,
        updated_at,
        created_by: workspace.created_by,
        settings: workspace.settings,
    }
}

/// A member's workspace.
pub fn workspace_info_from_membership(membership: WorkspaceMembership) -> (r: WorkspaceInfo)
    requires
        membership.workspace.valid(),
    ensures
        info_shows(r, membership.workspace, membership.role@),
{
    workspace_info(membership.workspace, membership.role)
}

/// The user's workspaces, in the store's order.
pub fn workspaces_list_handler(reply: StoreReply<Vec<WorkspaceMembership>>) -> (r: Result<
    Vec<WorkspaceInfo>,
    ApiError,
>)
    requires
        reply matches StoreReply::Done(list) ==> forall|i: int|
            0 <= i < list@.len() ==> (#[trigger] list@[i]).workspace.valid(),
    ensures
        (match reply {
            StoreReply::Done(list) => r is Ok && r->Ok_0@.len() == list@.len() && forall|i: int|
                0 <= i < list@.len() ==> info_shows(
                    #[trigger] r->Ok_0@[i],
                    list@[i].workspace,
                    list@[i].role@,
                ),
            _ => r is Err && store_refusal(reply, r->Err_0),
        }),
{
    match database_answer(reply) {
        Ok(list) => {
            let ghost all = list@;
            let mut rest: Vec<WorkspaceMembership> = list;
            let mut out: Vec<WorkspaceInfo> = Vec::new();
            while rest.len() > 0
                invariant
                    out.len() + rest.len() == all.len(),
                    rest@ == all.skip(out.len() as int),
                    forall|i: int| 0 <= i < all.len() ==> (#[trigger] all[i]).workspace.valid(),
                    forall|i: int|
                        0 <= i < out.len() ==> info_shows(
                            #[trigger] out@[i],
                            all[i].workspace,
                            all[i].role@,
                        ),
                decreases rest.len(),
            {
                assert(rest@[0] == all[out.len() as int]);
                let membership = rest.remove(0);
                out.push(workspace_info_from_membership(membership));
                assert(rest@ =~= all.skip(out.len() as int));
            }
            Ok(out)
        },
        Err(e) => Err(e),
    }
}

/// A new workspace belongs to its creator.
pub fn workspaces_create_handler(reply: StoreReply<WorkspaceRecord>) -> (r: Result<
    WorkspaceInfo,
    ApiError,
>)
    requires
        reply matches StoreReply::Done(workspace) ==> workspace.valid(),
    ensures
        (match reply {
            StoreReply::Done(workspace) => r is Ok && info_shows(r->Ok_0, workspace, "owner"@),
            _ => r is Err && store_refusal(reply, r->Err_0),
        }),
{
    match database_answer(reply) {
        Ok(workspace) => Ok(workspace_info(workspace, "owner".to_string())),
        Err(e) => Err(e),
    }
}

/// One workspace, for who has access to it.
pub fn workspaces_detail_handler(
    has_store: bool,
    scope: Result<Option<ResolvedWorkspace>, ApiError>,
) -> (r: Result<WorkspaceInfo, ApiError>)
    requires
        scope matches Ok(Some(resolved)) ==> resolved.workspace.valid(),
    ensures
        r is Ok == (has_store && scope is Ok && scope->Ok_0 is Some),
        r is Ok ==> info_shows(r->Ok_0, scope->Ok_0->0.workspace, scope->Ok_0->0.role@),
        r is Err ==> access_refusal(has_store, scope, r->Err_0),
{
    match require_access(has_store, scope) {
        Ok(resolved) => Ok(workspace_info(resolved.workspace, resolved.role)),
        Err(e) => Err(e),
    }
}

/// The answer to an update by a user with the role `role`, from what the
/// store gave back.
pub fn workspaces_update_handler(role: String, reply: StoreReply<Option<WorkspaceRecord>>) -> (r:
    Result<WorkspaceInfo, ApiError>)
    requires
        reply matches StoreReply::Done(Some(workspace)) ==> workspace.valid(),
    ensures
        (match reply {
            StoreReply::Done(Some(workspace)) => r is Ok && info_shows(
                r->Ok_0,
                workspace,
                role@,
            ),
            StoreReply::Done(None) => r is Err && says(
                r->Err_0,
                StatusCode::NotFound,
                "Workspace not found"@,
            ),
            _ => r is Err && store_refusal(reply, r->Err_0),
        }),
{
    match database_answer(reply) {
        Ok(Some(workspace)) => Ok(workspace_info(workspace, role)),
        Ok(None) => Err(refuse(StatusCode::NotFound, "Workspace not found")),
        Err(e) => Err(e),
    }
}

/// The answer to a change that finds its object or not: 204, or 404 with a
/// message.
pub open spec fn change_answer(
    reply: StoreReply<bool>,
    missing: Seq<char>,
    r: Result<StatusCode, ApiError>,
) -> bool {
    match reply {
        StoreReply::Done(found) => if found {
            r is Ok && r->Ok_0 == StatusCode::NoContent
        } else {
            r is Err && says(r->Err_0, StatusCode::NotFound, missing)
        },
        _ => r is Err && store_refusal(reply, r->Err_0),
    }
}

fn answer_change(reply: StoreReply<bool>, missing: &str) -> (r: Result<StatusCode, ApiError>)
    ensures
        change_answer(reply, missing@, r),
{
    match database_answer(reply) {
        Ok(found) => {
            if found {
                Ok(StatusCode::NoContent)
            } else {
                Err(refuse(StatusCode::NotFound, missing))
            }
        },
        Err(e) => Err(e),
    }
}

/// The answer to archiving a workspace.
pub fn workspaces_archive_handler(reply: StoreReply<bool>) -> (r: Result<StatusCode, ApiError>)
    ensures
        change_answer(reply, "Workspace not found"@, r),
{
    answer_change(reply, "Workspace not found")
}

/// A stored member of a workspace.
#[derive(Debug)]
pub struct MemberRecord {
    pub user_id: String,
    pub email: Option<String>,
    pub display_name: String,
    pub status: String,
    pub role: String,
    pub joined_at: Timestamp,
    pub invited_by: Option<String>,
}

/// A member as they are sent out.
#[derive(Debug)]
pub struct WorkspaceMemberInfo {
    pub user_id: String,
    pub email: Option<String>,
    pub display_name: String,
    pub status: String,
    pub role: String,
    pub joined_at: String,
    pub invited_by: Option<String>,
}

/// `info` shows the member `m`.
pub open spec fn member_shows(info: WorkspaceMemberInfo, m: MemberRecord) -> bool {
    &&& info.user_id == m.user_id
    &&& info.email == m.email
    &&& info.display_name == m.display_name
    &&& info.status == m.status
    &&& info.role == m.role
    &&& info.joined_at@ == rfc3339_of(m.joined_at.secs, m.joined_at.nanos)
    &&& info.invited_by == m.invited_by
}

fn member_info(m: MemberRecord) -> (r: WorkspaceMemberInfo)
    requires
        m.joined_at.valid(),
    ensures
        member_shows(r, m),
{
    let joined_at = rfc3339(m.joined_at);
    WorkspaceMemberInfo {
        user_id: m.user_id,
        email: m.email,
        display_name: m.display_name,
        status: m.status,
        role: m.role,
        joined_at,
        invited_by: m.invited_by,
    }
}

/// The members of a workspace, in the store's order.
pub fn workspace_members_list_handler(reply: StoreReply<Vec<MemberRecord>>) -> (r: Result<
    Vec<WorkspaceMemberInfo>,
    ApiError,
>)
    requires
        reply matches StoreReply::Done(list) ==> forall|i: int|
            0 <= i < list@.len() ==> (#[trigger] list@[i]).joined_at.valid(),
    ensures
        (match reply {
            StoreReply::Done(list) => r is Ok && r->Ok_0@.len() == list@.len() && forall|i: int|
                0 <= i < list@.len() ==> member_shows(#[trigger] r->Ok_0@[i], list@[i]),
            _ => r is Err && store_refusal(reply, r->Err_0),
        }),
{
    match database_answer(reply) {
        Ok(list) => {
            let ghost all = list@;
            let mut rest: Vec<MemberRecord> = list;
            let mut out: Vec<WorkspaceMemberInfo> = Vec::new();
            while rest.len() > 0
                invariant
                    out.len() + rest.len() == all.len(),
                    rest@ == all.skip(out.len() as int),
                    forall|i: int| 0 <= i < all.len() ==> (#[trigger] all[i]).joined_at.valid(),
                    forall|i: int| 0 <= i < out.len() ==> member_shows(#[trigger] out@[i], all[i]),
                decreases rest.len(),
            {
                assert(rest@[0] == all[out.len() as int]);
                let m = rest.remove(0);
                out.push(member_info(m));
                assert(rest@ =~= all.skip(out.len() as int));
            }
            Ok(out)
        },
        Err(e) => Err(e),
    }
}

/// The answer to adding a member or changing their role.
pub fn workspace_members_upsert_handler(reply: StoreReply<()>) -> (r: Result<
    StatusCode,
    ApiError,
>)
    ensures
        (match reply {
            StoreReply::Done(_) => r is Ok && r->Ok_0 == StatusCode::NoContent,
            _ => r is Err && store_refusal(reply, r->Err_0),
        }),
{
    match database_answer(reply) {
        Ok(_) => Ok(StatusCode::NoContent),
        Err(e) => Err(e),
    }
}

/// The answer to removing a member.
pub fn workspace_members_delete_handler(reply: StoreReply<bool>) -> (r: Result<
    StatusCode,
    ApiError,
>)
    ensures
        change_answer(reply, "Workspace member not found"@, r),
{
    answer_change(reply, "Workspace member not found")
}

// ── Laws ────────────────────────────────────────────────────

/// An archived workspace answers everyone alike: it is gone, whatever role
/// the user has in it.
pub proof fn law_archived_is_gone_for_everyone(
    workspace: StoreReply<Option<WorkspaceRecord>>,
    role: StoreReply<Option<String>>,
    e: ApiError,
)
    requires
        workspace matches StoreReply::Done(Some(w)) && w.status@ == "archived"@,
    ensures
        !scope_grants(workspace, role),
        scope_refusal(workspace, role, e) == says(e, StatusCode::Gone, "Workspace is archived"@),
{
}

/// A change is made only where the workspace exists and is not archived and the
/// store gave the user's role in it as owner or admin; and there it is.
pub proof fn law_only_managers_change_workspaces(
    has_store: bool,
    workspace: StoreReply<Option<WorkspaceRecord>>,
    role: StoreReply<Option<String>>,
    scope: Result<Option<ResolvedWorkspace>, ApiError>,
)
    requires
        scope_outcome(workspace, role, scope),
    ensures
        change_granted(has_store, scope) <==> has_store && {
            &&& workspace matches StoreReply::Done(Some(w))
            &&& w.status@ != "archived"@
            &&& role matches StoreReply::Done(Some(text))
            &&& text@ == "owner"@ || text@ == "admin"@
        },
{
}

/// A change touches the workspace that was looked up and no other.
pub proof fn law_changes_stay_in_their_workspace(
    call: WorkspaceCall,
    workspace_id: u128,
    user_id: Seq<char>,
    change: WorkspaceChange,
)
    requires
        makes_change(call, workspace_id, user_id, change),
    ensures
        (match call {
            WorkspaceCall::Update { workspace_id: id, .. } => id,
            WorkspaceCall::Archive { workspace_id: id } => id,
            WorkspaceCall::AddMember { workspace_id: id, .. } => id,
            WorkspaceCall::RemoveMember { workspace_id: id, .. } => id,
        }) == workspace_id,
{
}

/// Different workspaces have different scopes.
pub proof fn law_scopes_are_distinct(a: u128, b: u128)
    requires
        scope_of(a) == scope_of(b),
    ensures
        a == b,
{
    let p = WORKSPACE_SCOPE_PREFIX@;
    assert(scope_of(a).skip(p.len() as int) =~= id_form(a));
    assert(scope_of(b).skip(p.len() as int) =~= id_form(b));
    law_id_forms_are_distinct(a, b);
}

/// A scope begins with `workspace:` and goes on with the workspace's identifier.
pub proof fn law_scopes_name_their_workspace(id: u128, r: String)
    requires
        call_ensures(workspace_scope_user_id, (id,), r),
    ensures
        r@ == "workspace:"@ + id_form(id),
{
}

/// A request that names no workspace looks none up; one that names a workspace
/// looks it up, and asks for a role only in one that is there and not archived.
pub proof fn law_lookups_are_asked_for(
    slug: Option<&str>,
    start: ScopeStep,
    reply: StoreReply<Option<WorkspaceRecord>>,
    found: ScopeStep,
)
    requires
        call_ensures(scope_start, (slug,), start),
        call_ensures(scope_found, (reply,), found),
    ensures
        start is FindWorkspace <==> slug is Some,
        slug is None ==> (start matches ScopeStep::Finished(Ok(x)) && x is None),
        found is FindRole <==> (reply matches StoreReply::Done(Some(w)) && w.status@
            != "archived"@),
        found matches ScopeStep::FindRole(w) ==> reply matches StoreReply::Done(Some(x)) && x == w,
        !(found is FindWorkspace),
        !(found is FindRole) ==> found matches ScopeStep::Finished(Err(_)),
{
}

/// Why a request that names a workspace is refused: 503 without a store, 500
/// where it fails, 404 for an unknown workspace, 410 for an archived one and 403
/// for a user without a role, the first that holds; else the user gets the
/// workspace that was found, with the role that was found.
pub proof fn law_workspaces_are_resolved(
    slug: Option<&str>,
    workspace: StoreReply<Option<WorkspaceRecord>>,
    role: StoreReply<Option<String>>,
    r: Result<Option<ResolvedWorkspace>, ApiError>,
)
    requires
        call_ensures(resolve_workspace_scope, (slug, workspace, role), r),
    ensures
        slug is None ==> (r matches Ok(x) && x is None),
        slug is Some ==> !(r matches Ok(None)),
        slug is Some && workspace is NoStore ==> (r matches Err(e) && e.status
            is ServiceUnavailable && e.message@ == "Database not available"@),
        slug is Some && workspace is Failed ==> (r matches Err(e) && e.status
            is InternalServerError && e.message@ == "Internal database error"@),
        slug is Some ==> (workspace matches StoreReply::Done(None) ==> (r matches Err(e)
            && e.status is NotFound && e.message@ == "Workspace not found"@)),
        slug is Some ==> (workspace matches StoreReply::Done(Some(w)) ==> {
            &&& w.status@ == "archived"@ ==> (r matches Err(e) && e.status is Gone && e.message@
                == "Workspace is archived"@)
            &&& w.status@ != "archived"@ ==> {
                &&& role is NoStore ==> (r matches Err(e) && e.status is ServiceUnavailable
                    && e.message@ == "Database not available"@)
                &&& role is Failed ==> (r matches Err(e) && e.status is InternalServerError
                    && e.message@ == "Internal database error"@)
                &&& role matches StoreReply::Done(None) ==> (r matches Err(e) && e.status
                    is Forbidden && e.message@ == "Workspace access denied"@)
                &&& role matches StoreReply::Done(Some(held)) ==> (r matches Ok(Some(x))
                    && x.workspace == w && x.role@ == held@)
            }
        }),
{
}

/// The second half of the way to a workspace agrees with the whole.
pub proof fn law_roles_are_asked_for(
    slug: Option<&str>,
    workspace: WorkspaceRecord,
    role: StoreReply<Option<String>>,
    r: Result<ResolvedWorkspace, ApiError>,
    whole: Result<Option<ResolvedWorkspace>, ApiError>,
)
    requires
        slug is Some,
        workspace.status@ != "archived"@,
        call_ensures(scope_role, (workspace, role), r),
        call_ensures(
            resolve_workspace_scope,
            (slug, StoreReply::Done(Some(workspace)), role),
            whole,
        ),
    ensures
        r matches Ok(x) ==> (whole matches Ok(Some(y)) && x == y),
        r matches Err(e) ==> (whole matches Err(d) && e.status == d.status && e.message@
            == d.message@),
{
}

/// Owners and admins may change a workspace, and nobody else; the others are
/// refused with 403.
pub proof fn law_managers(role: &str, r: Result<(), ApiError>)
    requires
        call_ensures(require_workspace_manager, (role,), r),
    ensures
        r is Ok <==> role@ == "owner"@ || role@ == "admin"@,
        r matches Err(e) ==> e.status is Forbidden && e.message@
            == "Workspace admin or owner role required"@,
{
}

/// Access needs a store and a workspace that was resolved; a change needs
/// besides that the user owns or administers it. A refusal of the resolution is
/// handed on.
pub proof fn law_access_is_required(
    has_store: bool,
    scope: Result<Option<ResolvedWorkspace>, ApiError>,
    access: Result<ResolvedWorkspace, ApiError>,
    change: Result<ResolvedWorkspace, ApiError>,
)
    requires
        call_ensures(require_access, (has_store, scope), access),
        call_ensures(require_change, (has_store, scope), change),
    ensures
        !has_store ==> (access matches Err(e) && e.status is ServiceUnavailable && e.message@
            == "Database not available"@),
        !has_store ==> (change matches Err(e) && e.status is ServiceUnavailable && e.message@
            == "Database not available"@),
        has_store ==> (scope matches Err(cause) ==> access == Err::<ResolvedWorkspace, ApiError>(
            cause,
        ) && change == Err::<ResolvedWorkspace, ApiError>(cause)),
        has_store ==> (scope matches Ok(None) ==> (access matches Err(e) && e.status is NotFound
            && e.message@ == "Workspace not found"@) && (change matches Err(d) && d.status
            is NotFound && d.message@ == "Workspace not found"@)),
        has_store ==> (scope matches Ok(Some(x)) ==> {
            &&& access == Ok::<ResolvedWorkspace, ApiError>(x)
            &&& x.role@ == "owner"@ || x.role@ == "admin"@ ==> change == Ok::<
                ResolvedWorkspace,
                ApiError,
            >(x)
            &&& x.role@ != "owner"@ && x.role@ != "admin"@ ==> (change matches Err(e) && e.status
                is Forbidden && e.message@ == "Workspace admin or owner role required"@)
        }),
{
}

/// A change that may be made becomes the one call for it: to the workspace that
/// was resolved, with what the change holds, and for a new member in the name of
/// the user who asked for it.
pub proof fn law_changes_are_planned(
    has_store: bool,
    scope: Result<Option<ResolvedWorkspace>, ApiError>,
    user_id: &str,
    change: WorkspaceChange,
    r: Result<PlannedChange, ApiError>,
)
    requires
        call_ensures(plan_change, (has_store, scope, user_id, change), r),
    ensures
        r is Ok <==> has_store && (scope matches Ok(Some(x)) && (x.role@ == "owner"@ || x.role@
            == "admin"@)),
        !has_store ==> (r matches Err(e) && e.status is ServiceUnavailable),
        has_store ==> (scope matches Ok(Some(x)) ==> r matches Err(e) ==> e.status is Forbidden),
        has_store ==> (scope matches Ok(None) ==> (r matches Err(e) && e.status is NotFound)),
        has_store ==> (scope matches Err(cause) ==> (r matches Err(e) && e == cause)),
        r matches Ok(plan) ==> {
            let x = scope->Ok_0->0;
            &&& plan.role == x.role
            &&& change matches WorkspaceChange::Update { name, description, settings } ==> (
            plan.call matches WorkspaceCall::Update {
                workspace_id: id,
                name: n,
                description: d,
                settings: s,
            } && id == x.workspace.id && n == name && d == description && s == settings)
            &&& change is Archive ==> (plan.call matches WorkspaceCall::Archive { workspace_id: id }
                && id == x.workspace.id)
            &&& change matches WorkspaceChange::PutMember { member_user_id, role } ==> (
            plan.call matches WorkspaceCall::AddMember {
                workspace_id: id,
                member_user_id: m,
                role: g,
                invited_by: by,
            } && id == x.workspace.id && m == member_user_id && g == role && by@ == user_id@)
            &&& change matches WorkspaceChange::RemoveMember { member_user_id } ==> (
            plan.call matches WorkspaceCall::RemoveMember { workspace_id: id, member_user_id: m }
                && id == x.workspace.id && m == member_user_id)
        },
{
}

/// A workspace is shown with all that is stored of it and the user's own role;
/// who created it is its owner.
pub proof fn law_workspaces_are_shown(
    w: WorkspaceRecord,
    role: String,
    r: WorkspaceInfo,
    created: Result<WorkspaceInfo, ApiError>,
    m: WorkspaceMembership,
    of_member: WorkspaceInfo,
)
    requires
        call_ensures(workspace_info, (w, role), r),
        call_ensures(workspaces_create_handler, (StoreReply::Done(w),), created),
        call_ensures(workspace_info_from_membership, (m,), of_member),
    ensures
        r.id == w.id && r.name@ == w.name@ && r.slug@ == w.slug@,
        r.description@ == w.description@ && r.status@ == w.status@,
        r.created_by@ == w.created_by@ && r.settings == w.settings,
        r.role@ == role@,
        r.created_at@ == rfc3339_of(w.created_at.secs, w.created_at.nanos),
        r.updated_at@ == rfc3339_of(w.updated_at.secs, w.updated_at.nanos),
        created matches Ok(x) && x.role@ == "owner"@ && x.id == w.id && x.name@ == w.name@
            && x.slug@ == w.slug@ && x.description@ == w.description@ && x.status@ == w.status@
            && x.created_by@ == w.created_by@ && x.settings == w.settings,
        of_member.id == m.workspace.id && of_member.role@ == m.role@ && of_member.name@
            == m.workspace.name@ && of_member.slug@ == m.workspace.slug@ && of_member.status@
            == m.workspace.status@ && of_member.description@ == m.workspace.description@,
{
}

/// The workspaces of a user come in the store's order, each with the user's role
/// in it.
pub proof fn law_workspaces_are_listed(
    reply: StoreReply<Vec<WorkspaceMembership>>,
    i: int,
    r: Result<Vec<WorkspaceInfo>, ApiError>,
)
    requires
        call_ensures(workspaces_list_handler, (reply,), r),
    ensures
        reply is NoStore ==> (r matches Err(e) && e.status is ServiceUnavailable),
        reply is Failed ==> (r matches Err(e) && e.status is InternalServerError),
        reply matches StoreReply::Done(list) ==> {
            &&& r is Ok
            &&& r->Ok_0@.len() == list@.len()
            &&& 0 <= i < list@.len() ==> {
                let x = r->Ok_0@[i];
                let w = list@[i].workspace;
                &&& x.id == w.id && x.name@ == w.name@ && x.slug@ == w.slug@
                &&& x.description@ == w.description@ && x.status@ == w.status@
                &&& x.created_by@ == w.created_by@ && x.settings == w.settings
                &&& x.role@ == list@[i].role@
                &&& x.created_at@ == rfc3339_of(w.created_at.secs, w.created_at.nanos)
                &&& x.updated_at@ == rfc3339_of(w.updated_at.secs, w.updated_at.nanos)
            }
        },
{
    if let StoreReply::Done(list) = reply {
        if 0 <= i < list@.len() {
            assert(info_shows(r->Ok_0@[i], list@[i].workspace, list@[i].role@));
        }
    }
}

/// One workspace is shown to whoever has access to it, and an updated one to
/// whoever updated it, as the store then has it.
pub proof fn law_one_workspace_is_shown(
    has_store: bool,
    scope: Result<Option<ResolvedWorkspace>, ApiError>,
    detail: Result<WorkspaceInfo, ApiError>,
    role: String,
    reply: StoreReply<Option<WorkspaceRecord>>,
    update: Result<WorkspaceInfo, ApiError>,
)
    requires
        call_ensures(workspaces_detail_handler, (has_store, scope), detail),
        call_ensures(workspaces_update_handler, (role, reply), update),
    ensures
        detail is Ok <==> has_store && scope matches Ok(Some(_)),
        !has_store ==> (detail matches Err(e) && e.status is ServiceUnavailable),
        has_store ==> (scope matches Ok(None) ==> (detail matches Err(e) && e.status is NotFound)),
        has_store ==> (scope matches Err(cause) ==> (detail matches Err(e) && e == cause)),
        detail matches Ok(x) ==> {
            let y = scope->Ok_0->0;
            &&& x.id == y.workspace.id && x.name@ == y.workspace.name@
            &&& x.slug@ == y.workspace.slug@ && x.status@ == y.workspace.status@
            &&& x.description@ == y.workspace.description@ && x.settings == y.workspace.settings
            &&& x.role@ == y.role@
        },
        reply matches StoreReply::Done(Some(w)) ==> (update matches Ok(x) && x.id == w.id
            && x.name@ == w.name@ && x.slug@ == w.slug@ && x.status@ == w.status@
            && x.description@ == w.description@ && x.settings == w.settings && x.role@ == role@),
        reply matches StoreReply::Done(None) ==> (update matches Err(e) && e.status is NotFound
            && e.message@ == "Workspace not found"@),
        reply is NoStore ==> (update matches Err(e) && e.status is ServiceUnavailable),
        reply is Failed ==> (update matches Err(e) && e.status is InternalServerError),
{
}

/// Archiving and removing answer 204 where there was something to archive or to
/// remove, and 404 with what was missing where there was not; adding a member
/// answers 204.
pub proof fn law_changes_are_answered(
    reply: StoreReply<bool>,
    archived: Result<StatusCode, ApiError>,
    removed: Result<StatusCode, ApiError>,
    put: StoreReply<()>,
    added: Result<StatusCode, ApiError>,
)
    requires
        call_ensures(workspaces_archive_handler, (reply,), archived),
        call_ensures(workspace_members_delete_handler, (reply,), removed),
        call_ensures(workspace_members_upsert_handler, (put,), added),
    ensures
        reply matches StoreReply::Done(found) ==> {
            &&& found ==> (archived matches Ok(s) && s is NoContent)
            &&& found ==> (removed matches Ok(s) && s is NoContent)
            &&& !found ==> (archived matches Err(e) && e.status is NotFound && e.message@
                == "Workspace not found"@)
            &&& !found ==> (removed matches Err(e) && e.status is NotFound && e.message@
                == "Workspace member not found"@)
        },
        reply is NoStore ==> (archived matches Err(e) && e.status is ServiceUnavailable),
        reply is NoStore ==> (removed matches Err(e) && e.status is ServiceUnavailable),
        reply is Failed ==> (archived matches Err(e) && e.status is InternalServerError),
        reply is Failed ==> (removed matches Err(e) && e.status is InternalServerError),
        put is Done ==> (added matches Ok(s) && s is NoContent),
        put is NoStore ==> (added matches Err(e) && e.status is ServiceUnavailable),
        put is Failed ==> (added matches Err(e) && e.status is InternalServerError),
{
}

/// The members of a workspace come in the store's order, each with all that is
/// stored of them.
pub proof fn law_members_are_listed(
    reply: StoreReply<Vec<MemberRecord>>,
    i: int,
    r: Result<Vec<WorkspaceMemberInfo>, ApiError>,
)
    requires
        call_ensures(workspace_members_list_handler, (reply,), r),
    ensures
        reply is NoStore ==> (r matches Err(e) && e.status is ServiceUnavailable && e.message@
            == "Database not available"@),
        reply is Failed ==> (r matches Err(e) && e.status is InternalServerError && e.message@
            == "Internal database error"@),
        reply matches StoreReply::Done(list) ==> {
            &&& r is Ok
            &&& r->Ok_0@.len() == list@.len()
            &&& 0 <= i < list@.len() ==> {
                let x = r->Ok_0@[i];
                let m = list@[i];
                &&& x.user_id@ == m.user_id@ && x.email == m.email
                &&& x.display_name@ == m.display_name@ && x.status@ == m.status@
                &&& x.role@ == m.role@ && x.invited_by == m.invited_by
                &&& x.joined_at@ == rfc3339_of(m.joined_at.secs, m.joined_at.nanos)
            }
        },
{
    if let StoreReply::Done(list) = reply {
        if 0 <= i < list@.len() {
            assert(member_shows(r->Ok_0@[i], list@[i]));
        }
    }
}

} // verus!
