//! What the engine asks of a store.

use vstd::prelude::*;
use crate::engine::types::{
    CapabilityLease, ConversationId, ConversationSurface, DocId, EngineError, LeaseId, MemoryDoc,
    Mission, MissionId, MissionStatus, Project, ProjectId, Step, Thread, ThreadEvent, ThreadId,
    ThreadState,
};
use crate::text::same_text;

verus! {

broadcast use vstd::string::group_string_axioms;

/// The user under whom shared docs and missions are kept.
pub const SHARED_USER: &'static str = "system";

/// `user_id` is the user under whom shared things are kept.
pub open spec fn is_shared_user(user_id: Seq<char>) -> bool {
    user_id == "system"@
}

/// What a user sees, from their own list and the shared one: the first failure,
/// or the own items followed by the shared ones.
pub open spec fn with_shared<T>(
    own: Result<Vec<T>, EngineError>,
    shared: Result<Vec<T>, EngineError>,
    r: Result<Vec<T>, EngineError>,
) -> bool {
    match own {
        Err(e) => r is Err && r->Err_0 == e,
        Ok(mine) => match shared {
            Err(e) => r is Err && r->Err_0 == e,
            Ok(ours) => r is Ok && r->Ok_0@ == mine@ + ours@,
        },
    }
}

/// Puts the shared items behind a user's own; the own list's failure counts
/// first.
pub fn merge_shared<T>(
    own: Result<Vec<T>, EngineError>,
    shared: Result<Vec<T>, EngineError>,
) -> (r: Result<Vec<T>, EngineError>)
    ensures
        with_shared(own, shared, r),
{
    match own {
        Err(e) => Err(e),
        Ok(mine) => match shared {
            Err(e) => Err(e),
            Ok(ours) => {
                let mut all: Vec<T> = mine;
                let mut rest: Vec<T> = ours;
                all.append(&mut rest);
                Ok(all)
            },
        },
    }
}

/// An outcome of listing what a user sees, where `answers` tells the outcomes
/// of listing what one user keeps: the shared user's own list for the shared
/// user, else the user's list with the shared one behind it. The shared list is
/// not asked for where the own one failed.
pub open spec fn seen_with_shared<T>(
    answers: spec_fn(&str, Result<Vec<T>, EngineError>) -> bool,
    user_id: &str,
    r: Result<Vec<T>, EngineError>,
) -> bool {
    if is_shared_user(user_id@) {
        answers(SHARED_USER, r)
    } else {
        exists|own, shared|
            answers(user_id, own) && #[trigger] with_shared(own, shared, r) && (own is Ok ==> answers(
                SHARED_USER,
                shared,
            ))
    }
}

/// Lists what a user sees, where `list` lists what one user keeps.
pub fn list_with_shared<T, F: Fn(&str) -> Result<Vec<T>, EngineError>>(list: F, user_id: &str) -> (r:
    Result<Vec<T>, EngineError>)
    requires
        forall|u: &str| #[trigger] call_requires(list, (u,)),
    ensures
        seen_with_shared(
            |u: &str, l: Result<Vec<T>, EngineError>| call_ensures(list, (u,), l),
            user_id,
            r,
        ),
{
    if same_text(user_id, SHARED_USER) {
        return list(SHARED_USER);
    }
    let own = list(user_id);
    if own.is_err() {
        return merge_shared(own, Ok(Vec::new()));
    }
    let shared = list(SHARED_USER);
    merge_shared(own, shared)
}

/// A place to keep threads, steps, events, projects, conversations, docs,
/// leases and missions. What is kept per user is asked for per user.
pub trait Store {
    fn save_thread(&self, thread: &Thread) -> Result<(), EngineError>;

    fn load_thread(&self, id: ThreadId) -> Result<Option<Thread>, EngineError>;

    fn list_threads(&self, project_id: ProjectId, user_id: &str) -> Result<
        Vec<Thread>,
        EngineError,
    >;

    fn update_thread_state(&self, id: ThreadId, state: ThreadState) -> Result<(), EngineError>;

    fn save_step(&self, step: &Step) -> Result<(), EngineError>;

    fn load_steps(&self, thread_id: ThreadId) -> Result<Vec<Step>, EngineError>;

    fn append_events(&self, events: &Vec<ThreadEvent>) -> Result<(), EngineError>;

    fn load_events(&self, thread_id: ThreadId) -> Result<Vec<ThreadEvent>, EngineError>;

    fn save_project(&self, project: &Project) -> Result<(), EngineError>;

    fn load_project(&self, id: ProjectId) -> Result<Option<Project>, EngineError>;

    /// A user's projects; none unless the store keeps them.
    fn list_projects(&self, user_id: &str) -> (r: Result<Vec<Project>, EngineError>)
        default_ensures
            r matches Ok(list) && list@ == Seq::<Project>::empty(),
    {
        Ok(Vec::new())
    }

    /// Keeps a conversation; a store that keeps none takes it without effect.
    fn save_conversation(&self, conversation: &ConversationSurface) -> (r: Result<
        (),
        EngineError,
    >)
        default_ensures
            r is Ok,
    {
        Ok(())
    }

    /// A conversation; none unless the store keeps them.
    fn load_conversation(&self, id: ConversationId) -> (r: Result<
        Option<ConversationSurface>,
        EngineError,
    >)
        default_ensures
            r matches Ok(found) && found is None,
    {
        Ok(None)
    }

    /// A user's conversations; none unless the store keeps them.
    fn list_conversations(&self, user_id: &str) -> (r: Result<
        Vec<ConversationSurface>,
        EngineError,
    >)
        default_ensures
            r matches Ok(list) && list@ == Seq::<ConversationSurface>::empty(),
    {
        Ok(Vec::new())
    }

    fn save_memory_doc(&self, doc: &MemoryDoc) -> Result<(), EngineError>;

    fn load_memory_doc(&self, id: DocId) -> Result<Option<MemoryDoc>, EngineError>;

    fn list_memory_docs(&self, project_id: ProjectId, user_id: &str) -> (r: Result<
        Vec<MemoryDoc>,
        EngineError,
    >);

    /// The docs that a user sees: their own, followed by the shared ones. The
    /// shared user sees theirs once.
    fn list_memory_docs_with_shared(&self, project_id: ProjectId, user_id: &str) -> (r: Result<
        Vec<MemoryDoc>,
        EngineError,
    >)
        default_ensures
            seen_with_shared(
                |u: &str, l: Result<Vec<MemoryDoc>, EngineError>|
                    call_ensures(Self::list_memory_docs, (self, project_id, u), l),
                user_id,
                r,
            ),
    {
        let list = |u: &str| -> (l: Result<Vec<MemoryDoc>, EngineError>)
            ensures
                call_ensures(Self::list_memory_docs, (self, project_id, u), l),
            { self.list_memory_docs(project_id, u) };
        list_with_shared(list, user_id)
    }

    fn save_lease(&self, lease: &CapabilityLease) -> Result<(), EngineError>;

    fn load_active_leases(&self, thread_id: ThreadId) -> Result<Vec<CapabilityLease>, EngineError>;

    fn revoke_lease(&self, lease_id: LeaseId, reason: &str) -> Result<(), EngineError>;

    fn save_mission(&self, mission: &Mission) -> Result<(), EngineError>;

    fn load_mission(&self, id: MissionId) -> Result<Option<Mission>, EngineError>;

    fn list_missions(&self, project_id: ProjectId, user_id: &str) -> (r: Result<
        Vec<Mission>,
        EngineError,
    >);

    fn update_mission_status(&self, id: MissionId, status: MissionStatus) -> Result<
        (),
        EngineError,
    >;

    /// The missions that a user sees: their own, followed by the shared ones.
    /// The shared user sees theirs once.
    fn list_missions_with_shared(&self, project_id: ProjectId, user_id: &str) -> (r: Result<
        Vec<Mission>,
        EngineError,
    >)
        default_ensures
            seen_with_shared(
                |u: &str, l: Result<Vec<Mission>, EngineError>|
                    call_ensures(Self::list_missions, (self, project_id, u), l),
                user_id,
                r,
            ),
    {
        let list = |u: &str| -> (l: Result<Vec<Mission>, EngineError>)
            ensures
                call_ensures(Self::list_missions, (self, project_id, u), l),
            { self.list_missions(project_id, u) };
        list_with_shared(list, user_id)
    }

    /// All threads of a project, of every user; none unless the store can tell.
    fn list_all_threads(&self, project_id: ProjectId) -> (r: Result<Vec<Thread>, EngineError>)
        default_ensures
            r matches Ok(list) && list@ == Seq::<Thread>::empty(),
    {
        Ok(Vec::new())
    }

    /// All missions of a project, of every user; none unless the store can tell.
    fn list_all_missions(&self, project_id: ProjectId) -> (r: Result<Vec<Mission>, EngineError>)
        default_ensures
            r matches Ok(list) && list@ == Seq::<Mission>::empty(),
    {
        Ok(Vec::new())
    }
}

// ── Laws ────────────────────────────────────────────────────

/// The items that an outcome of a listing holds, in order, or its error.
pub open spec fn items<T>(r: Result<Vec<T>, EngineError>) -> Result<Seq<T>, EngineError> {
    match r {
        Ok(list) => Ok(list@),
        Err(e) => Err(e),
    }
}

/// What a user sees of a store that does not change meanwhile. `answers` tells
/// the outcomes of listing what one user keeps, each of which holds what
/// `kept` gives for that user. Then the shared user sees what they keep, each
/// item once; any other user sees what they keep followed by what the shared
/// user keeps; and where one of the two lists fails, the outcome is that
/// failure and no part of a list.
pub proof fn law_users_see_their_own_and_the_shared<T>(
    answers: spec_fn(&str, Result<Vec<T>, EngineError>) -> bool,
    kept: spec_fn(Seq<char>) -> Result<Seq<T>, EngineError>,
    user_id: &str,
    r: Result<Vec<T>, EngineError>,
)
    requires
        seen_with_shared(answers, user_id, r),
        forall|u: &str, l: Result<Vec<T>, EngineError>| #[trigger]
            answers(u, l) ==> items(l) == kept(u@),
    ensures
        is_shared_user(user_id@) ==> items(r) == kept("system"@),
        !is_shared_user(user_id@) && kept(user_id@) is Err ==> items(r) == kept(user_id@),
        !is_shared_user(user_id@) && kept(user_id@) is Ok && kept("system"@) is Err ==> items(r)
            == kept("system"@),
        !is_shared_user(user_id@) && kept(user_id@) is Ok && kept("system"@) is Ok ==> items(r)
            == Ok::<Seq<T>, EngineError>(kept(user_id@)->Ok_0 + kept("system"@)->Ok_0),
{
    if !is_shared_user(user_id@) {
        let (own, shared) = choose|
            own: Result<Vec<T>, EngineError>,
            shared: Result<Vec<T>, EngineError>,
        |
            answers(user_id, own) && #[trigger] with_shared(own, shared, r) && (own is Ok ==> answers(
                SHARED_USER,
                shared,
            ));
        assert(answers(user_id, own));
    } else {
        assert(answers(SHARED_USER, r));
    }
}

/// Two lists become one, the own items first; of two failures the own one
/// counts, and a failure leaves no list.
pub proof fn law_lists_are_merged<T>(
    own: Result<Vec<T>, EngineError>,
    shared: Result<Vec<T>, EngineError>,
    r: Result<Vec<T>, EngineError>,
)
    requires
        call_ensures(merge_shared::<T>, (own, shared), r),
    ensures
        own matches Err(e) ==> (r matches Err(x) && x == e),
        own is Ok ==> (shared matches Err(e) ==> (r matches Err(x) && x == e)),
        own matches Ok(a) ==> (shared matches Ok(b) ==> (r matches Ok(all) && all@.len()
            == a@.len() + b@.len() && all@.take(a@.len() as int) == a@ && all@.skip(
            a@.len() as int,
        ) == b@)),
{
    if let (Ok(a), Ok(b)) = (own, shared) {
        assert(r->Ok_0@.take(a@.len() as int) =~= a@);
        assert(r->Ok_0@.skip(a@.len() as int) =~= b@);
    }
}

/// The user `system` sees what it keeps itself; any other user sees what they
/// keep themselves and, behind it, what `system` keeps.
pub proof fn law_system_keeps_what_is_shared<T, F: Fn(&str) -> Result<Vec<T>, EngineError>>(
    list: F,
    kept: spec_fn(Seq<char>) -> Result<Seq<T>, EngineError>,
    user_id: &str,
    r: Result<Vec<T>, EngineError>,
)
    requires
        call_ensures(list_with_shared::<T, F>, (list, user_id), r),
        forall|u: &str, l: Result<Vec<T>, EngineError>| #[trigger]
            call_ensures(list, (u,), l) ==> items(l) == kept(u@),
    ensures
        user_id@ == "system"@ ==> items(r) == kept("system"@),
        user_id@ != "system"@ && kept(user_id@) is Err ==> items(r) == kept(user_id@),
        user_id@ != "system"@ && kept(user_id@) is Ok && kept("system"@) is Err ==> items(r)
            == kept("system"@),
        user_id@ != "system"@ && kept(user_id@) is Ok && kept("system"@) is Ok ==> items(r)
            == Ok::<Seq<T>, EngineError>(kept(user_id@)->Ok_0 + kept("system"@)->Ok_0),
{
    let answers = |u: &str, l: Result<Vec<T>, EngineError>| call_ensures(list, (u,), l);
    law_users_see_their_own_and_the_shared(answers, kept, user_id, r);
}

} // verus!
