//! The hybrid store: session data in memory, knowledge also in the workspace.

use std::collections::HashMap;
use vstd::prelude::*;
use crate::engine::types::{
    CapabilityLease, DocId, DocType, LeaseId, MemoryDoc, Mission, MissionId, MissionStatus,
    Project, ProjectId, Step, Thread, ThreadEvent, ThreadId, ThreadState,
};
use crate::ids::{id_form, id_text};
use crate::text::{ends_with_text, finishes_with, texts};
use crate::time::{now, Timestamp};

verus! {

broadcast use {
    vstd::string::group_string_axioms,
    vstd::std_specs::hash::group_hash_axioms,
};

/// The list holds exactly the values of the map that `wanted` picks, each once.
pub open spec fn selected<T>(list: Seq<&T>, m: Map<u128, T>, wanted: spec_fn(T) -> bool) -> bool {
    exists|ks: Seq<u128>| #[trigger] is_selection(ks, list, m, wanted)
}

/// `ks` are the keys of the wanted values, each once, in the list's order.
pub open spec fn is_selection<T>(
    ks: Seq<u128>,
    list: Seq<&T>,
    m: Map<u128, T>,
    wanted: spec_fn(T) -> bool,
) -> bool {
    &&& ks.no_duplicates()
    &&& forall|k: u128| #[trigger] ks.contains(k) <==> m.dom().contains(k) && wanted(m[k])
    &&& list.len() == ks.len()
    &&& forall|i: int| 0 <= i < ks.len() ==> *(#[trigger] list[i]) == m[ks[i]]
}

fn keys_of<T>(map: &HashMap<u128, T>) -> (r: Vec<u128>)
    ensures
        r@.no_duplicates(),
        r@.to_set() == map@.dom(),
{
    let mut out: Vec<u128> = Vec::new();
    for k in it: map.keys()
        invariant
            out@ == it.seq().take(it.index()).unref(),
            it.seq().unref().no_duplicates(),
            it.seq().unref().to_set() == map@.dom(),
            it.index() == it.seq().len() ==> out@ =~= it.seq().unref(),
    {
        out.push(*k);
        assert(out@ =~= it.seq().take(it.index() + 1).unref());
    }
    out
}

fn select<'a, T, F: Fn(&T) -> bool>(
    map: &'a HashMap<u128, T>,
    keep: F,
    Ghost(wanted): Ghost<spec_fn(T) -> bool>,
) -> (r: Vec<&'a T>)
    requires
        forall|t: &T| #[trigger] call_requires(keep, (t,)),
        forall|t: &T, b: bool| #[trigger] call_ensures(keep, (t,), b) ==> b == wanted(*t),
    ensures
        selected(r@, map@, wanted),
{
    let keys: Vec<u128> = keys_of(map);
    let ghost mut ks: Seq<u128> = seq![];
    let mut out: Vec<&'a T> = Vec::new();
    let mut i: usize = 0;
    while i < keys.len()
        invariant
            i <= keys.len(),
            keys@.no_duplicates(),
            keys@.to_set() == map@.dom(),
            forall|t: &T| #[trigger] call_requires(keep, (t,)),
            forall|t: &T, b: bool| #[trigger] call_ensures(keep, (t,), b) ==> b == wanted(*t),
            ks.no_duplicates(),
            forall|k: u128| #[trigger]
                ks.contains(k) <==> keys@.take(i as int).contains(k) && wanted(map@[k]),
            out.len() == ks.len(),
            forall|j: int| 0 <= j < ks.len() ==> *(#[trigger] out@[j]) == map@[ks[j]],
        decreases keys.len() - i,
    {
        let key: u128 = keys[i];
        assert(keys@.to_set().contains(key));
        match map.get(&key) {
            Some(value) => {
                let ghost before = ks;
                let ghost head = keys@.take(i as int);
                let chosen = keep(value);
                proof {
                    let next = keys@.take(i + 1);
                    assert(next =~= head.push(key));
                    assert(!head.contains(key));
                    assert forall|k: u128| next.contains(k) <==> (head.contains(k) || k == key) by {
                        if head.contains(k) {
                            let j = head.index_of(k);
                            assert(next[j] == k);
                        }
                        if k == key {
                            assert(next[i as int] == key);
                        }
                    }
                    assert(!before.contains(key));
                    if chosen {
                        ks = before.push(key);
                        assert forall|k: u128| #[trigger] ks.contains(k) <==> (before.contains(k)
                            || k == key) by {
                            if before.contains(k) {
                                let j = before.index_of(k);
                                assert(ks[j] == k);
                            }
                            if k == key {
                                assert(ks[before.len() as int] == key);
                            }
                        }
                    }
                }
                if chosen {
                    out.push(value);
                }
            },
            None => {
                assert(false);
            },
        }
        i += 1;
    }
    proof {
        assert(keys@.take(i as int) =~= keys@);
        assert forall|k: u128| #[trigger] ks.contains(k) <==> map@.dom().contains(k) && wanted(
            map@[k],
        ) by {
            assert(keys@.contains(k) <==> keys@.to_set().contains(k));
        }
        assert(is_selection(ks, out@, map@, wanted));
    }
    out
}

// ── Documents ───────────────────────────────────────────────

/// The directory of a doc type.
pub open spec fn doc_dir(t: DocType) -> Seq<char> {
    match t {
        DocType::Summary => "summaries"@,
        DocType::Lesson => "lessons"@,
        DocType::Playbook => "playbooks"@,
        DocType::Issue => "issues"@,
        DocType::Spec => "specs"@,
        DocType::Note => "notes"@,
    }
}

/// The workspace directory that holds the docs of a type.
pub open spec fn doc_directory(t: DocType) -> Seq<char> {
    "engine/docs"@ + "/"@ + doc_dir(t)
}

/// The workspace directories that hold docs: the one above the doc types too,
/// for docs that were put there.
pub open spec fn directories() -> Seq<Seq<char>> {
    seq![
        "engine/docs"@,
        doc_directory(DocType::Summary),
        doc_directory(DocType::Lesson),
        doc_directory(DocType::Playbook),
        doc_directory(DocType::Issue),
        doc_directory(DocType::Spec),
        doc_directory(DocType::Note),
    ]
}

/// `path` names something directly in the directory `dir`.
pub open spec fn lies_in(path: Seq<char>, dir: Seq<char>) -> bool {
    exists|name: Seq<char>| !name.contains('/') && path == #[trigger] (dir + "/"@ + name)
}

/// `path` names something directly in a directory that holds docs.
pub open spec fn in_doc_directory(path: Seq<char>) -> bool {
    exists|i: int| 0 <= i < directories().len() && lies_in(path, #[trigger] directories()[i])
}

/// The workspace directories that hold docs, one for each doc type and the one
/// above them: those that are listed to find docs again.
pub fn doc_directories() -> (r: Vec<String>)
    ensures
        texts(r@) == directories(),
{
    let names: Vec<&str> = vec!["summaries", "lessons", "playbooks", "issues", "specs", "notes"];
    let mut out: Vec<String> = Vec::new();
    out.push("engine/docs".to_string());
    let mut i: usize = 0;
    while i < names.len()
        invariant
            i <= names.len(),
            names.len() == 6,
            directories().len() == 7,
            out.len() == i + 1,
            forall|k: int|
                0 <= k < 6 ==> "engine/docs"@ + "/"@ + (#[trigger] names@[k])@
                    == directories()[k + 1],
            forall|k: int| 0 <= k <= i ==> (#[trigger] out@[k])@ == directories()[k],
        decreases names.len() - i,
    {
        let mut path = "engine/docs".to_string();
        path.append("/");
        path.append(names[i]);
        out.push(path);
        i += 1;
    }
    assert(texts(out@) =~= directories());
    out
}

/// Where a doc of this type and identifier is kept in the workspace.
pub open spec fn doc_path(t: DocType, id: DocId) -> Seq<char> {
    "engine/docs"@ + "/"@ + doc_dir(t) + "/"@ + id_form(id.0) + ".json"@
}

/// Where a doc is kept in the workspace.
pub fn doc_workspace_path(doc: &MemoryDoc) -> (r: String)
    ensures
        r@ == doc_path(doc.doc_type, doc.id),
{
    let mut path = "engine/docs".to_string();
    path.append("/");
    path.append(
        match doc.doc_type {
            DocType::Summary => "summaries",
            DocType::Lesson => "lessons",
            DocType::Playbook => "playbooks",
            DocType::Issue => "issues",
            DocType::Spec => "specs",
            DocType::Note => "notes",
        },
    );
    path.append("/");
    path.append(id_text(doc.id.0).as_str());
    path.append(".json");
    path
}

/// An entry of a workspace listing.
#[derive(Debug)]
pub struct WorkspaceEntry {
    pub path: String,
    pub is_directory: bool,
}

/// The entry may hold a doc: a file whose name ends in `.json`.
pub open spec fn holds_doc(entry: WorkspaceEntry) -> bool {
    !entry.is_directory && finishes_with(entry.path@, ".json"@)
}

/// Whether an entry may hold a doc: a file whose name ends in `.json`.
pub fn is_doc_entry(entry: &WorkspaceEntry) -> (r: bool)
    ensures
        r == holds_doc(*entry),
{
    !entry.is_directory && ends_with_text(entry.path.as_str(), ".json")
}

/// The paths of the entries that may hold docs, in order.
pub open spec fn doc_paths(listing: Seq<WorkspaceEntry>) -> Seq<Seq<char>>
    decreases listing.len(),
{
    if listing.len() == 0 {
        seq![]
    } else {
        doc_paths(listing.drop_last()) + (if holds_doc(listing.last()) {
            seq![listing.last().path@]
        } else {
            seq![]
        })
    }
}

/// The files of a listing that are to be read, in order.
pub fn docs_to_read(listing: &Vec<WorkspaceEntry>) -> (r: Vec<String>)
    ensures
        texts(r@) == doc_paths(listing@),
{
    let mut out: Vec<String> = Vec::new();
    let mut i: usize = 0;
    assert(texts(out@) =~= doc_paths(listing@.take(0)));
    while i < listing.len()
        invariant
            i <= listing.len(),
            texts(out@) == doc_paths(listing@.take(i as int)),
        decreases listing.len() - i,
    {
        let ghost before = out@;
        if is_doc_entry(&listing[i]) {
            out.push(listing[i].path.clone());
        }
        proof {
            let next = listing@.take(i + 1);
            assert(next.drop_last() =~= listing@.take(i as int));
            assert(texts(out@) =~= texts(before) + (if holds_doc(next.last()) {
                seq![next.last().path@]
            } else {
                seq![]
            }));
        }
        i += 1;
    }
    assert(listing@.take(i as int) =~= listing@);
    out
}

// ── The store ───────────────────────────────────────────────

/// Session data and knowledge by identifier.
pub struct HybridStore {
    threads: HashMap<u128, Thread>,
    steps: HashMap<u128, Vec<Step>>,
    events: HashMap<u128, Vec<ThreadEvent>>,
    projects: HashMap<u128, Project>,
    leases: HashMap<u128, CapabilityLease>,
    missions: HashMap<u128, Mission>,
    docs: HashMap<u128, MemoryDoc>,
    has_workspace: bool,
}

/// Everything that a store holds.
#[verifier::ext_equal]
pub ghost struct StoreView {
    pub threads: Map<u128, Thread>,
    pub steps: Map<u128, Vec<Step>>,
    pub events: Map<u128, Vec<ThreadEvent>>,
    pub projects: Map<u128, Project>,
    pub leases: Map<u128, CapabilityLease>,
    pub missions: Map<u128, Mission>,
    pub docs: Map<u128, MemoryDoc>,
    pub has_workspace: bool,
}

impl View for HybridStore {
    type V = StoreView;

    closed spec fn view(&self) -> StoreView {
        StoreView {
            threads: self.threads@,
            steps: self.steps@,
            events: self.events@,
            projects: self.projects@,
            leases: self.leases@,
            missions: self.missions@,
            docs: self.docs@,
            has_workspace: self.has_workspace,
        }
    }
}

impl StoreView {
    /// The steps of a thread, oldest first.
    pub open spec fn steps_of(self, id: ThreadId) -> Seq<Step> {
        if self.steps.dom().contains(id.0) {
            self.steps[id.0]@
        } else {
            seq![]
        }
    }

    /// The events of a thread, oldest first.
    pub open spec fn events_of(self, id: ThreadId) -> Seq<ThreadEvent> {
        if self.events.dom().contains(id.0) {
            self.events[id.0]@
        } else {
            seq![]
        }
    }
}

/// The value under a key, if there is one.
pub open spec fn found<T>(m: Map<u128, T>, key: u128) -> Option<T> {
    if m.dom().contains(key) {
        Some(m[key])
    } else {
        None
    }
}

/// What an optional reference points to.
pub open spec fn pointed<T>(r: Option<&T>) -> Option<T> {
    match r {
        Some(t) => Some(*t),
        None => None,
    }
}

impl HybridStore {
    /// A store without data, with or without a workspace behind it.
    pub fn new(has_workspace: bool) -> (r: HybridStore)
        ensures
            r@ == (StoreView {
                threads: Map::empty(),
                steps: Map::empty(),
                events: Map::empty(),
                projects: Map::empty(),
                leases: Map::empty(),
                missions: Map::empty(),
                docs: Map::empty(),
                has_workspace,
            }),
    {
        HybridStore {
            threads: HashMap::new(),
            steps: HashMap::new(),
            events: HashMap::new(),
            projects: HashMap::new(),
            leases: HashMap::new(),
            missions: HashMap::new(),
            docs: HashMap::new(),
            has_workspace,
        }
    }

    /// Takes in the docs that the workspace held; what could not be read is
    /// absent. Gives how many there were.
    pub fn load_docs_from_workspace(&mut self, docs: Vec<Option<MemoryDoc>>) -> (r: usize)
        ensures
            final(self)@ == (StoreView { docs: with_docs(old(self)@.docs, docs@), ..old(self)@ }),
            r == count_docs(docs@),
    {
        let ghost all = docs@;
        let total: usize = docs.len();
        let mut rest: Vec<Option<MemoryDoc>> = docs;
        let mut loaded: usize = 0;
        let ghost mut n: int = 0;
        assert(all.take(0) =~= seq![]);
        while rest.len() > 0
            invariant
                n + rest.len() == all.len(),
                0 <= n,
                rest@ == all.skip(n),
                self@ == (StoreView { docs: with_docs(old(self)@.docs, all.take(n)), ..old(self)@ }),
                loaded == count_docs(all.take(n)),
                loaded <= n,
                all.len() == total,
            decreases rest.len(),
        {
            proof {
                let next = all.take(n + 1);
                assert(next.drop_last() =~= all.take(n));
                assert(next.last() == all[n]);
                assert(rest@[0] == all[n]);
            }
            match rest.remove(0) {
                Some(doc) => {
                    self.docs.insert(doc.id.0, doc);
                    loaded += 1;
                },
                None => {},
            }
            proof {
                n = n + 1;
                assert(rest@ =~= all.skip(n));
                assert(self@ =~= (StoreView {
                    docs: with_docs(old(self)@.docs, all.take(n)),
                    ..old(self)@
                }));
            }
        }
        assert(all.take(n) =~= all);
        loaded
    }

    // ── Threads ─────────────────────────────────────────────

    /// Keeps a thread under its identifier.
    pub fn save_thread(&mut self, thread: Thread)
        ensures
            final(self)@ == (StoreView {
                threads: old(self)@.threads.insert(thread.id.0, thread),
                ..old(self)@
            }),
    {
        self.threads.insert(thread.id.0, thread);
    }

    /// The thread of that identifier.
    pub fn load_thread(&self, id: ThreadId) -> (r: Option<&Thread>)
        ensures
            pointed(r) == found(self@.threads, id.0),
    {
        self.threads.get(&id.0)
    }

    /// The threads of a project, each once.
    pub fn list_threads(&self, project_id: ProjectId) -> (r: Vec<&Thread>)
        ensures
            selected(r@, self@.threads, |t: Thread| t.project_id == project_id),
    {
        let keep = |t: &Thread| -> (b: bool)
            ensures
                b == (t.project_id == project_id),
            { t.project_id == project_id };
        select(&self.threads, keep, Ghost(|t: Thread| t.project_id == project_id))
    }

    /// Changes the state of a thread; an unknown thread changes nothing.
    pub fn update_thread_state(&mut self, id: ThreadId, state: ThreadState)
        ensures
            final(self)@ == (if old(self)@.threads.dom().contains(id.0) {
                StoreView {
                    threads: old(self)@.threads.insert(
                        id.0,
                        Thread { state, ..old(self)@.threads[id.0] },
                    ),
                    ..old(self)@
                }
            } else {
                old(self)@
            }),
    {
        match self.threads.remove(&id.0) {
            Some(thread) => {
                let mut thread = thread;
                thread.state = state;
                self.threads.insert(id.0, thread);
                assert(self@.threads =~= old(self)@.threads.insert(
                    id.0,
                    Thread { state, ..old(self)@.threads[id.0] },
                ));
            },
            None => {
                assert(self@.threads =~= old(self)@.threads);
            },
        }
    }

    // ── Steps ───────────────────────────────────────────────

    /// Adds a step to the end of its thread's steps.
    pub fn save_step(&mut self, step: Step)
        ensures
            final(self)@ == (StoreView { steps: final(self)@.steps, ..old(self)@ }),
            forall|id: ThreadId| #[trigger]
                final(self)@.steps_of(id) == (if id == step.thread_id {
                    old(self)@.steps_of(id).push(step)
                } else {
                    old(self)@.steps_of(id)
                }),
    {
        let key: u128 = step.thread_id.0;
        let mut list: Vec<Step> = match self.steps.remove(&key) {
            Some(list) => list,
            None => Vec::new(),
        };
        assert(list@ =~= old(self)@.steps_of(step.thread_id));
        list.push(step);
        self.steps.insert(key, list);
    }

    /// The steps of a thread, oldest first; nothing where it has none.
    pub fn load_steps(&self, thread_id: ThreadId) -> (r: Option<&Vec<Step>>)
        ensures
            (match r {
                Some(list) => list@ == self@.steps_of(thread_id),
                None => self@.steps_of(thread_id) == Seq::<Step>::empty(),
            }),
    {
        self.steps.get(&thread_id.0)
    }

    // ── Events ──────────────────────────────────────────────

    fn append_event(&mut self, event: ThreadEvent)
        ensures
            final(self)@ == (StoreView { events: final(self)@.events, ..old(self)@ }),
            forall|id: ThreadId| #[trigger]
                final(self)@.events_of(id) == (if id == event.thread_id {
                    old(self)@.events_of(id).push(event)
                } else {
                    old(self)@.events_of(id)
                }),
    {
        let key: u128 = event.thread_id.0;
        let mut list: Vec<ThreadEvent> = match self.events.remove(&key) {
            Some(list) => list,
            None => Vec::new(),
        };
        assert(list@ =~= old(self)@.events_of(event.thread_id));
        list.push(event);
        self.events.insert(key, list);
    }

    /// Adds each event to the end of its thread's events, in order.
    pub fn append_events(&mut self, events: Vec<ThreadEvent>)
        ensures
            final(self)@ == (StoreView { events: final(self)@.events, ..old(self)@ }),
            forall|id: ThreadId| #[trigger]
                final(self)@.events_of(id) == old(self)@.events_of(id) + of_thread(events@, id),
    {
        let ghost all = events@;
        let mut rest: Vec<ThreadEvent> = events;
        let ghost mut n: int = 0;
        assert(all.take(0) =~= seq![]);
        assert forall|id: ThreadId| #[trigger] self@.events_of(id) == old(self)@.events_of(id)
            + of_thread(all.take(0), id) by {
            assert(self@.events_of(id) =~= old(self)@.events_of(id) + of_thread(all.take(0), id));
        }
        while rest.len() > 0
            invariant
                n + rest.len() == all.len(),
                0 <= n,
                rest@ == all.skip(n),
                self@ == (StoreView { events: self@.events, ..old(self)@ }),
                forall|id: ThreadId| #[trigger]
                    self@.events_of(id) == old(self)@.events_of(id) + of_thread(all.take(n), id),
            decreases rest.len(),
        {
            let ghost before = self@;
            proof {
                assert(rest@[0] == all[n]);
            }
            let event = rest.remove(0);
            self.append_event(event);
            proof {
                let next = all.take(n + 1);
                assert(next.drop_last() =~= all.take(n));
                assert(next.last() == all[n]);
                n = n + 1;
                assert(rest@ =~= all.skip(n));
                assert forall|id: ThreadId| #[trigger] self@.events_of(id) == old(self)@.events_of(id) + of_thread(all.take(n), id) by {
                    assert(before.events_of(id) == old(self)@.events_of(id) + of_thread(
                        all.take(n - 1),
                        id,
                    ));
                    assert(self@.events_of(id) =~= old(self)@.events_of(id) + of_thread(
                        all.take(n),
                        id,
                    ));
                }
            }
        }
        assert(all.take(n) =~= all);
    }

    /// The events of a thread, oldest first; nothing where it has none.
    pub fn load_events(&self, thread_id: ThreadId) -> (r: Option<&Vec<ThreadEvent>>)
        ensures
            (match r {
                Some(list) => list@ == self@.events_of(thread_id),
                None => self@.events_of(thread_id) == Seq::<ThreadEvent>::empty(),
            }),
    {
        self.events.get(&thread_id.0)
    }

    // ── Projects ────────────────────────────────────────────

    /// Keeps a project under its identifier.
    pub fn save_project(&mut self, project: Project)
        ensures
            final(self)@ == (StoreView {
                projects: old(self)@.projects.insert(project.id.0, project),
                ..old(self)@
            }),
    {
        self.projects.insert(project.id.0, project);
    }

    /// The project of that identifier.
    pub fn load_project(&self, id: ProjectId) -> (r: Option<&Project>)
        ensures
            pointed(r) == found(self@.projects, id.0),
    {
        self.projects.get(&id.0)
    }

    // ── Memory docs ─────────────────────────────────────────

    /// Keeps a doc under its identifier. Gives the path under which it also
    /// has to be written, where there is a workspace.
    pub fn save_memory_doc(&mut self, doc: MemoryDoc) -> (r: Option<String>)
        ensures
            final(self)@ == (StoreView {
                docs: old(self)@.docs.insert(doc.id.0, doc),
                ..old(self)@
            }),
            r is Some == old(self)@.has_workspace,
            r matches Some(path) ==> path@ == doc_path(doc.doc_type, doc.id),
    {
        let path = if self.has_workspace {
            Some(doc_workspace_path(&doc))
        } else {
            None
        };
        self.docs.insert(doc.id.0, doc);
        path
    }

    /// The doc of that identifier.
    pub fn load_memory_doc(&self, id: DocId) -> (r: Option<&MemoryDoc>)
        ensures
            pointed(r) == found(self@.docs, id.0),
    {
        self.docs.get(&id.0)
    }

    /// The docs of a project, each once.
    pub fn list_memory_docs(&self, project_id: ProjectId) -> (r: Vec<&MemoryDoc>)
        ensures
            selected(r@, self@.docs, |d: MemoryDoc| d.project_id == project_id),
    {
        let keep = |d: &MemoryDoc| -> (b: bool)
            ensures
                b == (d.project_id == project_id),
            { d.project_id == project_id };
        select(&self.docs, keep, Ghost(|d: MemoryDoc| d.project_id == project_id))
    }

    // ── Leases ──────────────────────────────────────────────

    /// Keeps a lease under its identifier.
    pub fn save_lease(&mut self, lease: CapabilityLease)
        ensures
            final(self)@ == (StoreView {
                leases: old(self)@.leases.insert(lease.id.0, lease),
                ..old(self)@
            }),
    {
        self.leases.insert(lease.id.0, lease);
    }

    /// The leases of a thread that may be used now, each once.
    pub fn load_active_leases(&self, thread_id: ThreadId) -> (r: Vec<&CapabilityLease>)
        ensures
            exists|at: Timestamp| #[trigger]
                at.valid() && selected(r@, self@.leases, active_lease(thread_id, at)),
    {
        self.load_active_leases_at(thread_id, now())
    }

    /// The leases of a thread that may be used at `at`, each once.
    pub fn load_active_leases_at(&self, thread_id: ThreadId, at: Timestamp) -> (r: Vec<
        &CapabilityLease,
    >)
        ensures
            selected(r@, self@.leases, active_lease(thread_id, at)),
    {
        let keep = |l: &CapabilityLease| -> (b: bool)
            ensures
                b == (l.thread_id == thread_id && l.valid_at(at)),
            { l.thread_id == thread_id && l.is_valid_at(at) };
        select(&self.leases, keep, Ghost(active_lease(thread_id, at)))
    }

    /// Revokes a lease; an unknown lease changes nothing.
    pub fn revoke_lease(&mut self, lease_id: LeaseId)
        ensures
            final(self)@ == (if old(self)@.leases.dom().contains(lease_id.0) {
                StoreView {
                    leases: old(self)@.leases.insert(
                        lease_id.0,
                        CapabilityLease { revoked: true, ..old(self)@.leases[lease_id.0] },
                    ),
                    ..old(self)@
                }
            } else {
                old(self)@
            }),
    {
        match self.leases.remove(&lease_id.0) {
            Some(lease) => {
                let mut lease = lease;
                lease.revoked = true;
                self.leases.insert(lease_id.0, lease);
                assert(self@.leases =~= old(self)@.leases.insert(
                    lease_id.0,
                    CapabilityLease { revoked: true, ..old(self)@.leases[lease_id.0] },
                ));
            },
            None => {
                assert(self@.leases =~= old(self)@.leases);
            },
        }
    }

    // ── Missions ────────────────────────────────────────────

    /// Keeps a mission under its identifier.
    pub fn save_mission(&mut self, mission: Mission)
        ensures
            final(self)@ == (StoreView {
                missions: old(self)@.missions.insert(mission.id.0, mission),
                ..old(self)@
            }),
    {
        self.missions.insert(mission.id.0, mission);
    }

    /// The mission of that identifier.
    pub fn load_mission(&self, id: MissionId) -> (r: Option<&Mission>)
        ensures
            pointed(r) == found(self@.missions, id.0),
    {
        self.missions.get(&id.0)
    }

    /// The missions of a project, each once.
    pub fn list_missions(&self, project_id: ProjectId) -> (r: Vec<&Mission>)
        ensures
            selected(r@, self@.missions, |m: Mission| m.project_id == project_id),
    {
        let keep = |m: &Mission| -> (b: bool)
            ensures
                b == (m.project_id == project_id),
            { m.project_id == project_id };
        select(&self.missions, keep, Ghost(|m: Mission| m.project_id == project_id))
    }

    /// Changes the status of a mission; an unknown mission changes nothing.
    pub fn update_mission_status(&mut self, id: MissionId, status: MissionStatus)
        ensures
            final(self)@ == (if old(self)@.missions.dom().contains(id.0) {
                StoreView {
                    missions: old(self)@.missions.insert(
                        id.0,
                        Mission { status, ..old(self)@.missions[id.0] },
                    ),
                    ..old(self)@
                }
            } else {
                old(self)@
            }),
    {
        match self.missions.remove(&id.0) {
            Some(mission) => {
                let mut mission = mission;
                mission.status = status;
                self.missions.insert(id.0, mission);
                assert(self@.missions =~= old(self)@.missions.insert(
                    id.0,
                    Mission { status, ..old(self)@.missions[id.0] },
                ));
            },
            None => {
                assert(self@.missions =~= old(self)@.missions);
            },
        }
    }
}

/// The lease belongs to the thread and may be used at `at`.
pub open spec fn active_lease(thread_id: ThreadId, at: Timestamp) -> spec_fn(
    CapabilityLease,
) -> bool {
    |l: CapabilityLease| l.thread_id == thread_id && l.valid_at(at)
}

/// The events that belong to a thread, in order.
pub open spec fn of_thread(events: Seq<ThreadEvent>, id: ThreadId) -> Seq<ThreadEvent>
    decreases events.len(),
{
    if events.len() == 0 {
        seq![]
    } else if events.last().thread_id == id {
        of_thread(events.drop_last(), id).push(events.last())
    } else {
        of_thread(events.drop_last(), id)
    }
}

/// The docs with those of the list put in, in order.
pub open spec fn with_docs(m: Map<u128, MemoryDoc>, docs: Seq<Option<MemoryDoc>>) -> Map<
    u128,
    MemoryDoc,
>
    decreases docs.len(),
{
    if docs.len() == 0 {
        m
    } else {
        let rest = with_docs(m, docs.drop_last());
        match docs.last() {
            Some(doc) => rest.insert(doc.id.0, doc),
            None => rest,
        }
    }
}

/// How many docs the list holds.
pub open spec fn count_docs(docs: Seq<Option<MemoryDoc>>) -> nat
    decreases docs.len(),
{
    if docs.len() == 0 {
        0
    } else {
        count_docs(docs.drop_last()) + (if docs.last() is Some {
            1nat
        } else {
            0nat
        })
    }
}

// ── Laws ────────────────────────────────────────────────────

/// What is saved under an identifier reads back as it was saved, and saving it
/// changes nothing under any other identifier. Threads, projects, docs, leases
/// and missions are all kept in this way.
pub proof fn law_saved_value_reads_back<T>(kept: Map<u128, T>, id: u128, value: T, other: u128)
    ensures
        found(kept.insert(id, value), id) == Some(value),
        other != id ==> found(kept.insert(id, value), other) == found(kept, other),
{
}

/// Every doc is kept directly in one of the directories that are listed to
/// find docs again, under a name that ends in `.json`.
pub proof fn law_docs_lie_in_the_listed_directories(t: DocType, id: DocId)
    ensures
        lies_in(doc_path(t, id), doc_directory(t)),
        in_doc_directory(doc_path(t, id)),
        finishes_with(doc_path(t, id), ".json"@),
{
    let path = doc_path(t, id);
    let name = id_form(id.0) + ".json"@;
    reveal_strlit(".json");
    crate::ids::lemma_id_form_is_one_name(id.0);
    assert forall|i: int| 0 <= i < name.len() implies name[i] != '/' by {
        if i < id_form(id.0).len() {
            assert(name[i] == id_form(id.0)[i]);
        }
    }
    assert(!name.contains('/'));
    assert(path =~= doc_directory(t) + "/"@ + name);
    let k: int = match t {
        DocType::Summary => 1,
        DocType::Lesson => 2,
        DocType::Playbook => 3,
        DocType::Issue => 4,
        DocType::Spec => 5,
        DocType::Note => 6,
    };
    assert(directories()[k] == doc_directory(t));
    let head = "engine/docs"@ + "/"@ + doc_dir(t) + "/"@ + id_form(id.0);
    assert(path.skip(head.len() as int) =~= ".json"@);
    assert(path.len() - ".json"@.len() == head.len());
}

/// The listing shows a file at that path.
pub open spec fn shows_file(listing: Seq<WorkspaceEntry>, path: Seq<char>) -> bool {
    exists|i: int|
        0 <= i < listing.len() && (#[trigger] listing[i]).path@ == path && !listing[i].is_directory
}

/// What reading a workspace file gives: its doc, where it holds one.
pub open spec fn read_doc(files: Map<Seq<char>, MemoryDoc>, path: Seq<char>) -> Option<MemoryDoc> {
    if files.dom().contains(path) {
        Some(files[path])
    } else {
        None
    }
}

proof fn lemma_shown_docs_are_read(listing: Seq<WorkspaceEntry>, i: int)
    requires
        0 <= i < listing.len(),
        holds_doc(listing[i]),
    ensures
        doc_paths(listing).contains(listing[i].path@),
    decreases listing.len(),
{
    let rest = listing.drop_last();
    let all = doc_paths(listing);
    if i < rest.len() {
        lemma_shown_docs_are_read(rest, i);
        let j = doc_paths(rest).index_of(listing[i].path@);
        assert(all[j] == listing[i].path@);
    } else {
        assert(all[doc_paths(rest).len() as int] == listing[i].path@);
    }
}

proof fn lemma_loaded_doc_is_found(
    before: Map<u128, MemoryDoc>,
    docs: Seq<Option<MemoryDoc>>,
    i: int,
    doc: MemoryDoc,
)
    requires
        0 <= i < docs.len(),
        docs[i] == Some(doc),
        forall|j: int|
            0 <= j < docs.len() && (#[trigger] docs[j]) is Some && docs[j]->0.id == doc.id ==> docs[j]
                == Some(doc),
    ensures
        found(with_docs(before, docs), doc.id.0) == Some(doc),
    decreases docs.len(),
{
    let rest = docs.drop_last();
    let n = docs.len() - 1;
    assert(docs.last() == docs[n]);
    if docs[n] is Some && docs[n]->0.id == doc.id {
    } else {
        assert forall|j: int|
            0 <= j < rest.len() && (#[trigger] rest[j]) is Some && rest[j]->0.id
                == doc.id implies rest[j] == Some(doc) by {
            assert(rest[j] == docs[j]);
        }
        lemma_loaded_doc_is_found(before, rest, i, doc);
    }
}

/// Docs survive a restart. A doc is saved and written to the workspace, which
/// holds `files` before and keeps no other doc of that identifier. Later a
/// store lists the doc directories, and the listing shows the files in them;
/// it reads the files that may hold docs, and gets what was written; it takes
/// in what it read. Then it finds the doc as it was saved.
pub proof fn law_docs_survive_a_restart(
    files: Map<Seq<char>, MemoryDoc>,
    doc: MemoryDoc,
    listing: Seq<WorkspaceEntry>,
    read: Seq<Option<MemoryDoc>>,
    restarted: StoreView,
    loaded: StoreView,
)
    requires
        forall|path: Seq<char>| #[trigger]
            files.dom().contains(path) && path != doc_path(doc.doc_type, doc.id) ==> files[path].id
                != doc.id,
        forall|path: Seq<char>|
            files.insert(doc_path(doc.doc_type, doc.id), doc).dom().contains(path)
                && in_doc_directory(path) ==> #[trigger] shows_file(listing, path),
        read == doc_paths(listing).map_values(
            |path: Seq<char>| read_doc(files.insert(doc_path(doc.doc_type, doc.id), doc), path),
        ),
        loaded == (StoreView { docs: with_docs(restarted.docs, read), ..restarted }),
    ensures
        found(loaded.docs, doc.id.0) == Some(doc),
{
    let path = doc_path(doc.doc_type, doc.id);
    let after = files.insert(path, doc);
    law_docs_lie_in_the_listed_directories(doc.doc_type, doc.id);
    assert(shows_file(listing, path));
    let i = choose|i: int|
        0 <= i < listing.len() && (#[trigger] listing[i]).path@ == path && !listing[i].is_directory;
    lemma_shown_docs_are_read(listing, i);
    let k = doc_paths(listing).index_of(path);
    assert(read[k] == Some(doc));
    assert forall|j: int|
        0 <= j < read.len() && (#[trigger] read[j]) is Some && read[j]->0.id
            == doc.id implies read[j] == Some(doc) by {
        let p = doc_paths(listing)[j];
        assert(read[j] == read_doc(after, p));
        if p != path {
            assert(files.dom().contains(p));
        }
    }
    lemma_loaded_doc_is_found(restarted.docs, read, k, doc);
}

/// Docs read from the workspace replace what was held under their identifiers:
/// a doc that no later one replaces reads back as it was read.
pub proof fn law_loaded_docs_read_back(
    before: Map<u128, MemoryDoc>,
    docs: Seq<Option<MemoryDoc>>,
    i: int,
)
    requires
        0 <= i < docs.len(),
        docs[i] is Some,
        forall|j: int|
            i < j < docs.len() && (#[trigger] docs[j]) is Some ==> docs[j]->0.id != docs[i]->0.id,
    ensures
        found(with_docs(before, docs), docs[i]->0.id.0) == docs[i],
    decreases docs.len(),
{
    let short = docs.drop_last();
    if i < short.len() {
        law_loaded_docs_read_back(before, short, i);
        assert(docs[docs.len() - 1] == docs.last());
    }
}

/// A revoked lease is never active again, at any time.
pub proof fn law_revoked_leases_are_inactive(
    lease: CapabilityLease,
    thread_id: ThreadId,
    at: Timestamp,
)
    ensures
        !active_lease(thread_id, at)(CapabilityLease { revoked: true, ..lease }),
{
}

/// Docs that differ in type or identifier are kept at different paths.
pub proof fn law_doc_paths_are_distinct(t: DocType, a: DocId, u: DocType, b: DocId)
    requires
        doc_path(t, a) == doc_path(u, b),
    ensures
        t == u,
        a == b,
{
    reveal_strlit("summaries");
    reveal_strlit("lessons");
    reveal_strlit("playbooks");
    reveal_strlit("issues");
    reveal_strlit("specs");
    reveal_strlit("notes");
    let root = ("engine/docs"@ + "/"@).len() as int;
    let tail = "/"@.len() + 36 + ".json"@.len();
    assert(doc_path(t, a).len() == root + doc_dir(t).len() + tail);
    assert(doc_path(u, b).len() == root + doc_dir(u).len() + tail);
    assert(doc_path(t, a)[root] == doc_dir(t)[0]);
    assert(doc_path(u, b)[root] == doc_dir(u)[0]);
    assert(t == u);
    let head = "engine/docs"@ + "/"@ + doc_dir(t) + "/"@;
    let n = head.len() as int;
    assert(doc_path(t, a).subrange(n, n + 36) =~= id_form(a.0));
    assert(doc_path(t, b).subrange(n, n + 36) =~= id_form(b.0));
    crate::ids::law_id_forms_are_distinct(a.0, b.0);
}

/// What is saved as a thread is loaded again as it was, under its own identifier;
/// under any other identifier the same is loaded as before. Nothing else in the
/// store changes.
pub proof fn law_saved_threads_are_loaded(
    store: &mut HybridStore,
    saved: Thread,
    id: ThreadId,
    before: Option<&Thread>,
    after: Option<&Thread>,
)
    requires
        call_ensures(HybridStore::save_thread, (store, saved), ()),
        call_ensures(HybridStore::load_thread, (&*old(store), id), before),
        call_ensures(HybridStore::load_thread, (&*final(store), id), after),
    ensures
        id == saved.id ==> (after matches Some(x) && *x == saved),
        id != saved.id ==> (after is Some <==> before is Some),
        id != saved.id ==> (after matches Some(x) ==> *x == *before->0),
        final(store)@.steps == old(store)@.steps,
        final(store)@.events == old(store)@.events,
        final(store)@.projects == old(store)@.projects,
        final(store)@.leases == old(store)@.leases,
        final(store)@.missions == old(store)@.missions,
        final(store)@.docs == old(store)@.docs,
{
}

/// What is saved as a project is loaded again as it was, under its own identifier;
/// under any other identifier the same is loaded as before. Nothing else in the
/// store changes.
pub proof fn law_saved_projects_are_loaded(
    store: &mut HybridStore,
    saved: Project,
    id: ProjectId,
    before: Option<&Project>,
    after: Option<&Project>,
)
    requires
        call_ensures(HybridStore::save_project, (store, saved), ()),
        call_ensures(HybridStore::load_project, (&*old(store), id), before),
        call_ensures(HybridStore::load_project, (&*final(store), id), after),
    ensures
        id == saved.id ==> (after matches Some(x) && *x == saved),
        id != saved.id ==> (after is Some <==> before is Some),
        id != saved.id ==> (after matches Some(x) ==> *x == *before->0),
        final(store)@.threads == old(store)@.threads,
        final(store)@.steps == old(store)@.steps,
        final(store)@.events == old(store)@.events,
        final(store)@.leases == old(store)@.leases,
        final(store)@.missions == old(store)@.missions,
        final(store)@.docs == old(store)@.docs,
{
}

/// What is saved as a mission is loaded again as it was, under its own identifier;
/// under any other identifier the same is loaded as before. Nothing else in the
/// store changes.
pub proof fn law_saved_missions_are_loaded(
    store: &mut HybridStore,
    saved: Mission,
    id: MissionId,
    before: Option<&Mission>,
    after: Option<&Mission>,
)
    requires
        call_ensures(HybridStore::save_mission, (store, saved), ()),
        call_ensures(HybridStore::load_mission, (&*old(store), id), before),
        call_ensures(HybridStore::load_mission, (&*final(store), id), after),
    ensures
        id == saved.id ==> (after matches Some(x) && *x == saved),
        id != saved.id ==> (after is Some <==> before is Some),
        id != saved.id ==> (after matches Some(x) ==> *x == *before->0),
        final(store)@.threads == old(store)@.threads,
        final(store)@.steps == old(store)@.steps,
        final(store)@.events == old(store)@.events,
        final(store)@.projects == old(store)@.projects,
        final(store)@.leases == old(store)@.leases,
        final(store)@.docs == old(store)@.docs,
{
}

/// What is saved as a doc is loaded again as it was, under its own identifier;
/// under any other identifier the same is loaded as before. Nothing else in the
/// store changes.
pub proof fn law_saved_docs_are_loaded(
    store: &mut HybridStore,
    saved: MemoryDoc,
    id: DocId,
    before: Option<&MemoryDoc>,
    after: Option<&MemoryDoc>,
    path: Option<String>,
)
    requires
        call_ensures(HybridStore::save_memory_doc, (store, saved), path),
        call_ensures(HybridStore::load_memory_doc, (&*old(store), id), before),
        call_ensures(HybridStore::load_memory_doc, (&*final(store), id), after),
    ensures
        id == saved.id ==> (after matches Some(x) && *x == saved),
        id != saved.id ==> (after is Some <==> before is Some),
        id != saved.id ==> (after matches Some(x) ==> *x == *before->0),
        final(store)@.threads == old(store)@.threads,
        final(store)@.steps == old(store)@.steps,
        final(store)@.events == old(store)@.events,
        final(store)@.projects == old(store)@.projects,
        final(store)@.leases == old(store)@.leases,
        final(store)@.missions == old(store)@.missions,
{
}

/// The threads of a project are listed: exactly those that the store holds for it,
/// and none more often than it is held.
pub proof fn law_threads_are_listed(store: HybridStore, project_id: ProjectId, key: u128, i: int, r: Vec<&Thread>)
    requires
        call_ensures(HybridStore::list_threads, (&store, project_id), r),
    ensures
        store@.threads.dom().contains(key) && store@.threads[key].project_id == project_id ==> exists|k: int|
            0 <= k < r@.len() && *(#[trigger] r@[k]) == store@.threads[key],
        0 <= i < r@.len() ==> r@[i].project_id == project_id && exists|k: u128|
            #[trigger] store@.threads.dom().contains(k) && store@.threads[k] == *r@[i],
        (exists|ks: Seq<u128>|
            ks.no_duplicates() && ks.len() == r@.len() && forall|j: int|
                0 <= j < ks.len() ==> store@.threads.dom().contains(#[trigger] ks[j])
                    && store@.threads[ks[j]] == *r@[j]),
{
    let wanted = |x: Thread| x.project_id == project_id;
    let ks = choose|ks: Seq<u128>| #[trigger] is_selection(ks, r@, store@.threads, wanted);
    assert(is_selection(ks, r@, store@.threads, wanted));
    lemma_selection(ks, r@, store@.threads, wanted, key, i);
}

/// The missions of a project are listed: exactly those that the store holds for it,
/// and none more often than it is held.
pub proof fn law_missions_are_listed(store: HybridStore, project_id: ProjectId, key: u128, i: int, r: Vec<&Mission>)
    requires
        call_ensures(HybridStore::list_missions, (&store, project_id), r),
    ensures
        store@.missions.dom().contains(key) && store@.missions[key].project_id == project_id ==> exists|k: int|
            0 <= k < r@.len() && *(#[trigger] r@[k]) == store@.missions[key],
        0 <= i < r@.len() ==> r@[i].project_id == project_id && exists|k: u128|
            #[trigger] store@.missions.dom().contains(k) && store@.missions[k] == *r@[i],
        (exists|ks: Seq<u128>|
            ks.no_duplicates() && ks.len() == r@.len() && forall|j: int|
                0 <= j < ks.len() ==> store@.missions.dom().contains(#[trigger] ks[j])
                    && store@.missions[ks[j]] == *r@[j]),
{
    let wanted = |x: Mission| x.project_id == project_id;
    let ks = choose|ks: Seq<u128>| #[trigger] is_selection(ks, r@, store@.missions, wanted);
    assert(is_selection(ks, r@, store@.missions, wanted));
    lemma_selection(ks, r@, store@.missions, wanted, key, i);
}

/// The docs of a project are listed: exactly those that the store holds for it,
/// and none more often than it is held.
pub proof fn law_docs_are_listed(store: HybridStore, project_id: ProjectId, key: u128, i: int, r: Vec<&MemoryDoc>)
    requires
        call_ensures(HybridStore::list_memory_docs, (&store, project_id), r),
    ensures
        store@.docs.dom().contains(key) && store@.docs[key].project_id == project_id ==> exists|k: int|
            0 <= k < r@.len() && *(#[trigger] r@[k]) == store@.docs[key],
        0 <= i < r@.len() ==> r@[i].project_id == project_id && exists|k: u128|
            #[trigger] store@.docs.dom().contains(k) && store@.docs[k] == *r@[i],
        (exists|ks: Seq<u128>|
            ks.no_duplicates() && ks.len() == r@.len() && forall|j: int|
                0 <= j < ks.len() ==> store@.docs.dom().contains(#[trigger] ks[j])
                    && store@.docs[ks[j]] == *r@[j]),
{
    let wanted = |x: MemoryDoc| x.project_id == project_id;
    let ks = choose|ks: Seq<u128>| #[trigger] is_selection(ks, r@, store@.docs, wanted);
    assert(is_selection(ks, r@, store@.docs, wanted));
    lemma_selection(ks, r@, store@.docs, wanted, key, i);
}

proof fn lemma_selection<T>(
    ks: Seq<u128>,
    list: Seq<&T>,
    m: Map<u128, T>,
    wanted: spec_fn(T) -> bool,
    key: u128,
    i: int,
)
    requires
        is_selection(ks, list, m, wanted),
    ensures
        m.dom().contains(key) && wanted(m[key]) ==> exists|k: int|
            0 <= k < list.len() && *(#[trigger] list[k]) == m[key],
        0 <= i < list.len() ==> wanted(*list[i]) && exists|k: u128|
            #[trigger] m.dom().contains(k) && m[k] == *list[i],
        forall|j: int|
            0 <= j < ks.len() ==> m.dom().contains(#[trigger] ks[j]) && m[ks[j]] == *list[j],
{
    assert forall|j: int| 0 <= j < ks.len() implies m.dom().contains(#[trigger] ks[j]) && m[ks[j]]
        == *list[j] by {
        assert(ks.contains(ks[j]));
        assert(*list[j] == m[ks[j]]);
    }
    if m.dom().contains(key) && wanted(m[key]) {
        assert(ks.contains(key));
        let k = ks.index_of(key);
        assert(*list[k] == m[ks[k]]);
    }
    if 0 <= i < list.len() {
        assert(ks.contains(ks[i]));
        assert(*list[i] == m[ks[i]]);
        assert(m.dom().contains(ks[i]));
    }
}

/// A thread's state is changed where the store holds it, and nothing else of it
/// or of any other thread.
pub proof fn law_states_are_changed(
    store: &mut HybridStore,
    id: ThreadId,
    state: ThreadState,
    asked: ThreadId,
    before: Option<&Thread>,
    after: Option<&Thread>,
)
    requires
        call_ensures(HybridStore::update_thread_state, (store, id, state), ()),
        call_ensures(HybridStore::load_thread, (&*old(store), asked), before),
        call_ensures(HybridStore::load_thread, (&*final(store), asked), after),
    ensures
        after is Some <==> before is Some,
        before matches Some(x) ==> asked != id ==> *after->0 == *x,
        before matches Some(x) ==> asked == id ==> {
            let y = *after->0;
            &&& y.state == state
            &&& y.id == x.id && y.project_id == x.project_id && y.goal == x.goal
            &&& y.step_count == x.step_count && y.total_tokens_used == x.total_tokens_used
            &&& y.messages == x.messages && y.events == x.events
        },
        final(store)@.docs == old(store)@.docs,
        final(store)@.leases == old(store)@.leases,
        final(store)@.missions == old(store)@.missions,
        final(store)@.projects == old(store)@.projects,
        final(store)@.steps == old(store)@.steps,
        final(store)@.events == old(store)@.events,
{
}

/// A mission's status is changed where the store holds it, and nothing else of
/// it or of any other mission.
pub proof fn law_statuses_are_changed(
    store: &mut HybridStore,
    id: MissionId,
    status: MissionStatus,
    asked: MissionId,
    before: Option<&Mission>,
    after: Option<&Mission>,
)
    requires
        call_ensures(HybridStore::update_mission_status, (store, id, status), ()),
        call_ensures(HybridStore::load_mission, (&*old(store), asked), before),
        call_ensures(HybridStore::load_mission, (&*final(store), asked), after),
    ensures
        after is Some <==> before is Some,
        before matches Some(x) ==> asked != id ==> *after->0 == *x,
        before matches Some(x) ==> asked == id ==> {
            let y = *after->0;
            &&& y.status == status
            &&& y.id == x.id && y.project_id == x.project_id && y.goal == x.goal
        },
        final(store)@.threads == old(store)@.threads,
        final(store)@.docs == old(store)@.docs,
        final(store)@.leases == old(store)@.leases,
{
}

/// The list that was loaded, empty where there is none.
pub open spec fn loaded<T>(r: Option<&Vec<T>>) -> Seq<T> {
    match r {
        Some(list) => list@,
        None => seq![],
    }
}

/// A saved step comes last among those of its thread, and no other thread gets
/// it.
pub proof fn law_steps_are_kept_in_order(
    store: &mut HybridStore,
    step: Step,
    id: ThreadId,
    before: Option<&Vec<Step>>,
    after: Option<&Vec<Step>>,
)
    requires
        call_ensures(HybridStore::save_step, (store, step), ()),
        call_ensures(HybridStore::load_steps, (&*old(store), id), before),
        call_ensures(HybridStore::load_steps, (&*final(store), id), after),
    ensures
        id == step.thread_id ==> loaded(after) == loaded(before).push(step),
        id != step.thread_id ==> loaded(after) == loaded(before),
{
    assert(final(store)@.steps_of(id) == (if id == step.thread_id {
        old(store)@.steps_of(id).push(step)
    } else {
        old(store)@.steps_of(id)
    }));
}

/// An event more in an append is an event more at the end of its own thread's,
/// and of no other's; an empty append changes nothing.
pub proof fn law_events_are_kept_in_order(
    store: &mut HybridStore,
    other: &mut HybridStore,
    events: Vec<ThreadEvent>,
    more: Vec<ThreadEvent>,
    event: ThreadEvent,
    id: ThreadId,
    before: Option<&Vec<ThreadEvent>>,
    x: Option<&Vec<ThreadEvent>>,
    y: Option<&Vec<ThreadEvent>>,
)
    requires
        *old(store) == *old(other),
        more@ == events@.push(event),
        call_ensures(HybridStore::append_events, (store, events), ()),
        call_ensures(HybridStore::append_events, (other, more), ()),
        call_ensures(HybridStore::load_events, (&*old(store), id), before),
        call_ensures(HybridStore::load_events, (&*final(store), id), x),
        call_ensures(HybridStore::load_events, (&*final(other), id), y),
    ensures
        events@.len() == 0 ==> loaded(x) == loaded(before),
        event.thread_id == id ==> loaded(y) == loaded(x).push(event),
        event.thread_id != id ==> loaded(y) == loaded(x),
{
    assert(more@.drop_last() =~= events@);
    let kept = old(store)@.events_of(id);
    assert(final(store)@.events_of(id) == kept + of_thread(events@, id));
    assert(final(other)@.events_of(id) == kept + of_thread(more@, id));
    if events@.len() == 0 {
        assert(kept + of_thread(events@, id) =~= kept);
    }
    if event.thread_id == id {
        assert(kept + of_thread(more@, id) =~= (kept + of_thread(events@, id)).push(event));
    }
}

/// A doc has to be written exactly where there is a workspace, in the directory
/// of its type, under its identifier.
pub proof fn law_docs_are_written_by_type(
    store: &mut HybridStore,
    doc: MemoryDoc,
    path: Option<String>,
    direct: String,
)
    requires
        call_ensures(HybridStore::save_memory_doc, (store, doc), path),
        call_ensures(doc_workspace_path, (&doc,), direct),
    ensures
        path is Some <==> old(store)@.has_workspace,
        path matches Some(p) ==> p@ == direct@,
        ({
            let tail = "/"@ + id_form(doc.id.0) + ".json"@;
            let t = doc.doc_type;
            &&& t == DocType::Summary ==> direct@ == "engine/docs"@ + "/"@ + "summaries"@ + tail
            &&& t == DocType::Lesson ==> direct@ == "engine/docs"@ + "/"@ + "lessons"@ + tail
            &&& t == DocType::Playbook ==> direct@ == "engine/docs"@ + "/"@ + "playbooks"@ + tail
            &&& t == DocType::Issue ==> direct@ == "engine/docs"@ + "/"@ + "issues"@ + tail
            &&& t == DocType::Spec ==> direct@ == "engine/docs"@ + "/"@ + "specs"@ + tail
            &&& t == DocType::Note ==> direct@ == "engine/docs"@ + "/"@ + "notes"@ + tail
        }),
{
    let tail = "/"@ + id_form(doc.id.0) + ".json"@;
    assert(direct@ =~= "engine/docs"@ + "/"@ + doc_dir(doc.doc_type) + tail);
}

/// The directory of docs and one for each type below it are listed, and of what
/// they show just the files that end in `.json` are read, in order.
pub proof fn law_doc_files_are_read(
    dirs: Vec<String>,
    listing: Vec<WorkspaceEntry>,
    more: Vec<WorkspaceEntry>,
    entry: WorkspaceEntry,
    is_doc: bool,
    x: Vec<String>,
    y: Vec<String>,
)
    requires
        call_ensures(doc_directories, (), dirs),
        more@ == listing@.push(entry),
        call_ensures(is_doc_entry, (&entry,), is_doc),
        call_ensures(docs_to_read, (&listing,), x),
        call_ensures(docs_to_read, (&more,), y),
    ensures
        dirs@.len() == 7,
        dirs@[0]@ == "engine/docs"@,
        dirs@[1]@ == "engine/docs"@ + "/"@ + "summaries"@,
        dirs@[2]@ == "engine/docs"@ + "/"@ + "lessons"@,
        dirs@[3]@ == "engine/docs"@ + "/"@ + "playbooks"@,
        dirs@[4]@ == "engine/docs"@ + "/"@ + "issues"@,
        dirs@[5]@ == "engine/docs"@ + "/"@ + "specs"@,
        dirs@[6]@ == "engine/docs"@ + "/"@ + "notes"@,
        is_doc <==> !entry.is_directory && exists|name: Seq<char>|
            entry.path@ == #[trigger] (name + ".json"@),
        listing@.len() == 0 ==> x@.len() == 0,
        is_doc ==> texts(y@) == texts(x@).push(entry.path@),
        !is_doc ==> texts(y@) == texts(x@),
{
    let all = texts(dirs@);
    assert(all.len() == dirs@.len());
    assert(all[0] == dirs@[0]@ && all[1] == dirs@[1]@ && all[2] == dirs@[2]@ && all[3] == dirs@[3]@
        && all[4] == dirs@[4]@ && all[5] == dirs@[5]@ && all[6] == dirs@[6]@);
    let path = entry.path@;
    let e = ".json"@;
    if finishes_with(path, e) {
        assert(path =~= path.take(path.len() - e.len()) + e);
    }
    if exists|name: Seq<char>| path == #[trigger] (name + e) {
        let name = choose|name: Seq<char>| path == #[trigger] (name + e);
        assert(path.subrange(path.len() - e.len(), path.len() as int) =~= e);
    }
    assert(more@.drop_last() =~= listing@);
    assert(texts(x@).len() == x@.len());
    if is_doc {
        assert(texts(x@) + seq![path] =~= texts(x@).push(path));
    } else {
        assert(texts(x@) + Seq::<Seq<char>>::empty() =~= texts(x@));
    }
}

/// A doc more that was read is a doc more that is loaded, under its own
/// identifier and in place of what was there; what could not be read adds
/// nothing.
pub proof fn law_read_docs_are_loaded(
    store: &mut HybridStore,
    other: &mut HybridStore,
    docs: Vec<Option<MemoryDoc>>,
    more: Vec<Option<MemoryDoc>>,
    doc: Option<MemoryDoc>,
    id: DocId,
    x: Option<&MemoryDoc>,
    y: Option<&MemoryDoc>,
    n: usize,
    m: usize,
)
    requires
        *old(store) == *old(other),
        more@ == docs@.push(doc),
        call_ensures(HybridStore::load_docs_from_workspace, (store, docs), n),
        call_ensures(HybridStore::load_docs_from_workspace, (other, more), m),
        call_ensures(HybridStore::load_memory_doc, (&*final(store), id), x),
        call_ensures(HybridStore::load_memory_doc, (&*final(other), id), y),
    ensures
        docs@.len() == 0 ==> n == 0,
        doc is Some ==> m == n + 1,
        doc is None ==> m == n,
        doc matches Some(d) ==> d.id == id ==> (y matches Some(found) && *found == d),
        (doc matches Some(d) ==> d.id != id) ==> (y is Some <==> x is Some) && (y matches Some(
            found,
        ) ==> *found == *x->0),
        final(other)@.threads == old(other)@.threads,
        final(other)@.leases == old(other)@.leases,
{
    assert(more@.drop_last() =~= docs@);
}

/// The active leases of a thread are exactly its own that the store holds and
/// that are not revoked, not over and not used up.
pub proof fn law_active_leases(
    store: HybridStore,
    thread_id: ThreadId,
    at: Timestamp,
    key: u128,
    i: int,
    r: Vec<&CapabilityLease>,
)
    requires
        call_ensures(HybridStore::load_active_leases_at, (&store, thread_id, at), r),
    ensures
        0 <= i < r@.len() ==> {
            let lease = *r@[i];
            &&& lease.thread_id == thread_id
            &&& !lease.revoked
            &&& lease.expires_at matches Some(end) ==> at.secs < end.secs || (at.secs == end.secs
                && at.nanos < end.nanos)
            &&& lease.uses_remaining matches Some(n) ==> n > 0
            &&& exists|k: u128| #[trigger] store@.leases.dom().contains(k) && store@.leases[k]
                == lease
        },
        store@.leases.dom().contains(key) ==> ({
            let lease = store@.leases[key];
            &&& lease.thread_id == thread_id
            &&& !lease.revoked
            &&& lease.expires_at matches Some(end) ==> at.secs < end.secs || (at.secs == end.secs
                && at.nanos < end.nanos)
            &&& lease.uses_remaining matches Some(n) ==> n > 0
        }) ==> exists|k: int| 0 <= k < r@.len() && *(#[trigger] r@[k]) == store@.leases[key],
{
    let wanted = active_lease(thread_id, at);
    let ks = choose|ks: Seq<u128>| #[trigger] is_selection(ks, r@, store@.leases, wanted);
    assert(is_selection(ks, r@, store@.leases, wanted));
    lemma_selection(ks, r@, store@.leases, wanted, key, i);
}

/// A saved lease is held as it is. A revoked one is held as revoked, with
/// nothing else of it changed; no other lease changes, and an unknown one
/// appears nowhere.
pub proof fn law_leases_are_saved_and_revoked(
    store: &mut HybridStore,
    lease: CapabilityLease,
    other: &mut HybridStore,
    id: LeaseId,
    key: u128,
)
    requires
        call_ensures(HybridStore::save_lease, (store, lease), ()),
        call_ensures(HybridStore::revoke_lease, (other, id), ()),
    ensures
        final(store)@.leases.dom().contains(lease.id.0) && final(store)@.leases[lease.id.0] == lease,
        key != lease.id.0 ==> found(final(store)@.leases, key) == found(old(store)@.leases, key),
        final(other)@.leases.dom().contains(key) <==> old(other)@.leases.dom().contains(key),
        old(other)@.leases.dom().contains(key) && key != id.0 ==> final(other)@.leases[key] == old(other)@.leases[key],
        old(other)@.leases.dom().contains(id.0) ==> {
            let before = old(other)@.leases[id.0];
            let after = final(other)@.leases[id.0];
            &&& after.revoked
            &&& after.id == before.id && after.thread_id == before.thread_id
            &&& after.uses_remaining == before.uses_remaining && after.expires_at
                == before.expires_at && after.max_uses == before.max_uses
            &&& after.granted_actions == before.granted_actions && after.capability_name
                == before.capability_name && after.granted_at == before.granted_at
        },
        final(other)@.threads == old(other)@.threads && final(other)@.docs == old(other)@.docs,
        final(store)@.threads == old(store)@.threads && final(store)@.docs == old(store)@.docs,
{
}

/// A new store holds nothing, and remembers whether there is a workspace.
pub proof fn law_new_stores_are_empty(
    has_workspace: bool,
    thread: ThreadId,
    doc: DocId,
    store: HybridStore,
    x: Option<&Thread>,
    y: Option<&MemoryDoc>,
)
    requires
        call_ensures(HybridStore::new, (has_workspace,), store),
        call_ensures(HybridStore::load_thread, (&store, thread), x),
        call_ensures(HybridStore::load_memory_doc, (&store, doc), y),
    ensures
        x is None && y is None,
        store@.has_workspace == has_workspace,
        store@.leases.dom() == Set::<u128>::empty(),
        store@.missions.dom() == Set::<u128>::empty(),
        store@.projects.dom() == Set::<u128>::empty(),
{
}

} // verus!
