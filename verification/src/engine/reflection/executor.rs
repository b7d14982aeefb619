//! The tools of a reflection thread: all of them only read.

use vstd::prelude::*;
use crate::engine::types::{
    action_views, doc_type_name, ActionDef, ActionDefView, ActionResult, ActionResultView,
    EffectType, EngineError, EngineErrorView, MemoryDoc, ProjectId,
};
use crate::json::{
    json_entries, json_list, lemma_view_of_compound, put_entry, text_of_json, u64_of_json, Json,
    JsonValue, Number, NumberView,
};
use crate::text::{
    chars_of, contains_text, has_text, join_texts, joined, lowercase, lowercase_of, replace_char,
    same_text, swap_char, texts,
};
use crate::time::Duration;

verus! {

broadcast use vstd::string::group_string_axioms;

// ── Capabilities ────────────────────────────────────────────

/// A named group of actions.
#[derive(Debug)]
pub struct Capability {
    pub name: String,
    pub description: String,
    pub actions: Vec<ActionDef>,
}

/// All capabilities, in the order of their registration.
#[derive(Debug)]
pub struct CapabilityRegistry {
    capabilities: Vec<Capability>,
}

/// The actions of some capabilities, one after the other.
pub open spec fn actions_of(list: Seq<Capability>) -> Seq<ActionDef>
    decreases list.len(),
{
    if list.len() == 0 {
        seq![]
    } else {
        actions_of(list.drop_last()) + list.last().actions@
    }
}

impl CapabilityRegistry {
    /// The registered actions, in order.
    pub closed spec fn actions(self) -> Seq<ActionDef> {
        actions_of(self.capabilities@)
    }

    /// Some action has this name.
    pub open spec fn knows(self, name: Seq<char>) -> bool {
        exists|i: int| 0 <= i < self.actions().len() && (#[trigger] self.actions()[i]).name@ == name
    }

    /// A registry without capabilities.
    pub fn new() -> (r: CapabilityRegistry)
        ensures
            r.actions() == Seq::<ActionDef>::empty(),
    {
        CapabilityRegistry { capabilities: Vec::new() }
    }

    /// Adds a capability.
    pub fn register(&mut self, capability: Capability)
        ensures
            final(self).actions() == old(self).actions() + capability.actions@,
    {
        self.capabilities.push(capability);
        assert(self.capabilities@.drop_last() =~= old(self).capabilities@);
    }

    /// All registered actions, in order.
    pub fn all_actions(&self) -> (r: Vec<&ActionDef>)
        ensures
            r@.len() == self.actions().len(),
            forall|i: int| 0 <= i < r@.len() ==> *(#[trigger] r@[i]) == self.actions()[i],
    {
        let list = &self.capabilities;
        let mut out: Vec<&ActionDef> = Vec::new();
        let mut i: usize = 0;
        assert(list@.take(0) =~= seq![]);
        while i < list.len()
            invariant
                i <= list.len(),
                out@.len() == actions_of(list@.take(i as int)).len(),
                forall|k: int|
                    0 <= k < out@.len() ==> *(#[trigger] out@[k]) == actions_of(
                        list@.take(i as int),
                    )[k],
            decreases list.len() - i,
        {
            let group = &list[i].actions;
            let ghost head = actions_of(list@.take(i as int));
            let mut j: usize = 0;
            while j < group.len()
                invariant
                    j <= group.len(),
                    out@.len() == head.len() + j,
                    forall|k: int|
                        0 <= k < out@.len() ==> *(#[trigger] out@[k]) == (head + group@)[k],
                decreases group.len() - j,
            {
                out.push(&group[j]);
                j += 1;
            }
            proof {
                let next = list@.take(i + 1);
                assert(next.drop_last() =~= list@.take(i as int));
                assert(next.last() == list@[i as int]);
                assert(actions_of(next) == head + group@);
            }
            i += 1;
        }
        assert(list@.take(i as int) =~= list@);
        out
    }

    /// Whether some action has this name.
    pub fn has_action(&self, name: &str) -> (r: bool)
        ensures
            r == self.knows(name@),
    {
        let all = self.all_actions();
        let mut i: usize = 0;
        while i < all.len()
            invariant
                i <= all.len(),
                all@.len() == self.actions().len(),
                forall|k: int| 0 <= k < all@.len() ==> *(#[trigger] all@[k]) == self.actions()[k],
                forall|k: int| 0 <= k < i ==> (#[trigger] self.actions()[k]).name@ != name@,
            decreases all.len() - i,
        {
            if same_text(all[i].name.as_str(), name) {
                assert(self.actions()[i as int].name@ == name@);
                return true;
            }
            assert(*all@[i as int] == self.actions()[i as int]);
            i += 1;
        }
        false
    }
}

// ── The tools ───────────────────────────────────────────────

/// A schema property: its type and what it is.
pub open spec fn property(kind: Seq<char>, description: Seq<char>) -> Json {
    Json::empty_object().with("type"@, Json::Text(kind)).with(
        "description"@,
        Json::Text(description),
    )
}

/// A schema of an object with these properties.
pub open spec fn object_schema(properties: Json) -> Json {
    Json::empty_object().with("type"@, Json::Text("object"@)).with("properties"@, properties)
}

/// A tool that reads local data and needs no approval.
pub open spec fn read_tool(name: Seq<char>, description: Seq<char>, schema: Json) -> ActionDefView {
    ActionDefView {
        name,
        description,
        parameters_schema: schema,
        effects: seq![EffectType::ReadLocal],
        requires_approval: false,
    }
}

/// The four tools of a reflection thread.
pub open spec fn reflection_tools() -> Seq<ActionDefView> {
    seq![
        read_tool(
            "get_transcript"@,
            "Get the full execution transcript of the completed thread, including messages, tool calls, errors, and outcomes."@,
            object_schema(Json::empty_object()),
        ),
        read_tool(
            "query_memory"@,
            "Search existing memory docs in this project for prior knowledge. Use to check if a lesson or issue has already been recorded."@,
            object_schema(
                Json::empty_object().with("query"@, property("string"@, "Search query"@)).with(
                    "max_docs"@,
                    property("integer"@, "Max results (default 5)"@),
                ),
            ).with("required"@, Json::Array(seq![Json::Text("query"@)])),
        ),
        read_tool(
            "check_tool_exists"@,
            "Check if a tool/action exists in the capability registry. Returns whether it exists and lists similar tool names if not found."@,
            object_schema(
                Json::empty_object().with("name"@, property("string"@, "Tool name to check"@)),
            ).with("required"@, Json::Array(seq![Json::Text("name"@)])),
        ),
        read_tool(
            "list_tools"@,
            "List all available tools/actions in the capability registry."@,
            object_schema(Json::empty_object()),
        ),
    ]
}

fn text_json(s: &str) -> (r: JsonValue)
    ensures
        r@ == Json::Text(s@),
{
    JsonValue::Str(s.to_string())
}

fn no_entries() -> (r: Vec<(String, JsonValue)>)
    ensures
        json_entries(r@) == Seq::<(Seq<char>, Json)>::empty(),
{
    let entries: Vec<(String, JsonValue)> = Vec::new();
    assert(json_entries(entries@) =~= seq![]);
    entries
}

fn property_schema(kind: &str, description: &str) -> (r: JsonValue)
    ensures
        r@ == property(kind@, description@),
{
    broadcast use lemma_view_of_compound;

    let mut entries = no_entries();
    put_entry(&mut entries, "type".to_string(), text_json(kind));
    put_entry(&mut entries, "description".to_string(), text_json(description));
    JsonValue::Object(entries)
}

fn schema_entries(properties: JsonValue) -> (r: Vec<(String, JsonValue)>)
    ensures
        Json::Object(json_entries(r@)) == object_schema(properties@),
        crate::json::keys_sorted(json_entries(r@)),
{
    let mut entries = no_entries();
    put_entry(&mut entries, "type".to_string(), text_json("object"));
    put_entry(&mut entries, "properties".to_string(), properties);
    entries
}

fn required(name: &str) -> (r: JsonValue)
    ensures
        r@ == Json::Array(seq![Json::Text(name@)]),
{
    broadcast use lemma_view_of_compound;

    let mut items: Vec<JsonValue> = Vec::new();
    items.push(text_json(name));
    assert(json_list(items@) =~= seq![Json::Text(name@)]);
    JsonValue::Array(items)
}

fn make_tool(name: &str, description: &str, schema: JsonValue) -> (r: ActionDef)
    ensures
        r@ == read_tool(name@, description@, schema@),
{
    let mut effects: Vec<EffectType> = Vec::new();
    effects.push(EffectType::ReadLocal);
    assert(effects@ =~= seq![EffectType::ReadLocal]);
    ActionDef {
        name: name.to_string(),
        description: description.to_string(),
        parameters_schema: schema,
        effects,
        requires_approval: false,
    }
}

fn empty_object() -> (r: JsonValue)
    ensures
        r@ == Json::empty_object(),
{
    broadcast use lemma_view_of_compound;

    JsonValue::Object(no_entries())
}

/// What a call of a reflection tool leads to.
#[derive(Debug)]
pub enum ReflectionStep {
    /// The tool's output.
    Answer(JsonValue),
    /// Search the project's docs.
    Retrieve { query: String, max_docs: u64 },
    Fail(EngineError),
}

/// What a step says.
pub ghost enum ReflectionStepView {
    Answer(Json),
    Retrieve { query: Seq<char>, max_docs: u64 },
    Fail(EngineErrorView),
}

impl View for ReflectionStep {
    type V = ReflectionStepView;

    open spec fn view(&self) -> ReflectionStepView {
        match *self {
            ReflectionStep::Answer(output) => ReflectionStepView::Answer(output@),
            ReflectionStep::Retrieve { query, max_docs } => ReflectionStepView::Retrieve {
                query: query@,
                max_docs,
            },
            ReflectionStep::Fail(e) => ReflectionStepView::Fail(e@),
        }
    }
}

/// The text parameter of that name; empty where it is missing or no text.
pub open spec fn text_param(parameters: Json, name: Seq<char>) -> Seq<char> {
    match parameters.member(name) {
        Some(v) => match text_of_json(v) {
            Some(s) => s,
            None => ""@,
        },
        None => ""@,
    }
}

/// The numeric parameter of that name, or a default.
pub open spec fn count_param(parameters: Json, name: Seq<char>, default: u64) -> u64 {
    match parameters.member(name) {
        Some(v) => match u64_of_json(v) {
            Some(n) => n,
            None => default,
        },
        None => default,
    }
}

/// The name with hyphens for underscores, or else with underscores for
/// hyphens.
pub open spec fn other_spelling(name: Seq<char>) -> Seq<char> {
    if name.contains('_') {
        swap_char(name, '_', '-')
    } else {
        swap_char(name, '-', '_')
    }
}

/// An action's name is like `name`: one holds the other whatever the case of
/// letters, or it is its other spelling.
pub open spec fn is_similar(action: Seq<char>, name: Seq<char>) -> bool {
    has_text(lowercase_of(action), lowercase_of(name)) || has_text(
        lowercase_of(name),
        lowercase_of(action),
    ) || action == other_spelling(name)
}

/// The names of all actions like `name`, in order.
pub open spec fn similar_names(actions: Seq<ActionDef>, name: Seq<char>) -> Seq<Json>
    decreases actions.len(),
{
    if actions.len() == 0 {
        seq![]
    } else {
        let rest = similar_names(actions.drop_last(), name);
        if is_similar(actions.last().name@, name) {
            rest.push(Json::Text(actions.last().name@))
        } else {
            rest
        }
    }
}

/// The answer to whether a tool exists: with similar names where it does not.
pub open spec fn existence_answer(registry: CapabilityRegistry, name: Seq<char>) -> Json {
    Json::empty_object().with("exists"@, Json::Bool(registry.knows(name))).with(
        "similar"@,
        Json::Array(
            if registry.knows(name) {
                seq![]
            } else {
                similar_names(registry.actions(), name)
            },
        ),
    )
}

/// A tool in the list of tools.
pub open spec fn tool_entry(a: ActionDef) -> Json {
    Json::empty_object().with("name"@, Json::Text(a.name@)).with(
        "description"@,
        Json::Text(a.description@),
    )
}

/// A list and its length.
pub open spec fn counted(key: Seq<char>, items: Seq<Json>) -> Json {
    Json::empty_object().with(key, Json::Array(items)).with(
        "count"@,
        Json::Number(NumberView::Integer(items.len() as int)),
    )
}

/// The answer to which tools there are.
pub open spec fn list_answer(actions: Seq<ActionDef>) -> Json {
    counted("tools"@, actions.map_values(|a: ActionDef| tool_entry(a)))
}

/// A doc as a search gives it.
pub open spec fn doc_entry(d: MemoryDoc) -> Json {
    Json::empty_object().with("type"@, Json::Text(doc_type_name(d.doc_type))).with(
        "title"@,
        Json::Text(d.title@),
    ).with("content"@, Json::Text(d.content@))
}

/// The answer to a search.
pub open spec fn docs_answer(docs: Seq<MemoryDoc>) -> Json {
    counted("docs"@, docs.map_values(|d: MemoryDoc| doc_entry(d)))
}

fn counted_list(key: &str, items: Vec<JsonValue>) -> (r: JsonValue)
    ensures
        r@ == counted(key@, json_list(items@)),
{
    broadcast use lemma_view_of_compound;

    let n: usize = items.len();
    let mut entries = no_entries();
    put_entry(&mut entries, key.to_string(), JsonValue::Array(items));
    put_entry(
        &mut entries,
        "count".to_string(),
        JsonValue::Number(Number::PosInt(n as u64)),
    );
    JsonValue::Object(entries)
}

fn tool_object(a: &ActionDef) -> (r: JsonValue)
    ensures
        r@ == tool_entry(*a),
{
    broadcast use lemma_view_of_compound;

    let mut entries = no_entries();
    put_entry(&mut entries, "name".to_string(), text_json(a.name.as_str()));
    put_entry(&mut entries, "description".to_string(), text_json(a.description.as_str()));
    JsonValue::Object(entries)
}

fn doc_object(d: &MemoryDoc) -> (r: JsonValue)
    ensures
        r@ == doc_entry(*d),
{
    broadcast use lemma_view_of_compound;

    let mut entries = no_entries();
    put_entry(&mut entries, "type".to_string(), text_json(d.doc_type.name()));
    put_entry(&mut entries, "title".to_string(), text_json(d.title.as_str()));
    put_entry(&mut entries, "content".to_string(), text_json(d.content.as_str()));
    JsonValue::Object(entries)
}

fn read_text(parameters: &JsonValue, name: &str) -> (r: String)
    ensures
        r@ == text_param(parameters@, name@),
{
    match parameters.get(name) {
        Some(v) => match v.as_str() {
            Some(s) => s.to_string(),
            None => "".to_string(),
        },
        None => "".to_string(),
    }
}

fn read_count(parameters: &JsonValue, name: &str, default: u64) -> (r: u64)
    ensures
        r == count_param(parameters@, name@, default),
{
    match parameters.get(name) {
        Some(v) => match v.as_u64() {
            Some(n) => n,
            None => default,
        },
        None => default,
    }
}

fn has_char(s: &str, c: char) -> (r: bool)
    ensures
        r == s@.contains(c),
{
    let chars: Vec<char> = chars_of(s);
    let mut i: usize = 0;
    while i < chars.len()
        invariant
            i <= chars.len(),
            chars@ == s@,
            forall|k: int| 0 <= k < i ==> s@[k] != c,
        decreases chars.len() - i,
    {
        if chars[i] == c {
            assert(s@[i as int] == c);
            return true;
        }
        i += 1;
    }
    false
}

fn respell(name: &str) -> (r: String)
    ensures
        r@ == other_spelling(name@),
{
    if has_char(name, '_') {
        replace_char(name, '_', '-')
    } else {
        replace_char(name, '-', '_')
    }
}

/// Gives the reflection thread its tools. `store` is where the project's docs
/// are searched.
#[derive(Debug)]
pub struct ReflectionExecutor<S> {
    store: S,
    capabilities: CapabilityRegistry,
    transcript: String,
    project_id: ProjectId,
}

impl<S> ReflectionExecutor<S> {
    /// The store that is searched.
    pub closed spec fn searched(self) -> S {
        self.store
    }

    /// The known capabilities.
    pub closed spec fn registry(self) -> CapabilityRegistry {
        self.capabilities
    }

    /// The transcript of the thread that is reflected on.
    pub closed spec fn text(self) -> Seq<char> {
        self.transcript@
    }

    /// The project of the thread.
    pub closed spec fn project(self) -> ProjectId {
        self.project_id
    }

    /// What a call of the tool `action_name` leads to.
    pub open spec fn outcome(self, action_name: Seq<char>, parameters: Json) -> ReflectionStepView {
        if action_name == "get_transcript"@ {
            ReflectionStepView::Answer(
                Json::empty_object().with("transcript"@, Json::Text(self.text())),
            )
        } else if action_name == "query_memory"@ {
            ReflectionStepView::Retrieve {
                query: text_param(parameters, "query"@),
                max_docs: count_param(parameters, "max_docs"@, 5),
            }
        } else if action_name == "check_tool_exists"@ {
            ReflectionStepView::Answer(
                existence_answer(self.registry(), text_param(parameters, "name"@)),
            )
        } else if action_name == "list_tools"@ {
            ReflectionStepView::Answer(list_answer(self.registry().actions()))
        } else {
            ReflectionStepView::Fail(
                EngineErrorView::Effect {
                    reason: "unknown reflection action: "@ + action_name,
                },
            )
        }
    }

    /// An executor for the reflection on one thread.
    pub fn new(
        store: S,
        capabilities: CapabilityRegistry,
        transcript: String,
        project_id: ProjectId,
    ) -> (r: ReflectionExecutor<S>)
        ensures
            r.searched() == store,
            r.registry() == capabilities,
            r.text() == transcript@,
            r.project() == project_id,
    {
        ReflectionExecutor { store, capabilities, transcript, project_id }
    }

    /// The store that is searched.
    pub fn store(&self) -> (r: &S)
        ensures
            *r == self.searched(),
    {
        &self.store
    }

    /// The project whose docs are searched.
    pub fn project_id(&self) -> (r: ProjectId)
        ensures
            r == self.project(),
    {
        self.project_id
    }

    /// The tools of a reflection thread.
    pub fn action_defs() -> (r: Vec<ActionDef>)
        ensures
            action_views(r@) == reflection_tools(),
    {
        broadcast use lemma_view_of_compound;

        let mut defs: Vec<ActionDef> = Vec::new();
        defs.push(
            make_tool(
                "get_transcript",
                "Get the full execution transcript of the completed thread, including messages, tool calls, errors, and outcomes.",
                JsonValue::Object(schema_entries(empty_object())),
            ),
        );
        let mut properties = no_entries();
        put_entry(&mut properties, "query".to_string(), property_schema("string", "Search query"));
        put_entry(
            &mut properties,
            "max_docs".to_string(),
            property_schema("integer", "Max results (default 5)"),
        );
        let mut schema = schema_entries(JsonValue::Object(properties));
        put_entry(&mut schema, "required".to_string(), required("query"));
        defs.push(
            make_tool(
                "query_memory",
                "Search existing memory docs in this project for prior knowledge. Use to check if a lesson or issue has already been recorded.",
                JsonValue::Object(schema),
            ),
        );
        let mut properties = no_entries();
        put_entry(
            &mut properties,
            "name".to_string(),
            property_schema("string", "Tool name to check"),
        );
        let mut schema = schema_entries(JsonValue::Object(properties));
        put_entry(&mut schema, "required".to_string(), required("name"));
        defs.push(
            make_tool(
                "check_tool_exists",
                "Check if a tool/action exists in the capability registry. Returns whether it exists and lists similar tool names if not found.",
                JsonValue::Object(schema),
            ),
        );
        defs.push(
            make_tool(
                "list_tools",
                "List all available tools/actions in the capability registry.",
                JsonValue::Object(schema_entries(empty_object())),
            ),
        );
        assert(action_views(defs@) =~= reflection_tools());
        defs
    }

    /// The tools of a reflection thread, whatever its leases.
    pub fn available_actions(&self) -> (r: Vec<ActionDef>)
        ensures
            action_views(r@) == reflection_tools(),
    {
        Self::action_defs()
    }

    fn find_similar(&self, name: &str) -> (r: Vec<JsonValue>)
        ensures
            json_list(r@) == similar_names(self.registry().actions(), name@),
    {
        let all = self.capabilities.all_actions();
        let ghost actions = self.capabilities.actions();
        let lower = lowercase(name);
        let alt = respell(name);
        let mut out: Vec<JsonValue> = Vec::new();
        let mut i: usize = 0;
        assert(actions.take(0) =~= seq![]);
        assert(json_list(out@) =~= seq![]);
        while i < all.len()
            invariant
                i <= all.len(),
                all@.len() == actions.len(),
                forall|k: int| 0 <= k < all@.len() ==> *(#[trigger] all@[k]) == actions[k],
                lower@ == lowercase_of(name@),
                alt@ == other_spelling(name@),
                json_list(out@) == similar_names(actions.take(i as int), name@),
            decreases all.len() - i,
        {
            proof {
                let next = actions.take(i + 1);
                assert(next.drop_last() =~= actions.take(i as int));
                assert(next.last() == actions[i as int]);
                assert(*all@[i as int] == actions[i as int]);
            }
            let a = all[i];
            let a_lower = lowercase(a.name.as_str());
            let ghost before = out@;
            if contains_text(a_lower.as_str(), lower.as_str()) || contains_text(
                lower.as_str(),
                a_lower.as_str(),
            ) || same_text(a.name.as_str(), alt.as_str()) {
                out.push(JsonValue::Str(a.name.clone()));
                assert(json_list(out@) =~= json_list(before).push(Json::Text(a.name@)));
            }
            i += 1;
        }
        assert(actions.take(i as int) =~= actions);
        out
    }

    fn check_tool(&self, name: &str) -> (r: JsonValue)
        ensures
            r@ == existence_answer(self.registry(), name@),
    {
        broadcast use lemma_view_of_compound;

        let exists_already = self.capabilities.has_action(name);
        let similar = if exists_already {
            let none: Vec<JsonValue> = Vec::new();
            assert(json_list(none@) =~= seq![]);
            none
        } else {
            self.find_similar(name)
        };
        let mut entries = no_entries();
        put_entry(&mut entries, "exists".to_string(), JsonValue::Bool(exists_already));
        put_entry(&mut entries, "similar".to_string(), JsonValue::Array(similar));
        JsonValue::Object(entries)
    }

    fn list_tools(&self) -> (r: JsonValue)
        ensures
            r@ == list_answer(self.registry().actions()),
    {
        let all = self.capabilities.all_actions();
        let ghost actions = self.capabilities.actions();
        let mut items: Vec<JsonValue> = Vec::new();
        let mut i: usize = 0;
        while i < all.len()
            invariant
                i <= all.len(),
                all@.len() == actions.len(),
                forall|k: int| 0 <= k < all@.len() ==> *(#[trigger] all@[k]) == actions[k],
                items.len() == i,
                forall|k: int| 0 <= k < i ==> (#[trigger] items@[k])@ == tool_entry(actions[k]),
            decreases all.len() - i,
        {
            assert(*all@[i as int] == actions[i as int]);
            items.push(tool_object(all[i]));
            i += 1;
        }
        assert(json_list(items@) =~= actions.map_values(|a: ActionDef| tool_entry(a)));
        counted_list("tools", items)
    }

    /// Calls a tool. A search is left to the store; its docs are answered with
    /// by `docs_output`.
    pub fn execute_action(&self, action_name: &str, parameters: &JsonValue) -> (r: ReflectionStep)
        ensures
            r@ == self.outcome(action_name@, parameters@),
    {
        broadcast use lemma_view_of_compound;

        if same_text(action_name, "get_transcript") {
            let mut entries = no_entries();
            put_entry(&mut entries, "transcript".to_string(), text_json(self.transcript.as_str()));
            ReflectionStep::Answer(JsonValue::Object(entries))
        } else if same_text(action_name, "query_memory") {
            ReflectionStep::Retrieve {
                query: read_text(parameters, "query"),
                max_docs: read_count(parameters, "max_docs", 5),
            }
        } else if same_text(action_name, "check_tool_exists") {
            let name = read_text(parameters, "name");
            ReflectionStep::Answer(self.check_tool(name.as_str()))
        } else if same_text(action_name, "list_tools") {
            ReflectionStep::Answer(self.list_tools())
        } else {
            let mut reason = "unknown reflection action: ".to_string();
            reason.append(action_name);
            ReflectionStep::Fail(EngineError::Effect { reason })
        }
    }

    /// The output of a search that found these docs.
    pub fn docs_output(docs: &Vec<MemoryDoc>) -> (r: JsonValue)
        ensures
            r@ == docs_answer(docs@),
    {
        let mut items: Vec<JsonValue> = Vec::new();
        let mut i: usize = 0;
        while i < docs.len()
            invariant
                i <= docs.len(),
                items.len() == i,
                forall|k: int| 0 <= k < i ==> (#[trigger] items@[k])@ == doc_entry(docs@[k]),
            decreases docs.len() - i,
        {
            items.push(doc_object(&docs[i]));
            i += 1;
        }
        assert(json_list(items@) =~= docs@.map_values(|d: MemoryDoc| doc_entry(d)));
        counted_list("docs", items)
    }

    /// The result of a tool that gave this output.
    pub fn result(action_name: &str, output: JsonValue, duration: Duration) -> (r: ActionResult)
        ensures
            r@ == (ActionResultView {
                call_id: seq![],
                action_name: action_name@,
                output: output@,
                is_error: false,
                duration,
            }),
    {
        let call_id = String::new();
        assert(call_id@ =~= seq![]);
        ActionResult {
            call_id,
            action_name: action_name.to_string(),
            output,
            is_error: false,
            duration,
        }
    }
}

// ── The prompt ──────────────────────────────────────────────

/// What the prompt begins with.
pub const REFLECTION_PREAMBLE: &'static str =
    "You are analyzing a completed agent thread to extract structured knowledge. You have tools to inspect the thread's execution, check existing knowledge, and verify tool names.\n\nWrite Python code in ```repl blocks to analyze the thread.";

/// What the prompt ends with.
pub const REFLECTION_POSTAMBLE: &'static str =
    "\n\n## Your Task\n\n1. Call `get_transcript()` to read the thread's execution history\n2. Analyze the transcript for: successes, failures, tool errors, lessons learned\n3. Call `query_memory(query)` to check if similar knowledge already exists\n4. For any tool errors with \"not found\", call `check_tool_exists(name)` to find the correct name\n5. Call `FINAL()` with a JSON object containing a `docs` array:\n\n```repl\nFINAL({\n    \"docs\": [\n        {\"type\": \"summary\", \"title\": \"...\", \"content\": \"2-4 sentence summary\"},\n        {\"type\": \"lesson\", \"title\": \"...\", \"content\": \"what was learned\"},\n        {\"type\": \"spec\", \"title\": \"...\", \"content\": \"ALIAS: wrong_name -> correct_name\"},\n        {\"type\": \"playbook\", \"title\": \"...\", \"content\": \"1. step one\\n2. step two\"}\n    ]\n})\n```\n\nRules:\n- Always include a \"summary\" doc\n- Include \"lesson\" only if there were errors or workarounds\n- Include \"spec\" only if tool-not-found errors occurred (verify with check_tool_exists)\n- Include \"playbook\" only if the thread completed successfully with 2+ tool calls\n- Skip docs that duplicate existing knowledge (check with query_memory first)\n- Keep content concise — each doc should be a few sentences, not paragraphs";

/// The keys of an object, in order.
pub open spec fn keys(entries: Seq<(Seq<char>, Json)>) -> Seq<Seq<char>> {
    entries.map_values(|e: (Seq<char>, Json)| e.0)
}

/// The names of an action's parameters, separated by commas; none where the
/// schema lists no properties.
pub open spec fn parameter_names(schema: Json) -> Seq<char> {
    match schema.member("properties"@) {
        Some(properties) => match properties {
            Json::Object(entries) => joined(keys(entries), ", "@),
            _ => ""@,
        },
        None => ""@,
    }
}

/// The line of one action: how it is called and what it does.
pub open spec fn action_line(a: ActionDef) -> Seq<char> {
    "- `"@ + a.name@ + "("@ + parameter_names(a.parameters_schema@) + ")` — "@ + a.description@
        + "\n"@
}

/// The lines of some actions.
pub open spec fn action_lines(actions: Seq<ActionDef>) -> Seq<char>
    decreases actions.len(),
{
    if actions.len() == 0 {
        seq![]
    } else {
        action_lines(actions.drop_last()) + action_line(actions.last())
    }
}

/// The prompt of a reflection thread.
pub open spec fn reflection_prompt(actions: Seq<ActionDef>, goal: Seq<char>) -> Seq<char> {
    REFLECTION_PREAMBLE@ + "\n## Available tools (call as Python functions)\n\n"@ + action_lines(
        actions,
    ) + "\n## Thread Under Analysis\n\nGoal: "@ + goal + "\n"@ + REFLECTION_POSTAMBLE@
}

fn write_parameter_names(schema: &JsonValue) -> (r: String)
    ensures
        r@ == parameter_names(schema@),
{
    broadcast use lemma_view_of_compound;

    match schema.get("properties") {
        Some(properties) => match properties {
            JsonValue::Object(entries) => {
                let mut names: Vec<String> = Vec::new();
                let mut i: usize = 0;
                while i < entries.len()
                    invariant
                        i <= entries.len(),
                        names.len() == i,
                        forall|k: int| 0 <= k < i ==> (#[trigger] names@[k])@ == entries@[k].0@,
                    decreases entries.len() - i,
                {
                    names.push(entries[i].0.clone());
                    i += 1;
                }
                assert(texts(names@) =~= keys(json_entries(entries@)));
                join_texts(&names, ", ")
            },
            _ => "".to_string(),
        },
        None => "".to_string(),
    }
}

fn write_action(a: &ActionDef) -> (r: String)
    ensures
        r@ == action_line(*a),
{
    let mut line = "- `".to_string();
    line.append(a.name.as_str());
    line.append("(");
    line.append(write_parameter_names(&a.parameters_schema).as_str());
    line.append(")` — ");
    line.append(a.description.as_str());
    line.append("\n");
    line
}

/// The system prompt of a reflection thread with these actions.
pub fn build_reflection_prompt(actions: &Vec<ActionDef>, thread_goal: &str) -> (r: String)
    ensures
        r@ == reflection_prompt(actions@, thread_goal@),
{
    let mut prompt = REFLECTION_PREAMBLE.to_string();
    prompt.append("\n## Available tools (call as Python functions)\n\n");
    let ghost head = prompt@;
    let mut i: usize = 0;
    assert(actions@.take(0) =~= seq![]);
    assert(prompt@ =~= head + action_lines(actions@.take(0)));
    while i < actions.len()
        invariant
            i <= actions.len(),
            prompt@ == head + action_lines(actions@.take(i as int)),
        decreases actions.len() - i,
    {
        proof {
            let next = actions@.take(i + 1);
            assert(next.drop_last() =~= actions@.take(i as int));
            assert(next.last() == actions@[i as int]);
        }
        prompt.append(write_action(&actions[i]).as_str());
        i += 1;
        assert(prompt@ =~= head + action_lines(actions@.take(i as int)));
    }
    assert(actions@.take(i as int) =~= actions@);
    prompt.append("\n## Thread Under Analysis\n\nGoal: ");
    prompt.append(thread_goal);
    prompt.append("\n");
    prompt.append(REFLECTION_POSTAMBLE);
    prompt
}

// ── Laws ────────────────────────────────────────────────────

/// Every offered tool is answered: a call of one never fails as unknown.
pub proof fn law_offered_tools_are_known<S>(
    executor: ReflectionExecutor<S>,
    i: int,
    parameters: Json,
)
    requires
        0 <= i < reflection_tools().len(),
    ensures
        !(executor.outcome(reflection_tools()[i].name, parameters) is Fail),
{
}

/// All tools only read local data and need no approval.
pub proof fn law_tools_only_read(i: int)
    requires
        0 <= i < reflection_tools().len(),
    ensures
        reflection_tools()[i].effects == seq![EffectType::ReadLocal],
        !reflection_tools()[i].requires_approval,
{
}

/// A missing tool's other spelling is always suggested where it exists.
pub proof fn law_other_spelling_is_suggested(actions: Seq<ActionDef>, name: Seq<char>, i: int)
    requires
        0 <= i < actions.len(),
        actions[i].name@ == other_spelling(name),
    ensures
        similar_names(actions, name).contains(Json::Text(other_spelling(name))),
    decreases actions.len(),
{
    let rest = similar_names(actions.drop_last(), name);
    if i < actions.len() - 1 {
        assert(actions.drop_last()[i] == actions[i]);
        law_other_spelling_is_suggested(actions.drop_last(), name, i);
        let k = rest.index_of(Json::Text(other_spelling(name)));
        assert(similar_names(actions, name)[k] == rest[k]);
    } else {
        assert(similar_names(actions, name).last() == Json::Text(other_spelling(name)));
    }
}

/// Every suggestion is the name of a known action.
pub proof fn law_suggestions_exist(actions: Seq<ActionDef>, name: Seq<char>, i: int)
    requires
        0 <= i < similar_names(actions, name).len(),
    ensures
        exists|k: int|
            0 <= k < actions.len() && similar_names(actions, name)[i] == Json::Text(
                (#[trigger] actions[k]).name@,
            ),
    decreases actions.len(),
{
    let short = actions.drop_last();
    let rest = similar_names(short, name);
    if i < rest.len() {
        law_suggestions_exist(short, name, i);
        let k = choose|k: int|
            0 <= k < short.len() && rest[i] == Json::Text((#[trigger] short[k]).name@);
        assert(actions[k] == short[k]);
    } else {
        assert(actions[actions.len() - 1] == actions.last());
    }
}

proof fn lemma_with(object: Json, key: Seq<char>, value: Json, other: Seq<char>)
    requires
        object is Object,
    ensures
        object.with(key, value) is Object,
        object.with(key, value).member(key) == Some(value),
        other != key ==> object.with(key, value).member(other) == object.member(other),
{
    crate::json::law_put_then_lookup(object->Object_0, key, value, other);
}

/// The transcript tool answers with the whole transcript.
pub proof fn law_transcripts_are_handed_out<S>(
    executor: ReflectionExecutor<S>,
    name: &str,
    parameters: JsonValue,
    r: ReflectionStep,
)
    requires
        call_ensures(ReflectionExecutor::<S>::execute_action, (&executor, name, &parameters), r),
        name@ == "get_transcript"@,
    ensures
        r matches ReflectionStep::Answer(v) && v@.member("transcript"@) == Some(
            Json::Text(executor.text()),
        ),
{
    lemma_with(
        Json::empty_object(),
        "transcript"@,
        Json::Text(executor.text()),
        "transcript"@,
    );
}

/// A search is handed on with its query, empty where there is none, and with
/// its limit, five where there is none that counts.
pub proof fn law_searches_are_handed_on<S>(
    executor: ReflectionExecutor<S>,
    name: &str,
    parameters: JsonValue,
    query: Option<&JsonValue>,
    limit: Option<&JsonValue>,
    r: ReflectionStep,
)
    requires
        call_ensures(ReflectionExecutor::<S>::execute_action, (&executor, name, &parameters), r),
        call_ensures(JsonValue::get, (&parameters, "query"), query),
        call_ensures(JsonValue::get, (&parameters, "max_docs"), limit),
    ensures
        r is Retrieve <==> name@ == "query_memory"@,
        r matches ReflectionStep::Retrieve { query: asked, max_docs } ==> {
            &&& query matches Some(JsonValue::Str(text)) ==> asked@ == text@
            &&& (query matches Some(v) ==> !(v is Str)) ==> asked@.len() == 0
            &&& limit matches Some(JsonValue::Number(Number::PosInt(n))) ==> max_docs == n
            &&& (limit matches Some(v) ==> !(v is Number)) ==> max_docs == 5
        },
{
    reveal_strlit("");
    reveal_strlit("query_memory");
    reveal_strlit("get_transcript");
    assert("query_memory"@.len() == 12 && "get_transcript"@.len() == 14);
}

/// A call of anything but the four tools fails as unknown, with its name.
pub proof fn law_unknown_tools_fail<S>(
    executor: ReflectionExecutor<S>,
    name: &str,
    parameters: JsonValue,
    r: ReflectionStep,
)
    requires
        call_ensures(ReflectionExecutor::<S>::execute_action, (&executor, name, &parameters), r),
    ensures
        r is Fail <==> name@ != "get_transcript"@ && name@ != "query_memory"@ && name@
            != "check_tool_exists"@ && name@ != "list_tools"@,
        r matches ReflectionStep::Fail(e) ==> (e matches EngineError::Effect { reason } && reason@
            == "unknown reflection action: "@ + name@),
{
}

proof fn lemma_similar(actions: Seq<ActionDef>, name: Seq<char>, i: int)
    requires
        0 <= i < actions.len(),
    ensures
        is_similar(actions[i].name@, name) ==> similar_names(actions, name).contains(
            Json::Text(actions[i].name@),
        ),
        forall|k: int|
            0 <= k < similar_names(actions, name).len() ==> (
            #[trigger] similar_names(actions, name)[k] matches Json::Text(found) && is_similar(
                found,
                name,
            )),
    decreases actions.len(),
{
    let all = similar_names(actions, name);
    let rest = similar_names(actions.drop_last(), name);
    if actions.len() > 1 {
        let j = if i < actions.len() - 1 {
            i
        } else {
            0
        };
        lemma_similar(actions.drop_last(), name, j);
    } else {
        assert(rest =~= seq![]);
    }
    if is_similar(actions[i].name@, name) {
        let want = Json::Text(actions[i].name@);
        if i < actions.len() - 1 {
            assert(actions.drop_last()[i] == actions[i]);
            let k = rest.index_of(want);
            assert(all[k] == rest[k]);
        } else {
            assert(all.last() == want);
            assert(all[all.len() - 1] == want);
        }
    }
    assert forall|k: int| 0 <= k < all.len() implies (#[trigger] all[k] matches Json::Text(found)
        && is_similar(found, name)) by {
        if k < rest.len() {
            assert(all[k] == rest[k]);
        }
    }
}

/// Asked whether a tool exists, the answer is whether an action of just that
/// name is registered. Where none is, the answer suggests exactly the
/// registered names that hold the asked one, or are held in it, whatever their
/// case, and the name with its underscores and hyphens the other way.
pub proof fn law_missing_tools_get_suggestions<S>(
    executor: ReflectionExecutor<S>,
    tool: &str,
    parameters: JsonValue,
    asked: Option<&JsonValue>,
    i: int,
    r: ReflectionStep,
)
    requires
        call_ensures(ReflectionExecutor::<S>::execute_action, (&executor, tool, &parameters), r),
        tool@ == "check_tool_exists"@,
        call_ensures(JsonValue::get, (&parameters, "name"), asked),
        asked matches Some(v) && v is Str,
        0 <= i < executor.registry().actions().len(),
    ensures
        ({
            let name = asked->0->Str_0@;
            let action = executor.registry().actions()[i].name@;
            let near = has_text(lowercase_of(action), lowercase_of(name)) || has_text(
                lowercase_of(name),
                lowercase_of(action),
            ) || (name.contains('_') && action == swap_char(name, '_', '-')) || (!name.contains('_')
                && action == swap_char(name, '-', '_'));
            let known = exists|k: int|
                0 <= k < executor.registry().actions().len() && (
                #[trigger] executor.registry().actions()[k]).name@ == name;
            r matches ReflectionStep::Answer(v) && {
                &&& v@.member("exists"@) == Some(Json::Bool(known))
                &&& v@.member("similar"@) matches Some(Json::Array(similar)) && {
                    &&& known ==> similar.len() == 0
                    &&& !known ==> (similar.contains(Json::Text(action)) <==> near)
                    &&& !known ==> forall|k: int|
                        0 <= k < similar.len() ==> (
                        #[trigger] similar[k]) is Text
                }
            }
        }),
{
    reveal_strlit("exists");
    reveal_strlit("similar");
    reveal_strlit("get_transcript");
    reveal_strlit("query_memory");
    reveal_strlit("check_tool_exists");
    assert("check_tool_exists"@.len() == 17 && "get_transcript"@.len() == 14
        && "query_memory"@.len() == 12);
    assert("exists"@.len() == 6 && "similar"@.len() == 7);
    let name = asked->0->Str_0@;
    let registry = executor.registry();
    let actions = registry.actions();
    let action = actions[i].name@;
    let first = Json::empty_object().with("exists"@, Json::Bool(registry.knows(name)));
    lemma_with(Json::empty_object(), "exists"@, Json::Bool(registry.knows(name)), "similar"@);
    let list = if registry.knows(name) {
        seq![]
    } else {
        similar_names(actions, name)
    };
    lemma_with(first, "similar"@, Json::Array(list), "exists"@);
    lemma_similar(actions, name, i);
    if !registry.knows(name) && list.contains(Json::Text(action)) {
        let k = list.index_of(Json::Text(action));
        assert(list[k] == Json::Text(action));
        assert(is_similar(action, name));
    }
}

/// The list of tools tells how many actions are registered, and of each its
/// name and its description, in order.
pub proof fn law_tools_are_listed<S>(
    executor: ReflectionExecutor<S>,
    tool: &str,
    parameters: JsonValue,
    i: int,
    r: ReflectionStep,
)
    requires
        call_ensures(ReflectionExecutor::<S>::execute_action, (&executor, tool, &parameters), r),
        tool@ == "list_tools"@,
        0 <= i < executor.registry().actions().len(),
    ensures
        r matches ReflectionStep::Answer(v) && {
            let n = executor.registry().actions().len();
            let action = executor.registry().actions()[i];
            &&& v@.member("count"@) == Some(Json::Number(NumberView::Integer(n as int)))
            &&& v@.member("tools"@) matches Some(Json::Array(items)) && items.len() == n
                && items[i].member("name"@) == Some(Json::Text(action.name@)) && items[i].member(
                "description"@,
            ) == Some(Json::Text(action.description@))
        },
{
    reveal_strlit("get_transcript");
    reveal_strlit("query_memory");
    reveal_strlit("check_tool_exists");
    reveal_strlit("list_tools");
    assert("check_tool_exists"@.len() == 17 && "get_transcript"@.len() == 14
        && "query_memory"@.len() == 12 && "list_tools"@.len() == 10);
    let actions = executor.registry().actions();
    lemma_counted("tools"@, actions.map_values(|a: ActionDef| tool_entry(a)));
    lemma_tool_entry(actions[i]);
}

proof fn lemma_counted(key: Seq<char>, items: Seq<Json>)
    requires
        key == "tools"@ || key == "docs"@,
    ensures
        counted(key, items).member(key) == Some(Json::Array(items)),
        counted(key, items).member("count"@) == Some(
            Json::Number(NumberView::Integer(items.len() as int)),
        ),
{
    reveal_strlit("tools");
    reveal_strlit("docs");
    reveal_strlit("count");
    assert("tools"@[0] == 't' && "docs"@[0] == 'd' && "count"@[0] == 'c');
    let first = Json::empty_object().with(key, Json::Array(items));
    lemma_with(Json::empty_object(), key, Json::Array(items), "count"@);
    lemma_with(first, "count"@, Json::Number(NumberView::Integer(items.len() as int)), key);
}

proof fn lemma_tool_entry(a: ActionDef)
    ensures
        tool_entry(a).member("name"@) == Some(Json::Text(a.name@)),
        tool_entry(a).member("description"@) == Some(Json::Text(a.description@)),
{
    reveal_strlit("name");
    reveal_strlit("description");
    assert("name"@.len() == 4 && "description"@.len() == 11);
    let first = Json::empty_object().with("name"@, Json::Text(a.name@));
    lemma_with(Json::empty_object(), "name"@, Json::Text(a.name@), "description"@);
    lemma_with(first, "description"@, Json::Text(a.description@), "name"@);
}

/// What a search found is told doc by doc, with its type, its title and its
/// content, and counted.
pub proof fn law_found_docs_are_told<S>(
    docs: Vec<MemoryDoc>,
    i: int,
    kind: &'static str,
    r: JsonValue,
)
    requires
        call_ensures(ReflectionExecutor::<S>::docs_output, (&docs,), r),
        0 <= i < docs@.len(),
        call_ensures(crate::engine::types::DocType::name, (&docs@[i].doc_type,), kind),
    ensures
        r@.member("count"@) == Some(Json::Number(NumberView::Integer(docs@.len() as int))),
        r@.member("docs"@) matches Some(Json::Array(items)) && items.len() == docs@.len()
            && items[i].member("type"@) == Some(Json::Text(kind@)) && items[i].member("title"@)
            == Some(Json::Text(docs@[i].title@)) && items[i].member("content"@) == Some(
            Json::Text(docs@[i].content@),
        ),
{
    reveal_strlit("type");
    reveal_strlit("title");
    reveal_strlit("content");
    assert("type"@.len() == 4 && "title"@.len() == 5 && "content"@.len() == 7);
    lemma_counted("docs"@, docs@.map_values(|d: MemoryDoc| doc_entry(d)));
    let d = docs@[i];
    let first = Json::empty_object().with("type"@, Json::Text(kind@));
    let second = first.with("title"@, Json::Text(d.title@));
    lemma_with(Json::empty_object(), "type"@, Json::Text(kind@), "type"@);
    lemma_with(first, "title"@, Json::Text(d.title@), "type"@);
    lemma_with(second, "content"@, Json::Text(d.content@), "type"@);
    lemma_with(second, "content"@, Json::Text(d.content@), "title"@);
}

/// A reflection thread has four tools and no other. Each only reads local data,
/// needs no approval, and is answered when it is called.
pub proof fn law_reflection_tools<S>(
    executor: ReflectionExecutor<S>,
    i: int,
    name: &str,
    parameters: JsonValue,
    defs: Vec<ActionDef>,
    offered: Vec<ActionDef>,
    r: ReflectionStep,
)
    requires
        call_ensures(ReflectionExecutor::<S>::action_defs, (), defs),
        call_ensures(ReflectionExecutor::<S>::available_actions, (&executor,), offered),
        0 <= i < defs@.len(),
        name@ == defs@[i].name@,
        call_ensures(ReflectionExecutor::<S>::execute_action, (&executor, name, &parameters), r),
    ensures
        defs@.len() == 4,
        offered@.len() == 4,
        offered@[i]@ == defs@[i]@,
        defs@[0].name@ == "get_transcript"@,
        defs@[1].name@ == "query_memory"@,
        defs@[2].name@ == "check_tool_exists"@,
        defs@[3].name@ == "list_tools"@,
        defs@[i].effects@ == seq![EffectType::ReadLocal],
        !defs@[i].requires_approval,
        !(r is Fail),
        defs@[1].parameters_schema@.member("required"@) == Some(
            Json::Array(seq![Json::Text("query"@)]),
        ),
        defs@[2].parameters_schema@.member("required"@) == Some(
            Json::Array(seq![Json::Text("name"@)]),
        ),
{
    let views = action_views(defs@);
    assert(views.len() == defs@.len());
    assert(action_views(offered@).len() == offered@.len());
    assert(views[0] == defs@[0]@ && views[1] == defs@[1]@ && views[2] == defs@[2]@ && views[3]
        == defs@[3]@);
    assert(views[i] == defs@[i]@);
    assert(action_views(offered@)[i] == offered@[i]@);
    let q = object_schema(
        Json::empty_object().with("query"@, property("string"@, "Search query"@)).with(
            "max_docs"@,
            property("integer"@, "Max results (default 5)"@),
        ),
    );
    let n = object_schema(
        Json::empty_object().with("name"@, property("string"@, "Tool name to check"@)),
    );
    lemma_with(q, "required"@, Json::Array(seq![Json::Text("query"@)]), "required"@);
    lemma_with(n, "required"@, Json::Array(seq![Json::Text("name"@)]), "required"@);
}

/// A registry knows the actions of just the capabilities that were registered,
/// in the order of their registration.
pub proof fn law_registered_actions_are_known(
    fresh: CapabilityRegistry,
    registry: &mut CapabilityRegistry,
    capability: Capability,
    name: &str,
    all: Vec<&ActionDef>,
    known: bool,
)
    requires
        call_ensures(CapabilityRegistry::new, (), fresh),
        call_ensures(CapabilityRegistry::register, (registry, capability), ()),
        call_ensures(CapabilityRegistry::all_actions, (&*final(registry),), all),
        call_ensures(CapabilityRegistry::has_action, (&*final(registry), name), known),
    ensures
        fresh.actions().len() == 0,
        all@.len() == old(registry).actions().len() + capability.actions@.len(),
        forall|i: int|
            0 <= i < old(registry).actions().len() ==> *(#[trigger] all@[i]) == old(registry).actions()[i],
        forall|i: int|
            0 <= i < capability.actions@.len() ==> *all@[old(registry).actions().len() + i]
                == #[trigger] capability.actions@[i],
        known <==> exists|i: int| 0 <= i < all@.len() && (#[trigger] all@[i]).name@ == name@,
{
    let actions = final(registry).actions();
    if known {
        let i = choose|i: int| 0 <= i < actions.len() && (#[trigger] actions[i]).name@ == name@;
        assert(*all@[i] == actions[i]);
    }
    if exists|i: int| 0 <= i < all@.len() && (#[trigger] all@[i]).name@ == name@ {
        let i = choose|i: int| 0 <= i < all@.len() && (#[trigger] all@[i]).name@ == name@;
        assert(actions[i].name@ == name@);
    }
}

/// A result of a tool bears its name and its output, and is no error.
pub proof fn law_tool_results<S>(
    name: &str,
    output: JsonValue,
    duration: Duration,
    r: ActionResult,
)
    requires
        call_ensures(ReflectionExecutor::<S>::result, (name, output, duration), r),
    ensures
        r.action_name@ == name@,
        r.output@ == output@,
        r.duration == duration,
        !r.is_error,
        r.call_id@.len() == 0,
{
}

/// A prompt tells of the thread's goal behind the tools. A tool more is a line
/// more behind the others: how it is called, with its parameters by name, and
/// what it does.
pub proof fn law_prompts_tell_tools_and_goal(
    actions: Vec<ActionDef>,
    more: Vec<ActionDef>,
    action: ActionDef,
    goal: &str,
    x: String,
    y: String,
)
    requires
        more@ == actions@.push(action),
        call_ensures(build_reflection_prompt, (&actions, goal), x),
        call_ensures(build_reflection_prompt, (&more, goal), y),
    ensures
        exists|front: Seq<char>, back: Seq<char>|
            {
                &&& x@ == #[trigger] (front + back)
                &&& y@ == front + ("- `"@ + action.name@ + "("@ + parameter_names(
                    action.parameters_schema@,
                ) + ")` — "@ + action.description@ + "\n"@) + back
                &&& back == "\n## Thread Under Analysis\n\nGoal: "@ + goal@ + "\n"@
                    + REFLECTION_POSTAMBLE@
                &&& actions@.len() == 0 ==> front == REFLECTION_PREAMBLE@
                    + "\n## Available tools (call as Python functions)\n\n"@
            },
{
    assert(more@.drop_last() =~= actions@);
    let front = REFLECTION_PREAMBLE@ + "\n## Available tools (call as Python functions)\n\n"@
        + action_lines(actions@);
    let back = "\n## Thread Under Analysis\n\nGoal: "@ + goal@ + "\n"@ + REFLECTION_POSTAMBLE@;
    assert(x@ =~= front + back);
    assert(y@ =~= front + action_line(action) + back);
    if actions@.len() == 0 {
        assert(front =~= REFLECTION_PREAMBLE@
            + "\n## Available tools (call as Python functions)\n\n"@);
    }
}

/// The parameters of a tool are the keys of its schema's properties.
pub proof fn law_parameter_names(entries: Seq<(Seq<char>, Json)>, schema: Json)
    requires
        schema.member("properties"@) == Some(Json::Object(entries)),
    ensures
        entries.len() == 0 ==> parameter_names(schema).len() == 0,
        entries.len() == 1 ==> parameter_names(schema) == entries[0].0,
        entries.len() > 1 ==> exists|front: Seq<char>|
            parameter_names(schema) == #[trigger] (front + ", "@ + entries.last().0),
{
    let names = keys(entries);
    if entries.len() > 1 {
        assert(parameter_names(schema) == joined(names.drop_last(), ", "@) + ", "@
            + entries.last().0);
    }
}

proof fn lemma_schema(properties: Json, names: Json)
    ensures
        object_schema(properties) is Object,
        object_schema(properties).member("type"@) == Some(Json::Text("object"@)),
        object_schema(properties).member("properties"@) == Some(properties),
        object_schema(properties).with("required"@, names).member("type"@) == Some(
            Json::Text("object"@),
        ),
        object_schema(properties).with("required"@, names).member("properties"@) == Some(
            properties,
        ),
{
    reveal_strlit("type");
    reveal_strlit("properties");
    reveal_strlit("required");
    assert("type"@.len() == 4 && "properties"@.len() == 10 && "required"@.len() == 8);
    let typed = Json::empty_object().with("type"@, Json::Text("object"@));
    lemma_with(Json::empty_object(), "type"@, Json::Text("object"@), "type"@);
    lemma_with(typed, "properties"@, properties, "type"@);
    lemma_with(object_schema(properties), "required"@, names, "type"@);
    lemma_with(object_schema(properties), "required"@, names, "properties"@);
}

proof fn lemma_property(kind: Seq<char>, description: Seq<char>)
    ensures
        property(kind, description).member("type"@) == Some(Json::Text(kind)),
        property(kind, description).member("description"@) == Some(Json::Text(description)),
{
    reveal_strlit("type");
    reveal_strlit("description");
    assert("type"@.len() == 4 && "description"@.len() == 11);
    let typed = Json::empty_object().with("type"@, Json::Text(kind));
    lemma_with(Json::empty_object(), "type"@, Json::Text(kind), "type"@);
    lemma_with(typed, "description"@, Json::Text(description), "type"@);
}

/// The parameter `name` is described by its type and by what it is.
pub open spec fn describes(
    schema: Json,
    name: Seq<char>,
    kind: Seq<char>,
    description: Seq<char>,
) -> bool {
    &&& schema.member("properties"@) matches Some(properties)
    &&& properties.member(name) matches Some(p)
    &&& p.member("type"@) == Some(Json::Text(kind))
    &&& p.member("description"@) == Some(Json::Text(description))
}

/// The tools say what they are for and which parameters they take: the two that
/// ask for everything take none, a search takes its words and how many docs it
/// may give, and a check the name that is checked.
pub proof fn law_tools_describe_themselves<S>(defs: Vec<ActionDef>, i: int)
    requires
        call_ensures(ReflectionExecutor::<S>::action_defs, (), defs),
        0 <= i < 4,
    ensures
        defs@[0].description@
            == "Get the full execution transcript of the completed thread, including messages, tool calls, errors, and outcomes."@,
        defs@[1].description@
            == "Search existing memory docs in this project for prior knowledge. Use to check if a lesson or issue has already been recorded."@,
        defs@[2].description@
            == "Check if a tool/action exists in the capability registry. Returns whether it exists and lists similar tool names if not found."@,
        defs@[3].description@ == "List all available tools/actions in the capability registry."@,
        defs@[i].parameters_schema@.member("type"@) == Some(Json::Text("object"@)),
        defs@[0].parameters_schema@.member("properties"@) == Some(Json::Object(seq![])),
        defs@[3].parameters_schema@.member("properties"@) == Some(Json::Object(seq![])),
        describes(defs@[1].parameters_schema@, "query"@, "string"@, "Search query"@),
        describes(
            defs@[1].parameters_schema@,
            "max_docs"@,
            "integer"@,
            "Max results (default 5)"@,
        ),
        describes(defs@[2].parameters_schema@, "name"@, "string"@, "Tool name to check"@),
{
    let views = action_views(defs@);
    assert(views.len() == defs@.len());
    assert(views[0] == defs@[0]@ && views[1] == defs@[1]@ && views[2] == defs@[2]@ && views[3]
        == defs@[3]@);
    reveal_strlit("query");
    reveal_strlit("max_docs");
    assert("query"@.len() == 5 && "max_docs"@.len() == 8);
    let words = property("string"@, "Search query"@);
    let most = property("integer"@, "Max results (default 5)"@);
    let checked = property("string"@, "Tool name to check"@);
    let first = Json::empty_object().with("query"@, words);
    let search = first.with("max_docs"@, most);
    let check = Json::empty_object().with("name"@, checked);
    lemma_property("string"@, "Search query"@);
    lemma_property("integer"@, "Max results (default 5)"@);
    lemma_property("string"@, "Tool name to check"@);
    lemma_with(Json::empty_object(), "query"@, words, "query"@);
    lemma_with(first, "max_docs"@, most, "query"@);
    lemma_with(Json::empty_object(), "name"@, checked, "name"@);
    lemma_schema(Json::empty_object(), Json::Null);
    lemma_schema(search, Json::Array(seq![Json::Text("query"@)]));
    lemma_schema(check, Json::Array(seq![Json::Text("name"@)]));
}

/// Parameters are told by their names, in order and with commas between them;
/// a schema without properties tells none.
pub proof fn law_parameters_are_told_in_order(
    entries: Seq<(Seq<char>, Json)>,
    name: Seq<char>,
    value: Json,
    before: Json,
    after: Json,
    none: Json,
)
    requires
        before.member("properties"@) == Some(Json::Object(entries)),
        after.member("properties"@) == Some(Json::Object(entries.push((name, value)))),
        none.member("properties"@) matches Some(p) ==> !(p is Object),
    ensures
        parameter_names(none).len() == 0,
        entries.len() > 0 ==> parameter_names(after) == parameter_names(before) + ", "@ + name,
{
    reveal_strlit("");
    let names = keys(entries);
    let more = keys(entries.push((name, value)));
    assert(more.drop_last() =~= names);
    assert(more.last() == name);
}

} // verus!
