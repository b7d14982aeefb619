//! The settings handlers.

use vstd::prelude::*;
use crate::json::{bool_of_json, u64_of_json, Json, JsonValue, Number, NumberView};
use crate::time::{rfc3339, rfc3339_of, Timestamp};
use crate::web::reply::{answer, store_answer, StatusCode, StoreReply};

verus! {

broadcast use vstd::string::group_string_axioms;

/// A stored setting.
#[derive(Debug)]
pub struct SettingRow {
    pub key: String,
    pub value: JsonValue,
    pub updated_at: Timestamp,
}

/// A setting as it is sent out.
#[derive(Debug)]
pub struct SettingResponse {
    pub key: String,
    pub value: JsonValue,
    pub updated_at: String,
}

/// `response` shows the stored setting `row`.
pub open spec fn shows(response: SettingResponse, row: SettingRow) -> bool {
    &&& response.key == row.key
    &&& response.value == row.value
    &&& response.updated_at@ == rfc3339_of(row.updated_at.secs, row.updated_at.nanos)
}

fn show(row: SettingRow) -> (r: SettingResponse)
    requires
        row.updated_at.valid(),
    ensures
        shows(r, row),
{
    let updated_at = rfc3339(row.updated_at);
    SettingResponse { key: row.key, value: row.value, updated_at }
}

/// All settings, in the store's order.
pub fn settings_list_handler(reply: StoreReply<Vec<SettingRow>>) -> (r: Result<
    Vec<SettingResponse>,
    StatusCode,
>)
    requires
        reply matches StoreReply::Done(rows) ==> forall|i: int|
            0 <= i < rows@.len() ==> (#[trigger] rows@[i]).updated_at.valid(),
    ensures
        (match store_answer(reply) {
            Ok(rows) => r is Ok && r->Ok_0@.len() == rows@.len() && forall|i: int|
                0 <= i < rows@.len() ==> shows(#[trigger] r->Ok_0@[i], rows@[i]),
            Err(status) => r is Err && r->Err_0 == status,
        }),
{
    match answer(reply) {
        Ok(rows) => {
            let ghost all = rows@;
            let mut rest: Vec<SettingRow> = rows;
            let mut out: Vec<SettingResponse> = Vec::new();
            while rest.len() > 0
                invariant
                    out.len() + rest.len() == all.len(),
                    rest@ == all.skip(out.len() as int),
                    forall|i: int| 0 <= i < all.len() ==> (#[trigger] all[i]).updated_at.valid(),
                    forall|i: int| 0 <= i < out.len() ==> shows(#[trigger] out@[i], all[i]),
                decreases rest.len(),
            {
                assert(rest@[0] == all[out.len() as int]);
                let row = rest.remove(0);
                out.push(show(row));
                assert(rest@ =~= all.skip(out.len() as int));
            }
            Ok(out)
        },
        Err(status) => Err(status),
    }
}

/// One setting, or 404 where there is none under the key.
pub fn settings_get_handler(reply: StoreReply<Option<SettingRow>>) -> (r: Result<
    SettingResponse,
    StatusCode,
>)
    requires
        reply matches StoreReply::Done(Some(row)) ==> row.updated_at.valid(),
    ensures
        (match store_answer(reply) {
            Ok(Some(row)) => r is Ok && shows(r->Ok_0, row),
            Ok(None) => r is Err && r->Err_0 == StatusCode::NotFound,
            Err(status) => r is Err && r->Err_0 == status,
        }),
{
    match answer(reply) {
        Ok(Some(row)) => Ok(show(row)),
        Ok(None) => Err(StatusCode::NotFound),
        Err(status) => Err(status),
    }
}

/// The answer to a write whose store reply is `reply`: 204 where it was done.
pub open spec fn write_answer(reply: StoreReply<()>) -> Result<StatusCode, StatusCode> {
    match store_answer(reply) {
        Ok(_) => Ok(StatusCode::NoContent),
        Err(status) => Err(status),
    }
}

fn answer_write(reply: StoreReply<()>) -> (r: Result<StatusCode, StatusCode>)
    ensures
        r == write_answer(reply),
{
    match answer(reply) {
        Ok(_) => Ok(StatusCode::NoContent),
        Err(status) => Err(status),
    }
}

/// The answer to setting one key.
pub fn settings_set_handler(reply: StoreReply<()>) -> (r: Result<StatusCode, StatusCode>)
    ensures
        r == write_answer(reply),
{
    answer_write(reply)
}

/// The answer to deleting one key.
pub fn settings_delete_handler(reply: StoreReply<()>) -> (r: Result<StatusCode, StatusCode>)
    ensures
        r == write_answer(reply),
{
    answer_write(reply)
}

/// All settings as one map.
pub fn settings_export_handler(reply: StoreReply<Vec<(String, JsonValue)>>) -> (r: Result<
    Vec<(String, JsonValue)>,
    StatusCode,
>)
    ensures
        r == store_answer(reply),
{
    answer(reply)
}

/// The answer to replacing all settings.
pub fn settings_import_handler(reply: StoreReply<()>) -> (r: Result<StatusCode, StatusCode>)
    ensures
        r == write_answer(reply),
{
    answer_write(reply)
}

// ── Memory hygiene ──────────────────────────────────────────

/// How long memories are kept and how often they are tidied up.
#[derive(Clone, Copy, Debug, PartialEq, Eq, Structural)]
pub struct HygieneSettings {
    pub enabled: bool,
    pub daily_retention_days: u32,
    pub conversation_retention_days: u32,
    pub cadence_hours: u32,
}

/// The stored values under the four hygiene keys; nothing where a key has no
/// value or could not be read.
#[derive(Debug)]
pub struct HygieneValues {
    pub enabled: Option<JsonValue>,
    pub daily_retention_days: Option<JsonValue>,
    pub conversation_retention_days: Option<JsonValue>,
    pub cadence_hours: Option<JsonValue>,
}

/// A change of the hygiene settings; what is absent stays.
#[derive(Clone, Copy, Debug, PartialEq, Eq, Structural)]
pub struct HygieneRequest {
    pub enabled: Option<bool>,
    pub daily_retention_days: Option<u32>,
    pub conversation_retention_days: Option<u32>,
    pub cadence_hours: Option<u32>,
}

/// Key of the switch.
pub open spec fn enabled_key() -> Seq<char> {
    "memory_hygiene.enabled"@
}

/// Key of the retention of daily notes.
pub open spec fn daily_key() -> Seq<char> {
    "memory_hygiene.daily_retention_days"@
}

/// Key of the retention of conversations.
pub open spec fn conversation_key() -> Seq<char> {
    "memory_hygiene.conversation_retention_days"@
}

/// Key of the cadence.
pub open spec fn cadence_key() -> Seq<char> {
    "memory_hygiene.cadence_hours"@
}

/// The value of an optional JSON.
pub open spec fn opt_json(v: Option<JsonValue>) -> Option<Json> {
    match v {
        Some(j) => Some(j@),
        None => None,
    }
}

/// A stored switch, or its default where it is no boolean.
pub open spec fn read_flag(v: Option<Json>, default: bool) -> bool {
    match v {
        Some(j) => match bool_of_json(j) {
            Some(b) => b,
            None => default,
        },
        None => default,
    }
}

/// A stored number modulo 2^32, or its default where it is no natural number.
pub open spec fn read_count(v: Option<Json>, default: u32) -> u32 {
    match v {
        Some(j) => match u64_of_json(j) {
            Some(n) => (n % 0x1_0000_0000) as u32,
            None => default,
        },
        None => default,
    }
}

fn stored_flag(v: &Option<JsonValue>, default: bool) -> (r: bool)
    ensures
        r == read_flag(opt_json(*v), default),
{
    match v {
        Some(j) => match j.as_bool() {
            Some(b) => b,
            None => default,
        },
        None => default,
    }
}

fn stored_count(v: &Option<JsonValue>, default: u32) -> (r: u32)
    ensures
        r == read_count(opt_json(*v), default),
{
    match v {
        Some(j) => match j.as_u64() {
            Some(n) => (n % 0x1_0000_0000) as u32,
            None => default,
        },
        None => default,
    }
}

/// The settings that stored values stand for.
pub open spec fn hygiene_of(values: HygieneValues, defaults: HygieneSettings) -> HygieneSettings {
    HygieneSettings {
        enabled: read_flag(opt_json(values.enabled), defaults.enabled),
        daily_retention_days: read_count(
            opt_json(values.daily_retention_days),
            defaults.daily_retention_days,
        ),
        conversation_retention_days: read_count(
            opt_json(values.conversation_retention_days),
            defaults.conversation_retention_days,
        ),
        cadence_hours: read_count(opt_json(values.cadence_hours), defaults.cadence_hours),
    }
}

/// The current hygiene settings: the stored value of each key, else its
/// default; all defaults where there is no store.
pub fn settings_hygiene_get_handler(
    values: &Option<HygieneValues>,
    defaults: HygieneSettings,
) -> (r: HygieneSettings)
    ensures
        r == (match *values {
            Some(stored) => hygiene_of(stored, defaults),
            None => defaults,
        }),
{
    match values {
        Some(stored) => HygieneSettings {
            enabled: stored_flag(&stored.enabled, defaults.enabled),
            daily_retention_days: stored_count(
                &stored.daily_retention_days,
                defaults.daily_retention_days,
            ),
            conversation_retention_days: stored_count(
                &stored.conversation_retention_days,
                defaults.conversation_retention_days,
            ),
            cadence_hours: stored_count(&stored.cadence_hours, defaults.cadence_hours),
        },
        None => defaults,
    }
}

/// The four hygiene keys, in the order in which they are read and written.
pub fn hygiene_keys() -> (r: Vec<&'static str>)
    ensures
        r@.len() == 4,
        r@[0]@ == enabled_key(),
        r@[1]@ == daily_key(),
        r@[2]@ == conversation_key(),
        r@[3]@ == cadence_key(),
{
    let mut keys: Vec<&'static str> = Vec::new();
    keys.push("memory_hygiene.enabled");
    keys.push("memory_hygiene.daily_retention_days");
    keys.push("memory_hygiene.conversation_retention_days");
    keys.push("memory_hygiene.cadence_hours");
    keys
}

/// One write: a key and its new value.
pub open spec fn write_view(w: (String, JsonValue)) -> (Seq<char>, Json) {
    (w.0@, w.1@)
}

/// The writes of a list.
pub open spec fn write_views(list: Seq<(String, JsonValue)>) -> Seq<(Seq<char>, Json)> {
    list.map_values(|w: (String, JsonValue)| write_view(w))
}

/// One write where a value is given, none otherwise.
pub open spec fn write_if(key: Seq<char>, value: Option<Json>) -> Seq<(Seq<char>, Json)> {
    match value {
        Some(v) => seq![(key, v)],
        None => seq![],
    }
}

/// The JSON of an optional switch.
pub open spec fn flag_json(v: Option<bool>) -> Option<Json> {
    match v {
        Some(b) => Some(Json::Bool(b)),
        None => None,
    }
}

/// The JSON of an optional number.
pub open spec fn count_json(v: Option<u32>) -> Option<Json> {
    match v {
        Some(n) => Some(Json::Number(NumberView::Integer(n as int))),
        None => None,
    }
}

/// The writes that a change asks for: one for each given field, in order.
pub open spec fn hygiene_writes(body: HygieneRequest) -> Seq<(Seq<char>, Json)> {
    write_if(enabled_key(), flag_json(body.enabled)) + write_if(
        daily_key(),
        count_json(body.daily_retention_days),
    ) + write_if(conversation_key(), count_json(body.conversation_retention_days)) + write_if(
        cadence_key(),
        count_json(body.cadence_hours),
    )
}

fn push_write(writes: &mut Vec<(String, JsonValue)>, key: &str, value: JsonValue)
    ensures
        write_views(final(writes)@) == write_views(old(writes)@) + seq![(key@, value@)],
{
    writes.push((key.to_string(), value));
    assert(write_views(writes@) =~= write_views(old(writes)@) + seq![(key@, value@)]);
}

/// The writes to make for a change of the hygiene settings, in order; 503
/// where there is no store.
pub fn settings_hygiene_set_handler(has_store: bool, body: HygieneRequest) -> (r: Result<
    Vec<(String, JsonValue)>,
    StatusCode,
>)
    ensures
        !has_store ==> r is Err && r->Err_0 == StatusCode::ServiceUnavailable,
        has_store ==> r is Ok && write_views(r->Ok_0@) == hygiene_writes(body),
{
    if !has_store {
        return Err(StatusCode::ServiceUnavailable);
    }
    let mut writes: Vec<(String, JsonValue)> = Vec::new();
    assert(write_views(writes@) =~= seq![]);
    match body.enabled {
        Some(v) => push_write(&mut writes, "memory_hygiene.enabled", JsonValue::Bool(v)),
        None => {},
    }
    match body.daily_retention_days {
        Some(v) => push_write(
            &mut writes,
            "memory_hygiene.daily_retention_days",
            JsonValue::Number(Number::PosInt(v as u64)),
        ),
        None => {},
    }
    match body.conversation_retention_days {
        Some(v) => push_write(
            &mut writes,
            "memory_hygiene.conversation_retention_days",
            JsonValue::Number(Number::PosInt(v as u64)),
        ),
        None => {},
    }
    match body.cadence_hours {
        Some(v) => push_write(
            &mut writes,
            "memory_hygiene.cadence_hours",
            JsonValue::Number(Number::PosInt(v as u64)),
        ),
        None => {},
    }
    assert(write_views(writes@) =~= hygiene_writes(body));
    Ok(writes)
}

/// What to do after some of the writes.
#[derive(Clone, Copy, Debug, PartialEq, Eq, Structural)]
pub enum WriteStep {
    /// Make the write with this index.
    Write(usize),
    /// Answer with this status.
    Finish(StatusCode),
    /// Fail with this status.
    Fail(StatusCode),
}

/// The next step after `made` of `planned` writes, the last of which went
/// well or not: the first failure ends the change with 500, and after the
/// last write the answer is 204.
pub fn hygiene_write_step(planned: usize, made: usize, last_ok: bool) -> (r: WriteStep)
    ensures
        r == (if !last_ok {
            WriteStep::Fail(StatusCode::InternalServerError)
        } else if made < planned {
            WriteStep::Write(made)
        } else {
            WriteStep::Finish(StatusCode::NoContent)
        }),
{
    if !last_ok {
        WriteStep::Fail(StatusCode::InternalServerError)
    } else if made < planned {
        WriteStep::Write(made)
    } else {
        WriteStep::Finish(StatusCode::NoContent)
    }
}

// ── Laws ────────────────────────────────────────────────────

/// The stored settings after some writes.
pub open spec fn apply_writes(
    stored: Map<Seq<char>, Json>,
    writes: Seq<(Seq<char>, Json)>,
) -> Map<Seq<char>, Json>
    decreases writes.len(),
{
    if writes.len() == 0 {
        stored
    } else {
        apply_writes(stored, writes.drop_last()).insert(writes.last().0, writes.last().1)
    }
}

/// What a key holds.
pub open spec fn held(stored: Map<Seq<char>, Json>, key: Seq<char>) -> Option<Json> {
    if stored.dom().contains(key) {
        Some(stored[key])
    } else {
        None
    }
}

/// The hygiene settings that a map of stored settings stands for.
pub open spec fn hygiene_in(
    stored: Map<Seq<char>, Json>,
    defaults: HygieneSettings,
) -> HygieneSettings {
    HygieneSettings {
        enabled: read_flag(held(stored, enabled_key()), defaults.enabled),
        daily_retention_days: read_count(
            held(stored, daily_key()),
            defaults.daily_retention_days,
        ),
        conversation_retention_days: read_count(
            held(stored, conversation_key()),
            defaults.conversation_retention_days,
        ),
        cadence_hours: read_count(held(stored, cadence_key()), defaults.cadence_hours),
    }
}

/// The settings after a change.
pub open spec fn changed(before: HygieneSettings, body: HygieneRequest) -> HygieneSettings {
    HygieneSettings {
        enabled: match body.enabled {
            Some(v) => v,
            None => before.enabled,
        },
        daily_retention_days: match body.daily_retention_days {
            Some(v) => v,
            None => before.daily_retention_days,
        },
        conversation_retention_days: match body.conversation_retention_days {
            Some(v) => v,
            None => before.conversation_retention_days,
        },
        cadence_hours: match body.cadence_hours {
            Some(v) => v,
            None => before.cadence_hours,
        },
    }
}

proof fn lemma_apply_if(
    stored: Map<Seq<char>, Json>,
    writes: Seq<(Seq<char>, Json)>,
    key: Seq<char>,
    value: Option<Json>,
)
    ensures
        apply_writes(stored, writes + write_if(key, value)) == (match value {
            Some(v) => apply_writes(stored, writes).insert(key, v),
            None => apply_writes(stored, writes),
        }),
{
    let all = writes + write_if(key, value);
    match value {
        Some(v) => {
            assert(all.drop_last() =~= writes);
        },
        None => {
            assert(all =~= writes);
        },
    }
}

proof fn lemma_keys_differ()
    ensures
        enabled_key() != daily_key(),
        enabled_key() != conversation_key(),
        enabled_key() != cadence_key(),
        daily_key() != conversation_key(),
        daily_key() != cadence_key(),
        conversation_key() != cadence_key(),
{
    reveal_strlit("memory_hygiene.enabled");
    reveal_strlit("memory_hygiene.daily_retention_days");
    reveal_strlit("memory_hygiene.conversation_retention_days");
    reveal_strlit("memory_hygiene.cadence_hours");
    assert(enabled_key().len() == 22);
    assert(daily_key().len() == 35);
    assert(conversation_key().len() == 42);
    assert(cadence_key().len() == 28);
}

/// A read after a change gives the changed fields as they were set and the
/// omitted ones as they were before.
pub proof fn law_hygiene_read_after_write(
    stored: Map<Seq<char>, Json>,
    body: HygieneRequest,
    defaults: HygieneSettings,
)
    ensures
        hygiene_in(apply_writes(stored, hygiene_writes(body)), defaults) == changed(
            hygiene_in(stored, defaults),
            body,
        ),
{
    lemma_keys_differ();
    let w0: Seq<(Seq<char>, Json)> = seq![];
    let w1 = w0 + write_if(enabled_key(), flag_json(body.enabled));
    let w2 = w1 + write_if(daily_key(), count_json(body.daily_retention_days));
    let w3 = w2 + write_if(conversation_key(), count_json(body.conversation_retention_days));
    let w4 = w3 + write_if(cadence_key(), count_json(body.cadence_hours));
    lemma_apply_if(stored, w0, enabled_key(), flag_json(body.enabled));
    lemma_apply_if(stored, w1, daily_key(), count_json(body.daily_retention_days));
    lemma_apply_if(stored, w2, conversation_key(), count_json(body.conversation_retention_days));
    lemma_apply_if(stored, w3, cadence_key(), count_json(body.cadence_hours));
    assert(w4 =~= hygiene_writes(body));
}

/// A change touches no other setting.
pub proof fn law_hygiene_leaves_other_settings(
    stored: Map<Seq<char>, Json>,
    body: HygieneRequest,
    other: Seq<char>,
)
    requires
        other != enabled_key(),
        other != daily_key(),
        other != conversation_key(),
        other != cadence_key(),
    ensures
        held(apply_writes(stored, hygiene_writes(body)), other) == held(stored, other),
{
    let w0: Seq<(Seq<char>, Json)> = seq![];
    let w1 = w0 + write_if(enabled_key(), flag_json(body.enabled));
    let w2 = w1 + write_if(daily_key(), count_json(body.daily_retention_days));
    let w3 = w2 + write_if(conversation_key(), count_json(body.conversation_retention_days));
    let w4 = w3 + write_if(cadence_key(), count_json(body.cadence_hours));
    lemma_apply_if(stored, w0, enabled_key(), flag_json(body.enabled));
    lemma_apply_if(stored, w1, daily_key(), count_json(body.daily_retention_days));
    lemma_apply_if(stored, w2, conversation_key(), count_json(body.conversation_retention_days));
    lemma_apply_if(stored, w3, cadence_key(), count_json(body.cadence_hours));
    assert(w4 =~= hygiene_writes(body));
}

/// A list shows each stored setting in its place, with its key and its value; a
/// missing store is answered with 503 and a failing one with 500.
pub proof fn law_settings_are_listed(
    reply: StoreReply<Vec<SettingRow>>,
    i: int,
    r: Result<Vec<SettingResponse>, StatusCode>,
)
    requires
        call_ensures(settings_list_handler, (reply,), r),
    ensures
        reply is NoStore ==> (r matches Err(status) && status is ServiceUnavailable),
        reply is Failed ==> (r matches Err(status) && status is InternalServerError),
        reply matches StoreReply::Done(rows) ==> {
            &&& r is Ok
            &&& r->Ok_0@.len() == rows@.len()
            &&& 0 <= i < rows@.len() ==> {
                &&& r->Ok_0@[i].key@ == rows@[i].key@
                &&& r->Ok_0@[i].value == rows@[i].value
                &&& r->Ok_0@[i].updated_at@ == rfc3339_of(
                    rows@[i].updated_at.secs,
                    rows@[i].updated_at.nanos,
                )
            }
        },
{
    if let StoreReply::Done(rows) = reply {
        if 0 <= i < rows@.len() {
            assert(shows(r->Ok_0@[i], rows@[i]));
        }
    }
}

/// A stored setting is shown with its key and its value; one that is not stored
/// is answered with 404, a missing store with 503 and a failing one with 500.
pub proof fn law_settings_are_got(
    reply: StoreReply<Option<SettingRow>>,
    r: Result<SettingResponse, StatusCode>,
)
    requires
        call_ensures(settings_get_handler, (reply,), r),
    ensures
        reply is NoStore ==> (r matches Err(status) && status is ServiceUnavailable),
        reply is Failed ==> (r matches Err(status) && status is InternalServerError),
        reply matches StoreReply::Done(None) ==> (r matches Err(status) && status is NotFound),
        reply matches StoreReply::Done(Some(row)) ==> {
            &&& r is Ok
            &&& r->Ok_0.key@ == row.key@
            &&& r->Ok_0.value == row.value
            &&& r->Ok_0.updated_at@ == rfc3339_of(row.updated_at.secs, row.updated_at.nanos)
        },
{
}

/// Every write is answered with 204 where the store did it, with 503 where
/// there is no store and with 500 where it failed; an export is what the store
/// gave.
pub proof fn law_writes_are_answered(
    reply: StoreReply<()>,
    set: Result<StatusCode, StatusCode>,
    delete: Result<StatusCode, StatusCode>,
    import: Result<StatusCode, StatusCode>,
    held_by_store: StoreReply<Vec<(String, JsonValue)>>,
    export: Result<Vec<(String, JsonValue)>, StatusCode>,
)
    requires
        call_ensures(settings_set_handler, (reply,), set),
        call_ensures(settings_delete_handler, (reply,), delete),
        call_ensures(settings_import_handler, (reply,), import),
        call_ensures(settings_export_handler, (held_by_store,), export),
    ensures
        set == delete && delete == import,
        reply is Done ==> (set matches Ok(status) && status is NoContent),
        reply is NoStore ==> (set matches Err(status) && status is ServiceUnavailable),
        reply is Failed ==> (set matches Err(status) && status is InternalServerError),
        held_by_store matches StoreReply::Done(all) ==> (export matches Ok(sent) && sent == all),
        held_by_store is NoStore ==> (export matches Err(status) && status is ServiceUnavailable),
        held_by_store is Failed ==> (export matches Err(status) && status is InternalServerError),
{
}

/// Each hygiene setting is the stored one where a value of its type is stored
/// under its key, and its default otherwise, whatever the others are.
pub proof fn law_hygiene_is_read(
    values: Option<HygieneValues>,
    defaults: HygieneSettings,
    r: HygieneSettings,
)
    requires
        call_ensures(settings_hygiene_get_handler, (&values, defaults), r),
    ensures
        values is None ==> r.enabled == defaults.enabled && r.daily_retention_days
            == defaults.daily_retention_days && r.conversation_retention_days
            == defaults.conversation_retention_days && r.cadence_hours == defaults.cadence_hours,
        values matches Some(v) ==> {
            &&& match v.enabled {
                Some(JsonValue::Bool(b)) => r.enabled == b,
                _ => r.enabled == defaults.enabled,
            }
            &&& count_is_read(v.daily_retention_days, defaults.daily_retention_days, r.daily_retention_days)
            &&& count_is_read(
                v.conversation_retention_days,
                defaults.conversation_retention_days,
                r.conversation_retention_days,
            )
            &&& count_is_read(v.cadence_hours, defaults.cadence_hours, r.cadence_hours)
        },
{
}

/// A stored natural number below 2^32 is read as it is, and what is no natural
/// number as the default.
pub open spec fn count_is_read(stored: Option<JsonValue>, default: u32, read: u32) -> bool {
    match stored {
        Some(JsonValue::Number(Number::PosInt(n))) => n <= u32::MAX ==> read == n,
        Some(JsonValue::Number(Number::NegInt(n))) => n < 0 ==> read == default,
        Some(JsonValue::Number(Number::Float(_))) => read == default,
        _ => read == default,
    }
}

/// The keys of the hygiene settings, all under the same name and all different.
pub proof fn law_hygiene_keys(keys: Vec<&'static str>)
    requires
        call_ensures(hygiene_keys, (), keys),
    ensures
        keys@.len() == 4,
        keys@[0]@ == "memory_hygiene.enabled"@,
        keys@[1]@ == "memory_hygiene.daily_retention_days"@,
        keys@[2]@ == "memory_hygiene.conversation_retention_days"@,
        keys@[3]@ == "memory_hygiene.cadence_hours"@,
        forall|i: int, j: int| 0 <= i < j < 4 ==> (#[trigger] keys@[i])@ != (#[trigger] keys@[j])@,
{
    lemma_keys_differ();
    assert forall|i: int, j: int| 0 <= i < j < 4 implies (#[trigger] keys@[i])@ != (
    #[trigger] keys@[j])@ by {
        assert(i == 0 || i == 1 || i == 2);
        assert(j == 1 || j == 2 || j == 3);
    }
}

/// A change writes something under a hygiene key exactly where it sets that
/// field, and it writes the value that was given; it writes under no other key.
/// Without a store it is refused with 503.
pub proof fn law_hygiene_is_written(
    has_store: bool,
    body: HygieneRequest,
    r: Result<Vec<(String, JsonValue)>, StatusCode>,
    i: int,
)
    requires
        call_ensures(settings_hygiene_set_handler, (has_store, body), r),
    ensures
        !has_store ==> (r matches Err(status) && status is ServiceUnavailable),
        has_store ==> r is Ok,
        has_store && 0 <= i < r->Ok_0@.len() ==> {
            let key = r->Ok_0@[i].0@;
            let value = r->Ok_0@[i].1@;
            ||| key == "memory_hygiene.enabled"@ && body.enabled is Some && value == Json::Bool(
                body.enabled->0,
            )
            ||| key == "memory_hygiene.daily_retention_days"@ && body.daily_retention_days is Some
                && value == Json::Number(NumberView::Integer(body.daily_retention_days->0 as int))
            ||| key == "memory_hygiene.conversation_retention_days"@
                && body.conversation_retention_days is Some && value == Json::Number(
                NumberView::Integer(body.conversation_retention_days->0 as int),
            )
            ||| key == "memory_hygiene.cadence_hours"@ && body.cadence_hours is Some && value
                == Json::Number(NumberView::Integer(body.cadence_hours->0 as int))
        },
        has_store ==> r->Ok_0@.len() == (if body.enabled is Some { 1int } else { 0 }) + (
        if body.daily_retention_days is Some { 1int } else { 0 }) + (
        if body.conversation_retention_days is Some { 1int } else { 0 }) + (
        if body.cadence_hours is Some { 1int } else { 0 }),
        has_store && body.enabled is Some ==> r->Ok_0@[0].0@ == "memory_hygiene.enabled"@,
        has_store && body.cadence_hours is Some ==> r->Ok_0@.last().0@
            == "memory_hygiene.cadence_hours"@,
        has_store && body.daily_retention_days is Some ==> exists|k: int|
            0 <= k < r->Ok_0@.len() && (#[trigger] r->Ok_0@[k]).0@
                == "memory_hygiene.daily_retention_days"@,
        has_store && body.conversation_retention_days is Some ==> exists|k: int|
            0 <= k < r->Ok_0@.len() && (#[trigger] r->Ok_0@[k]).0@
                == "memory_hygiene.conversation_retention_days"@,
{
    if has_store {
        let all = write_views(r->Ok_0@);
        assert(all.len() == r->Ok_0@.len());
        if 0 <= i < all.len() {
            assert(all[i] == write_view(r->Ok_0@[i]));
        }
        let first: int = if body.enabled is Some { 1 } else { 0 };
        let second: int = first + (if body.daily_retention_days is Some { 1int } else { 0 });
        if body.enabled is Some {
            assert(all[0] == write_view(r->Ok_0@[0]));
        }
        if body.cadence_hours is Some {
            assert(all.last() == write_view(r->Ok_0@.last()));
        }
        if body.daily_retention_days is Some {
            assert(all[first] == write_view(r->Ok_0@[first]));
            assert(r->Ok_0@[first].0@ == "memory_hygiene.daily_retention_days"@);
        }
        if body.conversation_retention_days is Some {
            assert(all[second] == write_view(r->Ok_0@[second]));
            assert(r->Ok_0@[second].0@ == "memory_hygiene.conversation_retention_days"@);
        }
    }
}

/// The planned writes are made one after the other; a failed one ends the
/// change with 500, and after the last the answer is 204.
pub proof fn law_planned_writes_are_made(planned: usize, made: usize, last_ok: bool, r: WriteStep)
    requires
        call_ensures(hygiene_write_step, (planned, made, last_ok), r),
    ensures
        r is Fail <==> !last_ok,
        r matches WriteStep::Fail(status) ==> status is InternalServerError,
        r is Write <==> last_ok && made < planned,
        r matches WriteStep::Write(i) ==> i == made,
        r is Finish <==> last_ok && made >= planned,
        r matches WriteStep::Finish(status) ==> status is NoContent,
{
}

} // verus!
