//! JSON values, their object order and their compact text.
//!
//! An object keeps its entries sorted by key, with no key twice.

use vstd::prelude::*;
use crate::text::{
    append_decimal, comes_before, decimal, hex_char, join_texts, joined, lemma_text_before_strict,
    lemma_text_before_total, lemma_text_before_transitive, same_text, text_before, texts,
};

verus! {

broadcast use vstd::string::group_string_axioms;

/// A JSON number. A number with a fraction or an exponent is kept as the text
/// that stands for it in JSON.
#[derive(Debug)]
pub enum Number {
    PosInt(u64),
    NegInt(i64),
    Float(String),
}

/// A JSON value.
#[derive(Debug)]
pub enum JsonValue {
    Null,
    Bool(bool),
    Number(Number),
    Str(String),
    Array(Vec<JsonValue>),
    Object(Vec<(String, JsonValue)>),
}

/// The value of a JSON number.
pub ghost enum NumberView {
    Integer(int),
    Float(Seq<char>),
}

/// The mathematical JSON value.
#[verifier::ext_equal]
pub ghost enum Json {
    Null,
    Bool(bool),
    Number(NumberView),
    Text(Seq<char>),
    Array(Seq<Json>),
    Object(Seq<(Seq<char>, Json)>),
}

impl View for Number {
    type V = NumberView;

    open spec fn view(&self) -> NumberView {
        match *self {
            Number::PosInt(n) => NumberView::Integer(n as int),
            Number::NegInt(n) => NumberView::Integer(n as int),
            Number::Float(text) => NumberView::Float(text@),
        }
    }
}

/// The mathematical value of `v`.
pub open spec fn json_of(v: JsonValue) -> Json
    decreases v,
{
    match v {
        JsonValue::Null => Json::Null,
        JsonValue::Bool(b) => Json::Bool(b),
        JsonValue::Number(n) => Json::Number(n@),
        JsonValue::Str(s) => Json::Text(s@),
        JsonValue::Array(items) => Json::Array(
            Seq::new(
                items@.len(),
                |i: int|
                    if 0 <= i < items@.len() {
                        json_of(items@[i])
                    } else {
                        Json::Null
                    },
            ),
        ),
        JsonValue::Object(entries) => Json::Object(
            Seq::new(
                entries@.len(),
                |i: int|
                    if 0 <= i < entries@.len() {
                        (entries@[i].0@, json_of(entries@[i].1))
                    } else {
                        (seq![], Json::Null)
                    },
            ),
        ),
    }
}

impl View for JsonValue {
    type V = Json;

    open spec fn view(&self) -> Json {
        json_of(*self)
    }
}

/// The mathematical values of a list.
pub open spec fn json_list(items: Seq<JsonValue>) -> Seq<Json> {
    items.map_values(|v: JsonValue| v@)
}

/// The mathematical entries of an object.
pub open spec fn json_entries(entries: Seq<(String, JsonValue)>) -> Seq<(Seq<char>, Json)> {
    entries.map_values(|e: (String, JsonValue)| (e.0@, e.1@))
}

/// An array's value is the list of its items' values, an object's the list of
/// its entries' values.
pub broadcast proof fn lemma_view_of_compound(v: JsonValue)
    ensures
        #![trigger json_of(v)]
        v matches JsonValue::Array(items) ==> json_of(v) == Json::Array(json_list(items@)),
        v matches JsonValue::Object(entries) ==> json_of(v) == Json::Object(
            json_entries(entries@),
        ),
{
    match v {
        JsonValue::Array(items) => {
            assert(json_of(v)->Array_0 =~= json_list(items@));
        },
        JsonValue::Object(entries) => {
            assert(json_of(v)->Object_0 =~= json_entries(entries@));
        },
        _ => {},
    }
}

// ── Objects ─────────────────────────────────────────────────

/// Keys are strictly increasing.
pub open spec fn keys_sorted(entries: Seq<(Seq<char>, Json)>) -> bool {
    forall|i: int, j: int|
        0 <= i < j < entries.len() ==> text_before(#[trigger] entries[i].0, #[trigger] entries[j].0)
}

/// The entries after `key` has been given the value `value`.
pub open spec fn put(entries: Seq<(Seq<char>, Json)>, key: Seq<char>, value: Json) -> Seq<
    (Seq<char>, Json),
>
    decreases entries.len(),
{
    if entries.len() == 0 {
        seq![(key, value)]
    } else if entries[0].0 == key {
        entries.update(0, (key, value))
    } else if text_before(key, entries[0].0) {
        seq![(key, value)] + entries
    } else {
        seq![entries[0]] + put(entries.drop_first(), key, value)
    }
}

/// `i` is where `key` stands, or where it belongs.
pub open spec fn key_slot(entries: Seq<(Seq<char>, Json)>, key: Seq<char>, i: int) -> bool {
    &&& 0 <= i <= entries.len()
    &&& forall|j: int| 0 <= j < i ==> text_before(#[trigger] entries[j].0, key)
    &&& i < entries.len() ==> entries[i].0 == key || text_before(key, entries[i].0)
}

proof fn lemma_put_at(entries: Seq<(Seq<char>, Json)>, key: Seq<char>, value: Json, i: int)
    requires
        key_slot(entries, key, i),
    ensures
        i < entries.len() && entries[i].0 == key ==> put(entries, key, value) == entries.update(
            i,
            (key, value),
        ),
        !(i < entries.len() && entries[i].0 == key) ==> put(entries, key, value) == entries.insert(
            i,
            (key, value),
        ),
    decreases entries.len(),
{
    if entries.len() == 0 {
        assert(entries.insert(i, (key, value)) =~= seq![(key, value)]);
    } else if i == 0 {
        if entries[0].0 != key {
            assert(entries.insert(0, (key, value)) =~= seq![(key, value)] + entries);
        }
    } else {
        lemma_text_before_strict(entries[0].0, key);
        let rest = entries.drop_first();
        assert forall|j: int| 0 <= j < i - 1 implies text_before(#[trigger] rest[j].0, key) by {
            assert(rest[j] == entries[j + 1]);
        }
        lemma_put_at(rest, key, value, i - 1);
        if i < entries.len() && entries[i].0 == key {
            assert(seq![entries[0]] + rest.update(i - 1, (key, value)) =~= entries.update(
                i,
                (key, value),
            ));
        } else {
            assert(seq![entries[0]] + rest.insert(i - 1, (key, value)) =~= entries.insert(
                i,
                (key, value),
            ));
        }
    }
}

/// The value that an object holds under `key`.
pub open spec fn lookup(entries: Seq<(Seq<char>, Json)>, key: Seq<char>) -> Option<Json>
    decreases entries.len(),
{
    if entries.len() == 0 {
        None
    } else if entries[0].0 == key {
        Some(entries[0].1)
    } else {
        lookup(entries.drop_first(), key)
    }
}

/// After a write, the written key reads back as the written value and every
/// other key as before.
pub proof fn law_put_then_lookup(
    entries: Seq<(Seq<char>, Json)>,
    key: Seq<char>,
    value: Json,
    other: Seq<char>,
)
    ensures
        lookup(put(entries, key, value), key) == Some(value),
        other != key ==> lookup(put(entries, key, value), other) == lookup(entries, other),
    decreases entries.len(),
{
    reveal_with_fuel(lookup, 3);
    let done = put(entries, key, value);
    if entries.len() == 0 {
        assert(done.drop_first() =~= seq![]);
    } else if entries[0].0 == key {
        assert(done.drop_first() =~= entries.drop_first());
    } else if text_before(key, entries[0].0) {
        assert(done.drop_first() =~= entries);
    } else {
        let rest = entries.drop_first();
        assert(done.drop_first() =~= put(rest, key, value));
        law_put_then_lookup(rest, key, value, other);
    }
}

/// A write keeps the keys sorted.
pub proof fn law_put_keeps_order(entries: Seq<(Seq<char>, Json)>, key: Seq<char>, value: Json)
    requires
        keys_sorted(entries),
    ensures
        keys_sorted(put(entries, key, value)),
{
    let i = lemma_slot_exists(entries, key, 0);
    lemma_put_at(entries, key, value, i);
    let done = put(entries, key, value);
    if i < entries.len() && entries[i].0 == key {
        assert forall|a: int, b: int| 0 <= a < b < done.len() implies text_before(
            #[trigger] done[a].0,
            #[trigger] done[b].0,
        ) by {
            assert(done[a].0 == entries[a].0 && done[b].0 == entries[b].0);
        }
    } else {
        assert forall|a: int, b: int| 0 <= a < b < done.len() implies text_before(
            #[trigger] done[a].0,
            #[trigger] done[b].0,
        ) by {
            if a == i {
                assert(done[b].0 == entries[b - 1].0);
                if b - 1 > i {
                    assert(text_before(entries[i].0, entries[b - 1].0));
                    lemma_text_before_transitive(key, entries[i].0, entries[b - 1].0);
                }
            } else if b == i {
                assert(done[a].0 == entries[a].0);
            } else {
                let x = if a < i {
                    a
                } else {
                    a - 1
                };
                let y = if b < i {
                    b
                } else {
                    b - 1
                };
                assert(done[a].0 == entries[x].0 && done[b].0 == entries[y].0);
                assert(text_before(entries[x].0, entries[y].0));
            }
        }
    }
}

proof fn lemma_slot_exists(entries: Seq<(Seq<char>, Json)>, key: Seq<char>, from: int) -> (i: int)
    requires
        0 <= from <= entries.len(),
        forall|j: int| 0 <= j < from ==> text_before(#[trigger] entries[j].0, key),
    ensures
        key_slot(entries, key, i),
    decreases entries.len() - from,
{
    if from == entries.len() {
        from
    } else {
        lemma_text_before_total(entries[from].0, key);
        if entries[from].0 == key || text_before(key, entries[from].0) {
            from
        } else {
            lemma_slot_exists(entries, key, from + 1)
        }
    }
}

impl Json {
    /// The object without entries.
    pub open spec fn empty_object() -> Json {
        Json::Object(seq![])
    }

    /// The object with `key` set to `value`.
    pub open spec fn with(self, key: Seq<char>, value: Json) -> Json {
        Json::Object(put(self->Object_0, key, value))
    }

    /// The member of an object under `key`.
    pub open spec fn member(self, key: Seq<char>) -> Option<Json> {
        match self {
            Json::Object(entries) => lookup(entries, key),
            _ => None,
        }
    }

    /// Every object in the value, at every depth, has its keys in order.
    pub open spec fn ordered(self) -> bool
        decreases self,
    {
        match self {
            Json::Array(items) => forall|i: int|
                0 <= i < items.len() ==> (#[trigger] items[i]).ordered(),
            Json::Object(entries) => {
                &&& keys_sorted(entries)
                &&& forall|i: int| 0 <= i < entries.len() ==> (#[trigger] entries[i]).1.ordered()
            },
            _ => true,
        }
    }
}

/// Sets `key` to `value` in an object's entries.
pub fn put_entry(entries: &mut Vec<(String, JsonValue)>, key: String, value: JsonValue)
    requires
        keys_sorted(json_entries(old(entries)@)),
    ensures
        json_entries(final(entries)@) == put(json_entries(old(entries)@), key@, value@),
        keys_sorted(json_entries(final(entries)@)),
{
    let ghost before = json_entries(entries@);
    let mut i: usize = 0;
    while i < entries.len() && comes_before(entries[i].0.as_str(), key.as_str())
        invariant
            i <= entries.len(),
            before == json_entries(entries@),
            entries@ == old(entries)@,
            forall|j: int| 0 <= j < i ==> text_before(#[trigger] before[j].0, key@),
        decreases entries.len() - i,
    {
        i += 1;
    }
    proof {
        if i < entries.len() {
            lemma_text_before_total(before[i as int].0, key@);
        }
        lemma_put_at(before, key@, value@, i as int);
        law_put_keeps_order(before, key@, value@);
    }
    if i < entries.len() && same_text(entries[i].0.as_str(), key.as_str()) {
        entries.set(i, (key, value));
        assert(json_entries(entries@) =~= before.update(i as int, (key@, value@)));
    } else {
        entries.insert(i, (key, value));
        assert(json_entries(entries@) =~= before.insert(i as int, (key@, value@)));
    }
}

// ── Reading ─────────────────────────────────────────────────

proof fn lemma_lookup_first(entries: Seq<(Seq<char>, Json)>, key: Seq<char>, i: int)
    requires
        0 <= i <= entries.len(),
        forall|j: int| 0 <= j < i ==> #[trigger] entries[j].0 != key,
    ensures
        i < entries.len() && entries[i].0 == key ==> lookup(entries, key) == Some(entries[i].1),
        i == entries.len() ==> lookup(entries, key) is None,
    decreases i,
{
    if i > 0 {
        let rest = entries.drop_first();
        assert forall|j: int| 0 <= j < i - 1 implies #[trigger] rest[j].0 != key by {
            assert(rest[j] == entries[j + 1]);
        }
        lemma_lookup_first(rest, key, i - 1);
        assert(entries[0].0 != key);
    }
}

/// The text of a JSON string.
pub open spec fn text_of_json(v: Json) -> Option<Seq<char>> {
    match v {
        Json::Text(s) => Some(s),
        _ => None,
    }
}

/// The number of a JSON integer that fits in 64 bits without sign.
pub open spec fn u64_of_json(v: Json) -> Option<u64> {
    match v {
        Json::Number(NumberView::Integer(n)) => if 0 <= n <= u64::MAX {
            Some(n as u64)
        } else {
            None
        },
        _ => None,
    }
}

/// The truth value of a JSON boolean.
pub open spec fn bool_of_json(v: Json) -> Option<bool> {
    match v {
        Json::Bool(b) => Some(b),
        _ => None,
    }
}

impl JsonValue {
    /// The member of an object under `key`; nothing for any other value.
    pub fn get(&self, key: &str) -> (r: Option<&JsonValue>)
        ensures
            (match r {
                Some(v) => self@.member(key@) == Some(v@),
                None => self@.member(key@) is None,
            }),
    {
        broadcast use lemma_view_of_compound;

        match self {
            JsonValue::Object(entries) => {
                let ghost all = json_entries(entries@);
                let mut i: usize = 0;
                while i < entries.len()
                    invariant
                        i <= entries.len(),
                        all == json_entries(entries@),
                        forall|j: int| 0 <= j < i ==> #[trigger] all[j].0 != key@,
                        self@ == Json::Object(all),
                    decreases entries.len() - i,
                {
                    if same_text(entries[i].0.as_str(), key) {
                        proof {
                            lemma_lookup_first(all, key@, i as int);
                            assert(all[i as int] == (
                                entries@[i as int].0@,
                                entries@[i as int].1@,
                            ));
                        }
                        return Some(&entries[i].1);
                    }
                    assert(all[i as int].0 == entries@[i as int].0@);
                    i += 1;
                }
                proof {
                    lemma_lookup_first(all, key@, i as int);
                }
                None
            },
            _ => None,
        }
    }

    /// The text of a string.
    pub fn as_str(&self) -> (r: Option<&str>)
        ensures
            (match r {
                Some(s) => text_of_json(self@) == Some(s@),
                None => text_of_json(self@) is None,
            }),
    {
        match self {
            JsonValue::Str(s) => Some(s.as_str()),
            _ => None,
        }
    }

    /// The value of an integer in the range of `u64`.
    pub fn as_u64(&self) -> (r: Option<u64>)
        ensures
            r == u64_of_json(self@),
    {
        match self {
            JsonValue::Number(Number::PosInt(n)) => Some(*n),
            JsonValue::Number(Number::NegInt(n)) => if *n >= 0 {
                Some(*n as u64)
            } else {
                None
            },
            _ => None,
        }
    }

    /// The value of a boolean.
    pub fn as_bool(&self) -> (r: Option<bool>)
        ensures
            r == bool_of_json(self@),
    {
        match self {
            JsonValue::Bool(b) => Some(*b),
            _ => None,
        }
    }

    /// Whether the value is `null`.
    pub fn is_null(&self) -> (r: bool)
        ensures
            r == (self@ == Json::Null),
    {
        match self {
            JsonValue::Null => true,
            _ => false,
        }
    }
}

fn copy_number(n: &Number) -> (r: Number)
    ensures
        r@ == n@,
{
    match n {
        Number::PosInt(k) => Number::PosInt(*k),
        Number::NegInt(k) => Number::NegInt(*k),
        Number::Float(text) => Number::Float(text.clone()),
    }
}

fn copy_json(v: &JsonValue) -> (r: JsonValue)
    ensures
        r@ == v@,
    decreases v,
{
    broadcast use lemma_view_of_compound;

    match v {
        JsonValue::Null => JsonValue::Null,
        JsonValue::Bool(b) => JsonValue::Bool(*b),
        JsonValue::Number(n) => JsonValue::Number(copy_number(n)),
        JsonValue::Str(s) => JsonValue::Str(s.clone()),
        JsonValue::Array(items) => {
            let mut out: Vec<JsonValue> = Vec::new();
            let mut i: usize = 0;
            while i < items.len()
                invariant
                    i <= items.len(),
                    *v is Array,
                    v->Array_0 == *items,
                    out.len() == i,
                    forall|k: int| 0 <= k < i ==> (#[trigger] out@[k])@ == items@[k]@,
                decreases items.len() - i,
            {
                assert(decreases_to!(v => v->Array_0@[i as int]));
                let item = copy_json(&items[i]);
                out.push(item);
                i += 1;
            }
            assert(json_list(out@) =~= json_list(items@));
            JsonValue::Array(out)
        },
        JsonValue::Object(entries) => {
            let mut out: Vec<(String, JsonValue)> = Vec::new();
            let mut i: usize = 0;
            while i < entries.len()
                invariant
                    i <= entries.len(),
                    *v is Object,
                    v->Object_0 == *entries,
                    out.len() == i,
                    forall|k: int|
                        0 <= k < i ==> (#[trigger] out@[k]).0@ == entries@[k].0@ && out@[k].1@
                            == entries@[k].1@,
                decreases entries.len() - i,
            {
                assert(decreases_to!(v => v->Object_0@[i as int].1));
                let value = copy_json(&entries[i].1);
                out.push((entries[i].0.clone(), value));
                i += 1;
            }
            assert(json_entries(out@) =~= json_entries(entries@));
            JsonValue::Object(out)
        },
    }
}

impl Clone for JsonValue {
    fn clone(&self) -> (r: Self)
        ensures
            r@ == self@,
    {
        copy_json(self)
    }
}

// ── Writing ─────────────────────────────────────────────────

/// The decimal numeral of an integer, with a leading `-` where it is negative.
pub open spec fn integer_text(n: int) -> Seq<char> {
    if n < 0 {
        "-"@ + decimal((-n) as nat)
    } else {
        decimal(n as nat)
    }
}

/// Appends an integer's numeral.
pub fn append_integer(out: &mut String, n: i64)
    ensures
        final(out)@ == old(out)@ + integer_text(n as int),
{
    if n < 0 {
        out.append("-");
        let magnitude: u64 = if n == i64::MIN {
            9_223_372_036_854_775_808u64
        } else {
            (-n) as u64
        };
        append_decimal(out, magnitude);
        assert(out@ =~= old(out)@ + integer_text(n as int));
    } else {
        append_decimal(out, n as u64);
    }
}

/// How one character stands inside a JSON string.
pub open spec fn escaped_char(c: char) -> Seq<char> {
    if c == '"' || c == '\\' {
        seq!['\\', c]
    } else if c == '\u{8}' {
        seq!['\\', 'b']
    } else if c == '\t' {
        seq!['\\', 't']
    } else if c == '\n' {
        seq!['\\', 'n']
    } else if c == '\u{c}' {
        seq!['\\', 'f']
    } else if c == '\r' {
        seq!['\\', 'r']
    } else if (c as u32) < 32 {
        seq!['\\', 'u', '0', '0', hex_char((c as nat) / 16), hex_char((c as nat) % 16)]
    } else {
        seq![c]
    }
}

/// The characters of a text as they stand inside a JSON string.
pub open spec fn escaped(s: Seq<char>) -> Seq<char>
    decreases s.len(),
{
    if s.len() == 0 {
        seq![]
    } else {
        escaped(s.drop_last()) + escaped_char(s.last())
    }
}

/// A text as a JSON string.
pub open spec fn quoted(s: Seq<char>) -> Seq<char> {
    "\""@ + escaped(s) + "\""@
}

/// `serde_json::to_string` of a string slice: the text between double quotes,
/// with quotes, backslashes and control characters escaped.
#[verifier::external_body]
fn quote(s: &str) -> (r: String)
    ensures
        r@ == quoted(s@),
{
    serde_json::to_string(s).expect("a string always serialises")
}

/// The compact JSON text of a value: no blank anywhere between tokens.
pub open spec fn json_text(v: Json) -> Seq<char>
    decreases v,
{
    match v {
        Json::Null => "null"@,
        Json::Bool(b) => if b {
            "true"@
        } else {
            "false"@
        },
        Json::Number(NumberView::Integer(n)) => integer_text(n),
        Json::Number(NumberView::Float(text)) => text,
        Json::Text(s) => quoted(s),
        Json::Array(items) => "["@ + joined(item_texts(items), ","@) + "]"@,
        Json::Object(entries) => "{"@ + joined(entry_texts(entries), ","@) + "}"@,
    }
}

/// The texts of an array's items.
pub open spec fn item_texts(items: Seq<Json>) -> Seq<Seq<char>>
    decreases items,
{
    Seq::new(
        items.len(),
        |i: int|
            if 0 <= i < items.len() {
                json_text(items[i])
            } else {
                seq![]
            },
    )
}

/// The texts of an object's entries, each `"key":value`.
pub open spec fn entry_texts(entries: Seq<(Seq<char>, Json)>) -> Seq<Seq<char>>
    decreases entries,
{
    Seq::new(
        entries.len(),
        |i: int|
            if 0 <= i < entries.len() {
                quoted(entries[i].0) + ":"@ + json_text(entries[i].1)
            } else {
                seq![]
            },
    )
}

/// Writes a value as compact JSON.
pub fn render(v: &JsonValue) -> (r: String)
    ensures
        r@ == json_text(v@),
    decreases v,
{
    broadcast use lemma_view_of_compound;

    match v {
        JsonValue::Null => "null".to_string(),
        JsonValue::Bool(b) => if *b {
            "true".to_string()
        } else {
            "false".to_string()
        },
        JsonValue::Number(Number::PosInt(n)) => {
            let mut out = String::new();
            append_decimal(&mut out, *n);
            assert(out@ =~= decimal(*n as nat));
            out
        },
        JsonValue::Number(Number::NegInt(n)) => {
            let mut out = String::new();
            append_integer(&mut out, *n);
            assert(out@ =~= integer_text(*n as int));
            out
        },
        JsonValue::Number(Number::Float(text)) => text.clone(),
        JsonValue::Str(s) => quote(s.as_str()),
        JsonValue::Array(items) => {
            let mut parts: Vec<String> = Vec::new();
            let mut i: usize = 0;
            while i < items.len()
                invariant
                    i <= items.len(),
                    *v is Array,
                    v->Array_0 == *items,
                    parts.len() == i,
                    forall|k: int| 0 <= k < i ==> (#[trigger] parts@[k])@ == json_text(items@[k]@),
                decreases items.len() - i,
            {
                assert(decreases_to!(v => v->Array_0@[i as int]));
                let part = render(&items[i]);
                parts.push(part);
                i += 1;
            }
            let mut out = "[".to_string();
            out.append(join_texts(&parts, ",").as_str());
            out.append("]");
            proof {
                let list = json_list(items@);
                assert(texts(parts@) =~= item_texts(list));
            }
            out
        },
        JsonValue::Object(entries) => {
            let mut parts: Vec<String> = Vec::new();
            let mut i: usize = 0;
            while i < entries.len()
                invariant
                    i <= entries.len(),
                    *v is Object,
                    v->Object_0 == *entries,
                    parts.len() == i,
                    forall|k: int|
                        0 <= k < i ==> (#[trigger] parts@[k])@ == quoted(entries@[k].0@) + ":"@
                            + json_text(entries@[k].1@),
                decreases entries.len() - i,
            {
                assert(decreases_to!(v => v->Object_0@[i as int].1));
                let mut part = quote(entries[i].0.as_str());
                part.append(":");
                part.append(render(&entries[i].1).as_str());
                parts.push(part);
                i += 1;
            }
            let mut out = "{".to_string();
            out.append(join_texts(&parts, ",").as_str());
            out.append("}");
            proof {
                let list = json_entries(entries@);
                assert(texts(parts@) =~= entry_texts(list));
            }
            out
        },
    }
}

// ── Laws ────────────────────────────────────────────────────

/// A written entry reads back under its key, and every other key reads as it
/// did before.
pub proof fn law_written_entries_read_back(
    entries: &mut Vec<(String, JsonValue)>,
    key: String,
    value: JsonValue,
    asked: &str,
    before: Option<&JsonValue>,
    after: Option<&JsonValue>,
)
    requires
        keys_sorted(json_entries(old(entries)@)),
        call_ensures(put_entry, (entries, key, value), ()),
        call_ensures(JsonValue::get, (&JsonValue::Object(*old(entries)), asked), before),
        call_ensures(JsonValue::get, (&JsonValue::Object(*final(entries)), asked), after),
    ensures
        asked@ == key@ ==> (after matches Some(v) && v@ == value@),
        asked@ != key@ ==> (after is Some <==> before is Some),
        asked@ != key@ ==> (after matches Some(v) ==> v@ == before->0@),
        forall|i: int, j: int|
            0 <= i < j < final(entries)@.len() ==> (#[trigger] final(entries)@[i]).0@ != (
            #[trigger] final(entries)@[j]).0@,
{
    broadcast use lemma_view_of_compound;

    law_put_then_lookup(json_entries(old(entries)@), key@, value@, asked@);
    let all = json_entries(final(entries)@);
    assert forall|i: int, j: int| 0 <= i < j < final(entries)@.len() implies (
    #[trigger] final(entries)@[i]).0@ != (#[trigger] final(entries)@[j]).0@ by {
        assert(all[i].0 == final(entries)@[i].0@ && all[j].0 == final(entries)@[j].0@);
        lemma_text_before_strict(all[i].0, all[j].0);
    }
}

/// A member is found where an entry has its key, and only in an object.
pub proof fn law_members_are_found(v: JsonValue, key: &str, i: int, r: Option<&JsonValue>)
    requires
        call_ensures(JsonValue::get, (&v, key), r),
    ensures
        !(v is Object) ==> r is None,
        v matches JsonValue::Object(entries) ==> (0 <= i < entries@.len() && entries@[i].0@ == key@
            && forall|j: int| 0 <= j < i ==> (#[trigger] entries@[j]).0@ != key@) ==> (
        r matches Some(found) && found@ == entries@[i].1@),
        v matches JsonValue::Object(entries) ==> (forall|j: int|
            0 <= j < entries@.len() ==> (#[trigger] entries@[j]).0@ != key@) ==> r is None,
{
    broadcast use lemma_view_of_compound;

    if v is Object {
        let entries = v->Object_0@;
        let all = json_entries(entries);
        assert(forall|j: int| 0 <= j < entries.len() ==> (#[trigger] all[j]).0 == entries[j].0@);
        if 0 <= i < entries.len() && entries[i].0@ == key@ && forall|j: int|
            0 <= j < i ==> (#[trigger] entries[j]).0@ != key@ {
            assert forall|j: int| 0 <= j < i implies #[trigger] all[j].0 != key@ by {
                assert(entries[j].0@ != key@);
            }
            lemma_lookup_first(all, key@, i);
        }
        if forall|j: int| 0 <= j < entries.len() ==> (#[trigger] entries[j]).0@ != key@ {
            assert forall|j: int| 0 <= j < all.len() implies #[trigger] all[j].0 != key@ by {
                assert(entries[j].0@ != key@);
            }
            lemma_lookup_first(all, key@, all.len() as int);
        }
    }
}

/// A value is read as what it is: a string as its text, an integer of the range
/// as its number, a boolean as its truth value; and as nothing else.
pub proof fn law_values_are_read_as_they_are(
    v: JsonValue,
    text: Option<&str>,
    number: Option<u64>,
    truth: Option<bool>,
    null: bool,
)
    requires
        call_ensures(JsonValue::as_str, (&v,), text),
        call_ensures(JsonValue::as_u64, (&v,), number),
        call_ensures(JsonValue::as_bool, (&v,), truth),
        call_ensures(JsonValue::is_null, (&v,), null),
    ensures
        v is Str <==> text is Some,
        v matches JsonValue::Str(s) ==> text->0@ == s@,
        v is Bool <==> truth is Some,
        v matches JsonValue::Bool(b) ==> truth == Some(b),
        v is Null <==> null,
        v matches JsonValue::Number(Number::PosInt(n)) ==> number == Some(n),
        v matches JsonValue::Number(Number::NegInt(n)) ==> n < 0 ==> number is None,
        v matches JsonValue::Number(Number::Float(_)) ==> number is None,
        !(v is Number) ==> number is None,
{
}

/// A copy holds what the value does.
pub proof fn law_copies_hold_the_same(v: JsonValue, r: JsonValue, x: String, y: String)
    requires
        call_ensures(JsonValue::clone, (&v,), r),
        call_ensures(render, (&v,), x),
        call_ensures(render, (&r,), y),
    ensures
        r@ == v@,
        x@ == y@,
{
}

/// Simple values are written as JSON writes them; a text stands between double
/// quotes.
pub proof fn law_simple_values_are_written(v: JsonValue, r: String)
    requires
        call_ensures(render, (&v,), r),
    ensures
        v is Null ==> r@ == "null"@,
        v matches JsonValue::Bool(b) ==> r@ == (if b {
            "true"@
        } else {
            "false"@
        }),
        v matches JsonValue::Number(Number::PosInt(n)) ==> crate::text::digits_value(r@) == n
            && r@.len() > 0 && r@[0] != '-',
        v matches JsonValue::Number(Number::NegInt(n)) ==> n < 0 ==> r@[0] == '-'
            && crate::text::digits_value(r@.skip(1)) == -n,
        v matches JsonValue::Number(Number::Float(text)) ==> r@ == text@,
        v matches JsonValue::Str(s) ==> r@.len() >= s@.len() + 2 && r@[0] == '"' && r@.last()
            == '"',
        v matches JsonValue::Str(s) ==> (forall|i: int|
            0 <= i < s@.len() ==> (#[trigger] s@[i]) != '"' && s@[i] != '\\' && s@[i] >= ' ')
            ==> r@ == seq!['"'] + s@ + seq!['"'],
        v matches JsonValue::Str(s) ==> (forall|i: int|
            0 <= i < r@.len() ==> (#[trigger] r@[i]) >= ' '),
{
    reveal_strlit("\"");
    reveal_strlit("-");
    match v {
        JsonValue::Number(Number::PosInt(n)) => {
            crate::text::lemma_numeral(n as nat);
        },
        JsonValue::Number(Number::NegInt(n)) => {
            if n < 0 {
                crate::text::lemma_numeral((-n) as nat);
                assert(r@.skip(1) =~= decimal((-n) as nat));
            }
        },
        JsonValue::Str(s) => {
            lemma_escaped(s@);
            assert(r@ == "\""@ + escaped(s@) + "\""@);
            assert forall|i: int| 0 <= i < r@.len() implies (#[trigger] r@[i]) >= ' ' by {
                if 0 < i < r@.len() - 1 {
                    assert(r@[i] == escaped(s@)[i - 1]);
                }
            }
            if forall|i: int|
                0 <= i < s@.len() ==> (#[trigger] s@[i]) != '"' && s@[i] != '\\' && s@[i] >= ' ' {
                lemma_plain(s@);
                assert(r@ =~= seq!['"'] + s@ + seq!['"']);
            }
        },
        _ => {},
    }
}

proof fn lemma_escaped_char(c: char)
    ensures
        escaped_char(c).len() >= 1,
        forall|i: int| 0 <= i < escaped_char(c).len() ==> (#[trigger] escaped_char(c)[i]) >= ' ',
        c != '"' && c != '\\' && c >= ' ' ==> escaped_char(c) == seq![c],
{
    assert(c >= ' ' <==> (c as u32) >= 32);
}

proof fn lemma_escaped(s: Seq<char>)
    ensures
        escaped(s).len() >= s.len(),
        forall|i: int| 0 <= i < escaped(s).len() ==> (#[trigger] escaped(s)[i]) >= ' ',
    decreases s.len(),
{
    if s.len() > 0 {
        lemma_escaped(s.drop_last());
        let c = s.last();
        let more = escaped_char(c);
        lemma_escaped_char(c);
        assert forall|i: int| 0 <= i < escaped(s).len() implies (#[trigger] escaped(s)[i]) >= ' ' by {
            let k = escaped(s.drop_last()).len();
            if i < k {
                assert(escaped(s)[i] == escaped(s.drop_last())[i]);
            } else {
                assert(escaped(s)[i] == more[i - k]);
            }
        }
    }
}

proof fn lemma_plain(s: Seq<char>)
    requires
        forall|i: int|
            0 <= i < s.len() ==> (#[trigger] s[i]) != '"' && s[i] != '\\' && s[i] >= ' ',
    ensures
        escaped(s) == s,
    decreases s.len(),
{
    if s.len() > 0 {
        lemma_plain(s.drop_last());
        assert(s[s.len() - 1] == s.last());
        lemma_escaped_char(s.last());
        assert(escaped(s) =~= s);
    } else {
        assert(escaped(s) =~= s);
    }
}

/// An array is written item by item in square brackets with commas between
/// them: one item more at its end is written behind the others.
pub proof fn law_arrays_are_written(
    a: JsonValue,
    b: JsonValue,
    item: JsonValue,
    x: String,
    y: String,
    z: String,
)
    requires
        a is Array,
        b is Array,
        b->Array_0@ == a->Array_0@.push(item),
        call_ensures(render, (&a,), x),
        call_ensures(render, (&b,), y),
        call_ensures(render, (&item,), z),
    ensures
        a->Array_0@.len() == 0 ==> x@ == seq!['[', ']'] && y@ == seq!['['] + z@ + seq![']'],
        a->Array_0@.len() > 0 ==> y@ == x@.drop_last() + seq![','] + z@ + seq![']'],
{
    broadcast use lemma_view_of_compound;

    reveal_strlit("[");
    reveal_strlit("]");
    reveal_strlit(",");
    let ta = item_texts(json_list(a->Array_0@));
    let tb = item_texts(json_list(b->Array_0@));
    assert(tb =~= ta.push(z@));
    assert(tb.drop_last() =~= ta);
    if ta.len() == 0 {
        assert(joined(ta, ","@) =~= seq![]);
        assert(x@ =~= seq!['[', ']']);
        assert(y@ =~= seq!['['] + z@ + seq![']']);
    } else {
        assert(x@.drop_last() =~= "["@ + joined(ta, ","@));
        assert(y@ =~= x@.drop_last() + seq![','] + z@ + seq![']']);
    }
}

/// An object is written entry by entry in curly brackets with commas between
/// them, each as its key in quotes, a colon and its value.
pub proof fn law_objects_are_written(
    a: JsonValue,
    b: JsonValue,
    key: String,
    value: JsonValue,
    x: String,
    y: String,
    k: String,
    z: String,
)
    requires
        a is Object,
        b is Object,
        b->Object_0@ == a->Object_0@.push((key, value)),
        call_ensures(render, (&a,), x),
        call_ensures(render, (&b,), y),
        call_ensures(render, (&JsonValue::Str(key),), k),
        call_ensures(render, (&value,), z),
    ensures
        a->Object_0@.len() == 0 ==> x@ == seq!['{', '}'] && y@ == seq!['{'] + k@ + seq![':'] + z@
            + seq!['}'],
        a->Object_0@.len() > 0 ==> y@ == x@.drop_last() + seq![','] + k@ + seq![':'] + z@
            + seq!['}'],
{
    broadcast use lemma_view_of_compound;

    reveal_strlit("{");
    reveal_strlit("}");
    reveal_strlit(",");
    reveal_strlit(":");
    let ta = entry_texts(json_entries(a->Object_0@));
    let tb = entry_texts(json_entries(b->Object_0@));
    let last = k@ + ":"@ + z@;
    assert(tb =~= ta.push(last));
    assert(tb.drop_last() =~= ta);
    if ta.len() == 0 {
        assert(joined(ta, ","@) =~= seq![]);
        assert(x@ =~= seq!['{', '}']);
        assert(y@ =~= seq!['{'] + k@ + seq![':'] + z@ + seq!['}']);
    } else {
        assert(x@.drop_last() =~= "{"@ + joined(ta, ","@));
        assert(y@ =~= x@.drop_last() + seq![','] + k@ + seq![':'] + z@ + seq!['}']);
    }
}

/// An integer is written with its digits, behind a minus where it is negative.
pub proof fn law_integers_are_written(out: &mut String, n: i64)
    requires
        call_ensures(append_integer, (out, n), ()),
    ensures
        n >= 0 ==> final(out)@ == old(out)@ + decimal(n as nat),
        n < 0 ==> final(out)@ == old(out)@ + ("-"@ + decimal((-n) as nat)),
{
}

} // verus!
