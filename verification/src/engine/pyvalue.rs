//! Python values and their JSON forms.

use vstd::prelude::*;
use crate::json::{
    append_integer, integer_text, json_entries, json_list, json_text, keys_sorted,
    lemma_view_of_compound, put, put_entry, render, Json, JsonValue, Number, NumberView,
};
use crate::text::{append_decimal, decimal, hex_of, hex_text, same_text};

verus! {

broadcast use vstd::string::group_string_axioms;

/// A key of a Python dictionary: a string, or anything else by its debug text.
#[derive(Debug)]
pub enum PyKey {
    Str(String),
    Other(String),
}

/// A Python value. What has no form of its own here is kept by its debug text.
#[derive(Debug)]
pub enum PyValue {
    Nil,
    Bool(bool),
    Int(i64),
    /// A large integer, by its decimal text.
    BigInt(String),
    /// A floating-point number, by its display text and its JSON text; not
    /// every such number has the latter.
    Float { display: String, json: Option<String> },
    Str(String),
    List(Vec<PyValue>),
    Tuple(Vec<PyValue>),
    Dict(Vec<(PyKey, PyValue)>),
    /// The items of a set or a frozen set.
    Items(Vec<PyValue>),
    Bytes(Vec<u8>),
    Other(String),
}

/// The mathematical key.
pub ghost enum PyKeyView {
    Str(Seq<char>),
    Other(Seq<char>),
}

/// The mathematical value.
#[verifier::ext_equal]
pub ghost enum Py {
    Nil,
    Bool(bool),
    Int(int),
    BigInt(Seq<char>),
    Float { display: Seq<char>, json: Option<Seq<char>> },
    Str(Seq<char>),
    List(Seq<Py>),
    Tuple(Seq<Py>),
    Dict(Seq<(PyKeyView, Py)>),
    Items(Seq<Py>),
    Bytes(Seq<u8>),
    Other(Seq<char>),
}

impl View for PyKey {
    type V = PyKeyView;

    open spec fn view(&self) -> PyKeyView {
        match *self {
            PyKey::Str(s) => PyKeyView::Str(s@),
            PyKey::Other(s) => PyKeyView::Other(s@),
        }
    }
}

/// The mathematical value of `v`.
pub open spec fn py_of(v: PyValue) -> Py
    decreases v,
{
    match v {
        PyValue::Nil => Py::Nil,
        PyValue::Bool(b) => Py::Bool(b),
        PyValue::Int(n) => Py::Int(n as int),
        PyValue::BigInt(s) => Py::BigInt(s@),
        PyValue::Float { display, json } => Py::Float {
            display: display@,
            json: match json {
                Some(s) => Some(s@),
                None => None,
            },
        },
        PyValue::Str(s) => Py::Str(s@),
        PyValue::List(items) => Py::List(
            Seq::new(
                items@.len(),
                |i: int|
                    if 0 <= i < items@.len() {
                        py_of(items@[i])
                    } else {
                        Py::Nil
                    },
            ),
        ),
        PyValue::Tuple(items) => Py::Tuple(
            Seq::new(
                items@.len(),
                |i: int|
                    if 0 <= i < items@.len() {
                        py_of(items@[i])
                    } else {
                        Py::Nil
                    },
            ),
        ),
        PyValue::Dict(pairs) => Py::Dict(
            Seq::new(
                pairs@.len(),
                |i: int|
                    if 0 <= i < pairs@.len() {
                        (pairs@[i].0@, py_of(pairs@[i].1))
                    } else {
                        (PyKeyView::Str(seq![]), Py::Nil)
                    },
            ),
        ),
        PyValue::Items(items) => Py::Items(
            Seq::new(
                items@.len(),
                |i: int|
                    if 0 <= i < items@.len() {
                        py_of(items@[i])
                    } else {
                        Py::Nil
                    },
            ),
        ),
        PyValue::Bytes(b) => Py::Bytes(b@),
        PyValue::Other(s) => Py::Other(s@),
    }
}

impl View for PyValue {
    type V = Py;

    open spec fn view(&self) -> Py {
        py_of(*self)
    }
}

/// The mathematical values of a list.
pub open spec fn py_list(items: Seq<PyValue>) -> Seq<Py> {
    items.map_values(|v: PyValue| v@)
}

/// The mathematical pairs of a dictionary.
pub open spec fn py_pairs(pairs: Seq<(PyKey, PyValue)>) -> Seq<(PyKeyView, Py)> {
    pairs.map_values(|p: (PyKey, PyValue)| (p.0@, p.1@))
}

/// A compound's value is the list of its parts' values.
pub broadcast proof fn lemma_py_of_compound(v: PyValue)
    ensures
        #![trigger py_of(v)]
        v matches PyValue::List(items) ==> py_of(v) == Py::List(py_list(items@)),
        v matches PyValue::Tuple(items) ==> py_of(v) == Py::Tuple(py_list(items@)),
        v matches PyValue::Items(items) ==> py_of(v) == Py::Items(py_list(items@)),
        v matches PyValue::Dict(pairs) ==> py_of(v) == Py::Dict(py_pairs(pairs@)),
{
    match v {
        PyValue::List(items) => {
            assert(py_of(v)->List_0 =~= py_list(items@));
        },
        PyValue::Tuple(items) => {
            assert(py_of(v)->Tuple_0 =~= py_list(items@));
        },
        PyValue::Items(items) => {
            assert(py_of(v)->Items_0 =~= py_list(items@));
        },
        PyValue::Dict(pairs) => {
            assert(py_of(v)->Dict_0 =~= py_pairs(pairs@));
        },
        _ => {},
    }
}

// ── Python to JSON ──────────────────────────────────────────

/// The text of a key.
pub open spec fn key_text(k: PyKeyView) -> Seq<char> {
    match k {
        PyKeyView::Str(s) => s,
        PyKeyView::Other(s) => s,
    }
}

/// The JSON form of a Python value. A large integer, bytes in hexadecimal and
/// whatever else has no JSON form become strings, and a number that JSON
/// cannot write becomes `null`.
pub open spec fn py_json(v: Py) -> Json
    decreases v,
{
    match v {
        Py::Nil => Json::Null,
        Py::Bool(b) => Json::Bool(b),
        Py::Int(n) => Json::Number(NumberView::Integer(n)),
        Py::BigInt(s) => Json::Text(s),
        Py::Float { display, json } => match json {
            Some(text) => Json::Number(NumberView::Float(text)),
            None => Json::Null,
        },
        Py::Str(s) => Json::Text(s),
        Py::List(items) => Json::Array(items_json(items)),
        Py::Tuple(items) => Json::Array(items_json(items)),
        Py::Dict(pairs) => Json::Object(pairs_json(pairs)),
        Py::Items(items) => Json::Array(items_json(items)),
        Py::Bytes(b) => Json::Text(hex_of(b)),
        Py::Other(s) => Json::Text(s),
    }
}

/// The JSON forms of a list.
pub open spec fn items_json(items: Seq<Py>) -> Seq<Json>
    decreases items,
{
    Seq::new(
        items.len(),
        |i: int|
            if 0 <= i < items.len() {
                py_json(items[i])
            } else {
                Json::Null
            },
    )
}

/// The entries of a dictionary; of two pairs with the same key text the later
/// one counts.
pub open spec fn pairs_json(pairs: Seq<(PyKeyView, Py)>) -> Seq<(Seq<char>, Json)>
    decreases pairs,
{
    if pairs.len() == 0 {
        seq![]
    } else {
        put(
            pairs_json(pairs.subrange(0, pairs.len() - 1)),
            key_text(pairs[pairs.len() - 1].0),
            py_json(pairs[pairs.len() - 1].1),
        )
    }
}

fn key_string(k: &PyKey) -> (r: String)
    ensures
        r@ == key_text(k@),
{
    match k {
        PyKey::Str(s) => s.clone(),
        PyKey::Other(s) => s.clone(),
    }
}

/// Converts a Python value to JSON.
pub fn monty_to_json(obj: &PyValue) -> (r: JsonValue)
    ensures
        r@ == py_json(obj@),
    decreases obj,
{
    broadcast use {lemma_py_of_compound, lemma_view_of_compound};

    match obj {
        PyValue::Nil => JsonValue::Null,
        PyValue::Bool(b) => JsonValue::Bool(*b),
        PyValue::Int(n) => if *n >= 0 {
            JsonValue::Number(Number::PosInt(*n as u64))
        } else {
            JsonValue::Number(Number::NegInt(*n))
        },
        PyValue::BigInt(s) => JsonValue::Str(s.clone()),
        PyValue::Float { display, json } => match json {
            Some(text) => JsonValue::Number(Number::Float(text.clone())),
            None => JsonValue::Null,
        },
        PyValue::Str(s) => JsonValue::Str(s.clone()),
        PyValue::List(items) => {
            let out = list_to_json(items);
            JsonValue::Array(out)
        },
        PyValue::Tuple(items) => {
            let out = list_to_json(items);
            JsonValue::Array(out)
        },
        PyValue::Items(items) => {
            let out = list_to_json(items);
            JsonValue::Array(out)
        },
        PyValue::Dict(pairs) => {
            let mut out: Vec<(String, JsonValue)> = Vec::new();
            assert(json_entries(out@) =~= seq![]);
            add_pairs(&mut out, pairs, Ghost(Seq::empty()));
            assert(Seq::empty() + py_pairs(pairs@) =~= py_pairs(pairs@));
            JsonValue::Object(out)
        },
        PyValue::Bytes(b) => JsonValue::Str(hex_text(b)),
        PyValue::Other(s) => JsonValue::Str(s.clone()),
    }
}

fn list_to_json(items: &Vec<PyValue>) -> (r: Vec<JsonValue>)
    ensures
        json_list(r@) == items_json(py_list(items@)),
    decreases items,
{
    let mut out: Vec<JsonValue> = Vec::new();
    let mut i: usize = 0;
    while i < items.len()
        invariant
            i <= items.len(),
            out.len() == i,
            forall|k: int| 0 <= k < i ==> (#[trigger] out@[k])@ == py_json(items@[k]@),
        decreases items.len() - i,
    {
        assert(decreases_to!(items => items@[i as int]));
        let item = monty_to_json(&items[i]);
        out.push(item);
        i += 1;
    }
    assert(json_list(out@) =~= items_json(py_list(items@)));
    out
}

fn add_pairs(
    out: &mut Vec<(String, JsonValue)>,
    pairs: &Vec<(PyKey, PyValue)>,
    Ghost(done): Ghost<Seq<(PyKeyView, Py)>>,
)
    requires
        keys_sorted(json_entries(old(out)@)),
        json_entries(old(out)@) == pairs_json(done),
    ensures
        keys_sorted(json_entries(final(out)@)),
        json_entries(final(out)@) == pairs_json(done + py_pairs(pairs@)),
    decreases pairs,
{
    let ghost all = done + py_pairs(pairs@);
    let mut i: usize = 0;
    assert(all.subrange(0, done.len() as int) =~= done);
    while i < pairs.len()
        invariant
            i <= pairs.len(),
            all == done + py_pairs(pairs@),
            keys_sorted(json_entries(out@)),
            json_entries(out@) == pairs_json(all.subrange(0, done.len() + i)),
        decreases pairs.len() - i,
    {
        assert(decreases_to!(pairs => pairs@[i as int].1));
        let value = monty_to_json(&pairs[i].1);
        let key = key_string(&pairs[i].0);
        proof {
            let next = all.subrange(0, done.len() + i + 1);
            assert(next.subrange(0, next.len() - 1) =~= all.subrange(0, done.len() + i));
            assert(next[next.len() - 1] == (pairs@[i as int].0@, pairs@[i as int].1@));
        }
        put_entry(out, key, value);
        i += 1;
    }
    assert(all.subrange(0, done.len() + i) =~= all);
}

/// The arguments of a call as one JSON object: positional ones as a list under
/// `_args`, where there are any, and each keyword argument under its name.
pub open spec fn args_json(args: Seq<Py>, kwargs: Seq<(PyKeyView, Py)>) -> Json {
    let positional: Seq<(PyKeyView, Py)> = if args.len() == 0 {
        seq![]
    } else {
        seq![(PyKeyView::Str("_args"@), Py::List(args))]
    };
    Json::Object(pairs_json(positional + kwargs))
}

/// Converts the arguments of a call to one JSON object.
pub fn monty_args_to_json(args: &Vec<PyValue>, kwargs: &Vec<(PyKey, PyValue)>) -> (r: JsonValue)
    ensures
        r@ == args_json(py_list(args@), py_pairs(kwargs@)),
{
    broadcast use lemma_view_of_compound;

    let mut out: Vec<(String, JsonValue)> = Vec::new();
    assert(json_entries(out@) =~= seq![]);
    let ghost mut done: Seq<(PyKeyView, Py)> = seq![];
    if args.len() > 0 {
        let list = list_to_json(args);
        let value = JsonValue::Array(list);
        proof {
            let positional = Py::List(py_list(args@));
            done = seq![(PyKeyView::Str("_args"@), positional)];
            assert(value@ == py_json(positional));
            assert(pairs_json(done.subrange(0, 0)) =~= json_entries(out@));
            assert(pairs_json(done) == put(json_entries(out@), "_args"@, value@));
        }
        put_entry(&mut out, "_args".to_string(), value);
    }
    add_pairs(&mut out, kwargs, Ghost(done));
    JsonValue::Object(out)
}

// ── JSON to Python ──────────────────────────────────────────

/// The floating-point number that std's `str::parse` reads from a numeral: the
/// text that std's `Display` gives it, and the text that `serde_json::Number`
/// gives it where it is finite. Nothing where the text is no numeral.
pub uninterp spec fn float_of(numeral: Seq<char>) -> Option<(Seq<char>, Option<Seq<char>>)>;

/// The texts of a floating-point number that was read.
pub open spec fn float_texts(r: Option<(String, Option<String>)>) -> Option<
    (Seq<char>, Option<Seq<char>>),
> {
    match r {
        Some((display, Some(json))) => Some((display@, Some(json@))),
        Some((display, None)) => Some((display@, None)),
        None => None,
    }
}

/// std's `str::parse` to a floating-point number, which is handed out by its
/// two texts: that of `Display`, and that of `serde_json::Number::from_f64`.
/// The outcome depends on the numeral alone.
#[verifier::external_body]
fn read_float(numeral: &str) -> (r: Option<(String, Option<String>)>)
    ensures
        float_texts(r) == float_of(numeral@),
{
    match numeral.parse() {
        Ok(f) => {
            let json = match serde_json::Number::from_f64(f) {
                Some(number) => Some(number.to_string()),
                None => None,
            };
            Some((f.to_string(), json))
        },
        Err(_) => None,
    }
}

/// The Python form of a numeral that is no integer of 64 bits with sign: the
/// floating-point number that it reads as.
pub open spec fn numeral_py(numeral: Seq<char>) -> Py {
    match float_of(numeral) {
        Some((display, json)) => Py::Float { display, json },
        None => Py::Str(numeral),
    }
}

/// The Python value of a floating-point number that was read from `numeral`.
pub fn float_value(numeral: String, read: Option<(String, Option<String>)>) -> (r: PyValue)
    ensures
        r@ == (match float_texts(read) {
            Some((display, json)) => Py::Float { display, json },
            None => Py::Str(numeral@),
        }),
{
    match read {
        Some((display, json)) => PyValue::Float { display, json },
        None => PyValue::Str(numeral),
    }
}

fn numeral_to_monty(numeral: String) -> (r: PyValue)
    ensures
        r@ == numeral_py(numeral@),
{
    let read = read_float(numeral.as_str());
    float_value(numeral, read)
}

/// The Python form of a JSON value. An integer beyond 64 bits with sign
/// becomes a floating-point number.
pub open spec fn json_py(v: Json) -> Py
    decreases v,
{
    match v {
        Json::Null => Py::Nil,
        Json::Bool(b) => Py::Bool(b),
        Json::Number(NumberView::Integer(n)) => if i64::MIN <= n <= i64::MAX {
            Py::Int(n)
        } else {
            numeral_py(integer_text(n))
        },
        Json::Number(NumberView::Float(s)) => numeral_py(s),
        Json::Text(s) => Py::Str(s),
        Json::Array(items) => Py::List(
            Seq::new(
                items.len(),
                |i: int|
                    if 0 <= i < items.len() {
                        json_py(items[i])
                    } else {
                        Py::Nil
                    },
            ),
        ),
        Json::Object(entries) => Py::Dict(
            Seq::new(
                entries.len(),
                |i: int|
                    if 0 <= i < entries.len() {
                        (PyKeyView::Str(entries[i].0), json_py(entries[i].1))
                    } else {
                        (PyKeyView::Str(seq![]), Py::Nil)
                    },
            ),
        ),
    }
}

/// Converts a JSON value to Python.
pub fn json_to_monty(val: &JsonValue) -> (r: PyValue)
    ensures
        r@ == json_py(val@),
    decreases val,
{
    broadcast use {lemma_py_of_compound, lemma_view_of_compound};

    match val {
        JsonValue::Null => PyValue::Nil,
        JsonValue::Bool(b) => PyValue::Bool(*b),
        JsonValue::Number(Number::PosInt(n)) => if *n <= 9_223_372_036_854_775_807 {
            PyValue::Int(*n as i64)
        } else {
            let mut text = String::new();
            append_decimal(&mut text, *n);
            assert(text@ =~= integer_text(*n as int));
            numeral_to_monty(text)
        },
        JsonValue::Number(Number::NegInt(n)) => PyValue::Int(*n),
        JsonValue::Number(Number::Float(s)) => numeral_to_monty(s.clone()),
        JsonValue::Str(s) => PyValue::Str(s.clone()),
        JsonValue::Array(items) => {
            let mut out: Vec<PyValue> = Vec::new();
            let mut i: usize = 0;
            while i < items.len()
                invariant
                    i <= items.len(),
                    *val is Array,
                    val->Array_0 == *items,
                    out.len() == i,
                    forall|k: int| 0 <= k < i ==> (#[trigger] out@[k])@ == json_py(items@[k]@),
                decreases items.len() - i,
            {
                assert(decreases_to!(val => val->Array_0@[i as int]));
                let item = json_to_monty(&items[i]);
                out.push(item);
                i += 1;
            }
            assert(py_list(out@) =~= json_py(val@)->List_0);
            PyValue::List(out)
        },
        JsonValue::Object(entries) => {
            let mut out: Vec<(PyKey, PyValue)> = Vec::new();
            let mut i: usize = 0;
            while i < entries.len()
                invariant
                    i <= entries.len(),
                    *val is Object,
                    val->Object_0 == *entries,
                    out.len() == i,
                    forall|k: int|
                        0 <= k < i ==> (#[trigger] out@[k]).0@ == PyKeyView::Str(entries@[k].0@)
                            && out@[k].1@ == json_py(entries@[k].1@),
                decreases entries.len() - i,
            {
                assert(decreases_to!(val => val->Object_0@[i as int].1));
                let value = json_to_monty(&entries[i].1);
                out.push((PyKey::Str(entries[i].0.clone()), value));
                i += 1;
            }
            assert(py_pairs(out@) =~= json_py(val@)->Dict_0);
            PyValue::Dict(out)
        },
    }
}

// ── Strings ─────────────────────────────────────────────────

/// The text of a Python value: strings and simple values as they are, and
/// everything else as JSON.
pub open spec fn py_text(v: Py) -> Seq<char> {
    match v {
        Py::Str(s) => s,
        Py::Nil => "None"@,
        Py::Bool(b) => if b {
            "true"@
        } else {
            "false"@
        },
        Py::Int(n) => integer_text(n),
        Py::Float { display, json } => display,
        other => json_text(py_json(other)),
    }
}

/// Writes a Python value as text.
pub fn monty_to_string(obj: &PyValue) -> (r: String)
    ensures
        r@ == py_text(obj@),
{
    broadcast use lemma_py_of_compound;

    match obj {
        PyValue::Str(s) => s.clone(),
        PyValue::Nil => "None".to_string(),
        PyValue::Bool(b) => if *b {
            "true".to_string()
        } else {
            "false".to_string()
        },
        PyValue::Int(n) => {
            let mut text = String::new();
            append_integer(&mut text, *n);
            assert(text@ =~= integer_text(*n as int));
            text
        },
        PyValue::Float { display, json } => display.clone(),
        other => render(&monty_to_json(other)),
    }
}

/// The first keyword argument of that name, if there is one.
pub open spec fn keyword(kwargs: Seq<(PyKeyView, Py)>, name: Seq<char>) -> Option<Py>
    decreases kwargs.len(),
{
    if kwargs.len() == 0 {
        None
    } else if kwargs[0].0 == PyKeyView::Str(name) {
        Some(kwargs[0].1)
    } else {
        keyword(kwargs.drop_first(), name)
    }
}

/// The text of an argument, given by its name or else by its position.
pub open spec fn text_arg(
    args: Seq<Py>,
    kwargs: Seq<(PyKeyView, Py)>,
    name: Seq<char>,
    position: nat,
) -> Option<Seq<char>> {
    match keyword(kwargs, name) {
        Some(v) => Some(py_text(v)),
        None => if position < args.len() {
            Some(py_text(args[position as int]))
        } else {
            None
        },
    }
}

pub proof fn lemma_keyword_first(kwargs: Seq<(PyKeyView, Py)>, name: Seq<char>, i: int)
    requires
        0 <= i <= kwargs.len(),
        forall|j: int| 0 <= j < i ==> (#[trigger] kwargs[j]).0 != PyKeyView::Str(name),
    ensures
        i < kwargs.len() && kwargs[i].0 == PyKeyView::Str(name) ==> keyword(kwargs, name) == Some(
            kwargs[i].1,
        ),
        i == kwargs.len() ==> keyword(kwargs, name) is None,
    decreases i,
{
    if i > 0 {
        let rest = kwargs.drop_first();
        assert forall|j: int| 0 <= j < i - 1 implies (#[trigger] rest[j]).0 != PyKeyView::Str(
            name,
        ) by {
            assert(rest[j] == kwargs[j + 1]);
        }
        lemma_keyword_first(rest, name, i - 1);
        assert(kwargs[0].0 != PyKeyView::Str(name));
    }
}

/// Reads an argument of a call as text, by keyword or else by position.
pub fn extract_string_arg(
    args: &Vec<PyValue>,
    kwargs: &Vec<(PyKey, PyValue)>,
    name: &str,
    position: usize,
) -> (r: Option<String>)
    ensures
        (match r {
            Some(s) => text_arg(py_list(args@), py_pairs(kwargs@), name@, position as nat) == Some(
                s@,
            ),
            None => text_arg(py_list(args@), py_pairs(kwargs@), name@, position as nat) is None,
        }),
{
    let ghost all = py_pairs(kwargs@);
    let mut i: usize = 0;
    while i < kwargs.len()
        invariant
            i <= kwargs.len(),
            all == py_pairs(kwargs@),
            forall|j: int| 0 <= j < i ==> (#[trigger] all[j]).0 != PyKeyView::Str(name@),
        decreases kwargs.len() - i,
    {
        let here = match &kwargs[i].0 {
            PyKey::Str(key) => same_text(key.as_str(), name),
            PyKey::Other(_) => false,
        };
        assert(all[i as int] == (kwargs@[i as int].0@, kwargs@[i as int].1@));
        if here {
            proof {
                lemma_keyword_first(all, name@, i as int);
            }
            return Some(monty_to_string(&kwargs[i].1));
        }
        i += 1;
    }
    proof {
        lemma_keyword_first(all, name@, i as int);
    }
    if position < args.len() {
        Some(monty_to_string(&args[position]))
    } else {
        None
    }
}

// ── Laws ────────────────────────────────────────────────────

/// Every integer in the value fits in 64 bits with sign, and every other
/// number is written as the JSON text of the floating-point number it reads as.
pub open spec fn fits_python(v: Json) -> bool
    decreases v,
{
    match v {
        Json::Number(NumberView::Integer(n)) => i64::MIN <= n <= i64::MAX,
        Json::Number(NumberView::Float(s)) => float_of(s) matches Some((_, json)) && json == Some(s),
        Json::Array(items) => forall|i: int|
            0 <= i < items.len() ==> fits_python(#[trigger] items[i]),
        Json::Object(entries) => forall|i: int|
            0 <= i < entries.len() ==> fits_python((#[trigger] entries[i]).1),
        _ => true,
    }
}

proof fn lemma_put_last(entries: Seq<(Seq<char>, Json)>, n: int)
    requires
        keys_sorted(entries),
        0 < n <= entries.len(),
    ensures
        put(entries.take(n - 1), entries[n - 1].0, entries[n - 1].1) == entries.take(n),
    decreases n,
{
    let head = entries.take(n - 1);
    let (key, value) = entries[n - 1];
    lemma_put_after(head, key, value);
    assert(head.push((key, value)) =~= entries.take(n));
}

proof fn lemma_put_after(entries: Seq<(Seq<char>, Json)>, key: Seq<char>, value: Json)
    requires
        forall|j: int|
            0 <= j < entries.len() ==> crate::text::text_before((#[trigger] entries[j]).0, key),
    ensures
        put(entries, key, value) == entries.push((key, value)),
    decreases entries.len(),
{
    if entries.len() == 0 {
        assert(put(entries, key, value) =~= entries.push((key, value)));
    } else {
        crate::text::lemma_text_before_strict(entries[0].0, key);
        let rest = entries.drop_first();
        assert forall|j: int| 0 <= j < rest.len() implies crate::text::text_before(
            (#[trigger] rest[j]).0,
            key,
        ) by {
            assert(rest[j] == entries[j + 1]);
        }
        lemma_put_after(rest, key, value);
        assert(seq![entries[0]] + rest.push((key, value)) =~= entries.push((key, value)));
    }
}

proof fn lemma_object_round_trip(entries: Seq<(Seq<char>, Json)>, n: int)
    requires
        0 <= n <= entries.len(),
        keys_sorted(entries),
        forall|i: int| 0 <= i < entries.len() ==> (#[trigger] entries[i]).1.ordered(),
        forall|i: int| 0 <= i < entries.len() ==> fits_python((#[trigger] entries[i]).1),
    ensures
        pairs_json(json_py(Json::Object(entries))->Dict_0.subrange(0, n)) == entries.take(n),
    decreases Json::Object(entries), 0int, n,
{
    let pairs = json_py(Json::Object(entries))->Dict_0;
    if n == 0 {
        assert(pairs_json(pairs.subrange(0, 0)) =~= entries.take(0));
    } else {
        lemma_object_round_trip(entries, n - 1);
        assert(decreases_to!(Json::Object(entries) => entries[n - 1].1));
        law_json_round_trip(entries[n - 1].1);
        let head = pairs.subrange(0, n);
        assert(head.subrange(0, head.len() - 1) =~= pairs.subrange(0, n - 1));
        lemma_put_last(entries, n);
    }
}

/// A JSON value whose integers fit in 64 bits with sign, and whose other
/// numbers are written as JSON writes them, comes back from Python as it was.
pub proof fn law_json_round_trip(v: Json)
    requires
        v.ordered(),
        fits_python(v),
    ensures
        py_json(json_py(v)) == v,
    decreases v, 1int, 0int,
{
    match v {
        Json::Array(items) => {
            assert forall|i: int| 0 <= i < items.len() implies py_json(
                json_py(#[trigger] items[i]),
            ) == items[i] by {
                law_json_round_trip(items[i]);
            }
            assert(items_json(json_py(v)->List_0) =~= items);
        },
        Json::Object(entries) => {
            assert forall|i: int| 0 <= i < entries.len() implies (
            #[trigger] entries[i]).1.ordered() by {}
            lemma_object_round_trip(entries, entries.len() as int);
            let pairs = json_py(v)->Dict_0;
            assert(pairs.subrange(0, entries.len() as int) =~= pairs);
            assert(entries.take(entries.len() as int) =~= entries);
        },
        _ => {},
    }
}

/// Simple Python values become the JSON values they are; what JSON has no form
/// for becomes a string, and a float that JSON cannot write becomes `null`.
pub proof fn law_simple_python_values_become_json(v: PyValue, hex: String, r: JsonValue)
    requires
        call_ensures(monty_to_json, (&v,), r),
        v matches PyValue::Bytes(bytes) ==> call_ensures(hex_text, (&bytes,), hex),
    ensures
        v is Nil ==> r is Null,
        v matches PyValue::Bool(b) ==> r@ == Json::Bool(b),
        v matches PyValue::Int(n) ==> r@ == Json::Number(NumberView::Integer(n as int)),
        v matches PyValue::BigInt(digits) ==> r@ == Json::Text(digits@),
        v matches PyValue::Float { json: Some(text), .. } ==> r@ == Json::Number(
            NumberView::Float(text@),
        ),
        v matches PyValue::Float { json: None, .. } ==> r is Null,
        v matches PyValue::Str(text) ==> r@ == Json::Text(text@),
        v is Bytes ==> r@ == Json::Text(hex@),
        v matches PyValue::Other(text) ==> r@ == Json::Text(text@),
        v is List || v is Tuple || v is Items <==> r is Array,
        v is Dict <==> r is Object,
{
}

/// A list, a tuple and a set become arrays, item by item and in order.
pub proof fn law_python_lists_become_arrays(
    v: PyValue,
    items: Vec<PyValue>,
    i: int,
    item: JsonValue,
    r: JsonValue,
)
    requires
        v == PyValue::List(items) || v == PyValue::Tuple(items) || v == PyValue::Items(items),
        call_ensures(monty_to_json, (&v,), r),
        0 <= i < items@.len(),
        call_ensures(monty_to_json, (&items@[i],), item),
    ensures
        r matches JsonValue::Array(made) && made@.len() == items@.len() && made@[i]@ == item@,
{
    broadcast use {lemma_py_of_compound, lemma_view_of_compound};

    let made = r->Array_0@;
    assert(py_list(items@)[i] == items@[i]@);
    assert(json_list(made) == items_json(py_list(items@)));
    assert(json_list(made).len() == made.len());
    assert(json_list(made)[i] == made[i]@);
}

/// A pair more in a dictionary is an entry more in its object: the key, by its
/// text, has the pair's value, and every other key what it had.
pub proof fn law_python_dicts_become_objects(
    a: PyValue,
    b: PyValue,
    key: PyKey,
    value: PyValue,
    asked: Seq<char>,
    x: JsonValue,
    y: JsonValue,
    z: JsonValue,
)
    requires
        a is Dict,
        b is Dict,
        b->Dict_0@ == a->Dict_0@.push((key, value)),
        call_ensures(monty_to_json, (&a,), x),
        call_ensures(monty_to_json, (&b,), y),
        call_ensures(monty_to_json, (&value,), z),
    ensures
        x is Object && y is Object,
        ({
            let written = match key {
                PyKey::Str(text) => text@,
                PyKey::Other(text) => text@,
            };
            &&& y@.member(written) == Some(z@)
            &&& asked != written ==> y@.member(asked) == x@.member(asked)
        }),
        a->Dict_0@.len() == 0 ==> x@.member(asked) is None,
{
    broadcast use {lemma_py_of_compound, lemma_view_of_compound};

    let pa = py_pairs(a->Dict_0@);
    let pb = py_pairs(b->Dict_0@);
    assert(pb =~= pa.push((key@, value@)));
    assert(pb.subrange(0, pb.len() - 1) =~= pa);
    crate::json::law_put_then_lookup(pairs_json(pa), key_text(key@), z@, asked);
}

/// JSON values become the Python values they are. A number that is no integer
/// of 64 bits with sign becomes the float that its digits read as.
pub proof fn law_json_becomes_python(v: JsonValue, i: int, item: PyValue, r: PyValue)
    requires
        call_ensures(json_to_monty, (&v,), r),
        v matches JsonValue::Array(items) ==> 0 <= i < items@.len() && call_ensures(
            json_to_monty,
            (&items@[i],),
            item,
        ),
        v matches JsonValue::Object(entries) ==> 0 <= i < entries@.len() && call_ensures(
            json_to_monty,
            (&entries@[i].1,),
            item,
        ),
    ensures
        v is Null ==> r is Nil,
        v matches JsonValue::Bool(b) ==> r@ == Py::Bool(b),
        v matches JsonValue::Number(Number::PosInt(n)) ==> n <= i64::MAX ==> r@ == Py::Int(
            n as int,
        ),
        v matches JsonValue::Number(Number::NegInt(n)) ==> r@ == Py::Int(n as int),
        v matches JsonValue::Number(Number::PosInt(n)) ==> n > i64::MAX ==> (match float_of(
            crate::text::decimal(n as nat),
        ) {
            Some((display, json)) => r@ == (Py::Float { display, json }),
            None => r@ == Py::Str(crate::text::decimal(n as nat)),
        }),
        v matches JsonValue::Number(Number::Float(text)) ==> (match float_of(text@) {
            Some((display, json)) => r@ == (Py::Float { display, json }),
            None => r@ == Py::Str(text@),
        }),
        v matches JsonValue::Str(text) ==> r@ == Py::Str(text@),
        v matches JsonValue::Array(items) ==> (r matches PyValue::List(made) && made@.len()
            == items@.len() && made@[i]@ == item@),
        v matches JsonValue::Object(entries) ==> (r matches PyValue::Dict(made) && made@.len()
            == entries@.len() && made@[i].0@ == PyKeyView::Str(entries@[i].0@) && made@[i].1@
            == item@),
{
    broadcast use {lemma_py_of_compound, lemma_view_of_compound};

    match v {
        JsonValue::Array(items) => {
            let made = r->List_0@;
            assert(json_list(items@)[i] == items@[i]@);
            assert(py_list(made).len() == made.len());
            assert(py_list(made)[i] == made[i]@);
        },
        JsonValue::Object(entries) => {
            let made = r->Dict_0@;
            assert(json_entries(entries@)[i] == (entries@[i].0@, entries@[i].1@));
            assert(py_pairs(made).len() == made.len());
            assert(py_pairs(made)[i] == (made[i].0@, made[i].1@));
        },
        _ => {},
    }
}

/// A Python string is its own text; simple values have Python's or JSON's
/// words; a float is written as it displays; and everything else as its JSON.
pub proof fn law_python_values_become_text(
    v: PyValue,
    json: JsonValue,
    written: String,
    r: String,
)
    requires
        call_ensures(monty_to_string, (&v,), r),
        call_ensures(monty_to_json, (&v,), json),
        call_ensures(render, (&json,), written),
    ensures
        v matches PyValue::Str(text) ==> r@ == text@,
        v is Nil ==> r@ == "None"@,
        v matches PyValue::Float { display, .. } ==> r@ == display@,
        !(v is Str) && !(v is Nil) && !(v is Float) ==> r@ == written@,
{
}

/// The arguments of a call are one object: the positional ones as a list under
/// `_args`, where there are any, and each keyword argument under its name, the
/// last of a name counting.
pub proof fn law_arguments_become_an_object(
    args: Vec<PyValue>,
    none: Vec<(PyKey, PyValue)>,
    kwargs: Vec<(PyKey, PyValue)>,
    more: Vec<(PyKey, PyValue)>,
    key: PyKey,
    value: PyValue,
    asked: Seq<char>,
    list: JsonValue,
    w: JsonValue,
    x: JsonValue,
    y: JsonValue,
    z: JsonValue,
)
    requires
        none@.len() == 0,
        more@ == kwargs@.push((key, value)),
        call_ensures(monty_args_to_json, (&args, &none), w),
        call_ensures(monty_args_to_json, (&args, &kwargs), x),
        call_ensures(monty_args_to_json, (&args, &more), y),
        call_ensures(monty_to_json, (&value,), z),
        call_ensures(monty_to_json, (&PyValue::List(args),), list),
    ensures
        w is Object && x is Object && y is Object,
        args@.len() == 0 ==> w@.member(asked) is None,
        args@.len() > 0 ==> w@.member("_args"@) == Some(list@),
        asked != "_args"@ ==> w@.member(asked) is None,
        ({
            let written = match key {
                PyKey::Str(text) => text@,
                PyKey::Other(text) => text@,
            };
            &&& y@.member(written) == Some(z@)
            &&& asked != written ==> y@.member(asked) == x@.member(asked)
        }),
{
    broadcast use {lemma_py_of_compound, lemma_view_of_compound};

    let front: Seq<(PyKeyView, Py)> = if args@.len() == 0 {
        seq![]
    } else {
        seq![(PyKeyView::Str("_args"@), Py::List(py_list(args@)))]
    };
    let pn = front + py_pairs(none@);
    let px = front + py_pairs(kwargs@);
    let py = front + py_pairs(more@);
    assert(py_list(args@).len() == args@.len());
    assert(pn =~= front);
    assert(w@ == Json::Object(pairs_json(front)));
    if args@.len() > 0 {
        assert(front.subrange(0, 0) =~= seq![]);
        assert(pairs_json(front.subrange(0, 0)) =~= seq![]);
        crate::json::law_put_then_lookup(seq![], "_args"@, list@, asked);
        assert(pairs_json(front) == put(seq![], "_args"@, list@));
    }
    assert(py_pairs(more@) =~= py_pairs(kwargs@).push((key@, value@)));
    assert(py =~= px.push((key@, value@)));
    assert(py.subrange(0, py.len() - 1) =~= px);
    crate::json::law_put_then_lookup(pairs_json(px), key_text(key@), z@, asked);
}

/// An argument is taken by its name, the first of that name, and else by its
/// place; where there is neither, there is none.
pub proof fn law_arguments_are_found(
    args: Vec<PyValue>,
    kwargs: Vec<(PyKey, PyValue)>,
    name: &str,
    position: usize,
    i: int,
    by_name: String,
    by_place: String,
    r: Option<String>,
)
    requires
        call_ensures(extract_string_arg, (&args, &kwargs, name, position), r),
        call_ensures(monty_to_string, (&kwargs@[i].1,), by_name),
        call_ensures(monty_to_string, (&args@[position as int],), by_place),
    ensures
        (0 <= i < kwargs@.len() && (kwargs@[i].0 matches PyKey::Str(key) && key@ == name@)
            && forall|j: int|
            0 <= j < i ==> !((#[trigger] kwargs@[j]).0 matches PyKey::Str(key) && key@ == name@))
            ==> (r matches Some(text) && text@ == by_name@),
        (forall|j: int|
            0 <= j < kwargs@.len() ==> !((#[trigger] kwargs@[j]).0 matches PyKey::Str(key) && key@
                == name@)) ==> (position < args@.len() ==> (r matches Some(text) && text@
            == by_place@)) && (position >= args@.len() ==> r is None),
{
    let pairs = py_pairs(kwargs@);
    if 0 <= i < kwargs@.len() && (kwargs@[i].0 matches PyKey::Str(key) && key@ == name@)
        && forall|j: int|
        0 <= j < i ==> !((#[trigger] kwargs@[j]).0 matches PyKey::Str(key) && key@ == name@) {
        assert forall|j: int| 0 <= j < i implies (#[trigger] pairs[j]).0 != PyKeyView::Str(
            name@,
        ) by {
            assert(pairs[j] == (kwargs@[j].0@, kwargs@[j].1@));
        }
        assert(pairs[i] == (kwargs@[i].0@, kwargs@[i].1@));
        lemma_keyword_first(pairs, name@, i);
    }
    if forall|j: int|
        0 <= j < kwargs@.len() ==> !((#[trigger] kwargs@[j]).0 matches PyKey::Str(key) && key@
            == name@) {
        assert forall|j: int| 0 <= j < pairs.len() implies (#[trigger] pairs[j]).0
            != PyKeyView::Str(name@) by {
            assert(pairs[j] == (kwargs@[j].0@, kwargs@[j].1@));
        }
        lemma_keyword_first(pairs, name@, pairs.len() as int);
    }
}

/// A number that could be read is a number with its texts; one that could not
/// stays as it was written.
pub proof fn law_floats_are_values(
    numeral: String,
    read: Option<(String, Option<String>)>,
    r: PyValue,
)
    requires
        call_ensures(float_value, (numeral, read), r),
    ensures
        read is None ==> r@ == Py::Str(numeral@),
        read matches Some((display, Some(json))) ==> r@ == (Py::Float {
            display: display@,
            json: Some(json@),
        }),
        read matches Some((display, None)) ==> r@ == (Py::Float { display: display@, json: None }),
{
}

} // verus!
