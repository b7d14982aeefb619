use ironclaw::bits::{to_signed, to_unsigned};
use ironclaw::json::{put_entry, render, JsonValue, Number};
use ironclaw::text::{
    append_decimal, comes_before, contains_text, ends_with_text, hex_text, join_texts, pad_right,
    starts_with_text, take_chars,
};

fn object(pairs: Vec<(&str, JsonValue)>) -> JsonValue {
    let mut entries: Vec<(String, JsonValue)> = Vec::new();
    for (k, v) in pairs {
        put_entry(&mut entries, k.to_string(), v);
    }
    JsonValue::Object(entries)
}

#[test]
fn objects_are_sorted_and_keys_unique() {
    let v = object(vec![
        ("b", JsonValue::Bool(true)),
        ("a", JsonValue::Null),
        ("b", JsonValue::Bool(false)),
        ("é", JsonValue::Number(Number::PosInt(1))),
        ("ab", JsonValue::Number(Number::NegInt(-1))),
    ]);
    assert_eq!(render(&v), "{\"a\":null,\"ab\":-1,\"b\":false,\"é\":1}");
    assert_eq!(v.get("b").and_then(|x| x.as_bool()), Some(false));
    assert!(v.get("c").is_none());
    assert!(JsonValue::Null.get("a").is_none());
}

#[test]
fn render_agrees_with_serde_json() {
    let text = "quote \" slash \\ tab \t nl \n cr \r bs \u{8} ff \u{c} nul \u{0} esc \u{1b} del \u{7f} é 你";
    let mine = render(&JsonValue::Array(vec![
        JsonValue::Str(text.to_string()),
        JsonValue::Number(Number::PosInt(u64::MAX)),
        JsonValue::Number(Number::NegInt(i64::MIN)),
        JsonValue::Number(Number::Float("1.5".to_string())),
        object(vec![("x", JsonValue::Array(vec![]))]),
    ]));
    let theirs = serde_json::to_string(&serde_json::Value::Array(vec![
        serde_json::Value::from(text),
        serde_json::Value::from(u64::MAX),
        serde_json::Value::from(i64::MIN),
        serde_json::Value::from(1.5),
        serde_json::Value::Object(
            vec![("x".to_string(), serde_json::Value::Array(vec![]))].into_iter().collect(),
        ),
    ]))
    .expect("serialises");
    assert_eq!(mine, theirs);
    assert!(mine.contains("\\u0000"));
    assert!(mine.contains("\\u001b"));
}

#[test]
fn accessors() {
    assert_eq!(JsonValue::Number(Number::PosInt(7)).as_u64(), Some(7));
    assert_eq!(JsonValue::Number(Number::NegInt(-7)).as_u64(), None);
    assert_eq!(JsonValue::Number(Number::Float("7.0".to_string())).as_u64(), None);
    assert_eq!(JsonValue::Str("s".to_string()).as_str(), Some("s"));
    assert_eq!(JsonValue::Null.as_str(), None);
    assert!(JsonValue::Null.is_null());
    let v = object(vec![("k", JsonValue::Array(vec![JsonValue::Bool(true), JsonValue::Number(Number::Float("2.5".to_string()))]))]);
    assert_eq!(render(&v.clone()), render(&v));
}

#[test]
fn text_primitives() {
    let mut out = "n=".to_string();
    append_decimal(&mut out, 0);
    append_decimal(&mut out, u64::MAX);
    assert_eq!(out, "n=018446744073709551615");
    assert!(comes_before("a", "ab"));
    assert!(comes_before("Z", "a"));
    assert!(!comes_before("a", "a"));
    assert!(!comes_before("b", "ab"));
    assert!(comes_before("z", "é"));
    assert!(contains_text("hello", "ell"));
    assert!(contains_text("hello", ""));
    assert!(!contains_text("hello", "elo"));
    assert!(!contains_text("he", "hello"));
    assert!(starts_with_text("hello", "he"));
    assert!(ends_with_text("a.json", ".json"));
    assert!(!ends_with_text("json", ".json"));
    assert_eq!(take_chars("héllo", 2), "hé");
    assert_eq!(pad_right("é", 3), "é  ");
    assert_eq!(join_texts(&vec!["a".to_string(), "b".to_string(), "c".to_string()], ", "), "a, b, c");
    assert_eq!(join_texts(&vec![], ", "), "");
    assert_eq!(hex_text(&vec![0, 15, 255]), "000fff");
}

#[test]
fn bit_readings_are_inverse() {
    for n in [0u64, 1, i64::MAX as u64, i64::MAX as u64 + 1, u64::MAX] {
        assert_eq!(to_signed(n), n as i64);
        assert_eq!(to_unsigned(to_signed(n)), n);
    }
}
