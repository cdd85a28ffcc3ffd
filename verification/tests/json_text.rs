use aws_iot_core::json::JsonValue;
use aws_iot_core::json::to_json_text;

#[test]
fn scalars() {
    assert_eq!(to_json_text(&JsonValue::Null), "null");
    assert_eq!(to_json_text(&JsonValue::Bool(true)), "true");
    assert_eq!(to_json_text(&JsonValue::Bool(false)), "false");
    assert_eq!(to_json_text(&JsonValue::Int(0)), "0");
    assert_eq!(to_json_text(&JsonValue::Int(42)), "42");
    assert_eq!(to_json_text(&JsonValue::Int(-7)), "-7");
    assert_eq!(to_json_text(&JsonValue::Int(i64::MAX)), "9223372036854775807");
    assert_eq!(to_json_text(&JsonValue::Int(i64::MIN)), "-9223372036854775808");
}

#[test]
fn strings_and_escapes() {
    assert_eq!(to_json_text(&JsonValue::Str(String::new())), "\"\"");
    assert_eq!(
        to_json_text(&JsonValue::Str("hello".to_string())),
        "\"hello\""
    );
    assert_eq!(
        to_json_text(&JsonValue::Str("a\"b\\c".to_string())),
        "\"a\\\"b\\\\c\""
    );
    assert_eq!(
        to_json_text(&JsonValue::Str("line\nbreak\tand\rmore".to_string())),
        "\"line\\nbreak\\tand\\rmore\""
    );
    assert_eq!(
        to_json_text(&JsonValue::Str("\u{1}\u{1f}".to_string())),
        "\"\\u0001\\u001f\""
    );
}

#[test]
fn arrays_and_objects() {
    assert_eq!(to_json_text(&JsonValue::Arr(vec![])), "[]");
    assert_eq!(
        to_json_text(&JsonValue::Arr(vec![
            JsonValue::Int(1),
            JsonValue::Int(2),
            JsonValue::Null,
        ])),
        "[1,2,null]"
    );
    assert_eq!(to_json_text(&JsonValue::Obj(vec![])), "{}");
    assert_eq!(
        to_json_text(&JsonValue::Obj(vec![
            ("a".to_string(), JsonValue::Int(1)),
            ("b".to_string(), JsonValue::Str("x".to_string())),
        ])),
        "{\"a\":1,\"b\":\"x\"}"
    );
    let nested = JsonValue::Obj(vec![(
        "outer".to_string(),
        JsonValue::Obj(vec![(
            "inner".to_string(),
            JsonValue::Arr(vec![JsonValue::Bool(false)]),
        )]),
    )]);
    assert_eq!(to_json_text(&nested), "{\"outer\":{\"inner\":[false]}}");
}

#[test]
fn output_parses_as_json() {
    let value = JsonValue::Obj(vec![
        ("text".to_string(), JsonValue::Str("q\"\\\n".to_string())),
        ("n".to_string(), JsonValue::Int(-12)),
        ("list".to_string(), JsonValue::Arr(vec![JsonValue::Null])),
    ]);
    let text = to_json_text(&value);
    let parsed: serde_json::Value = serde_json::from_str(&text).unwrap();
    assert_eq!(parsed["text"], serde_json::Value::String("q\"\\\n".to_string()));
    assert_eq!(parsed["n"], serde_json::Value::from(-12));
}
