use json_codegen::codegen::Generator;
use json_codegen::value::Value;

fn render(value: &Value, minify: bool) -> String {
    let mut gen = Generator::new(minify);
    gen.write_json(value);
    gen.consume()
}

fn flat_object() -> Value {
    Value::Object(vec![
        ("a".to_string(), Value::Number("1".to_string())),
        ("b".to_string(), Value::Boolean(true)),
    ])
}

#[test]
fn string_escaping() {
    let input = Value::String("a\"b\\c\n".to_string());
    assert_eq!(render(&input, true), "\"a\\\"b\\\\c\\n\"");
    assert_eq!(render(&input, false), "\"a\\\"b\\\\c\\n\"");
}

#[test]
fn escapes_forward_slash() {
    let input = Value::String("a/b".to_string());
    assert_eq!(render(&input, true), "\"a\\/b\"");
}

#[test]
fn escapes_control_shorthands() {
    let input = Value::String("\t\r\u{000C}\u{0008}".to_string());
    assert_eq!(render(&input, true), "\"\\t\\r\\f\\b\"");
}

#[test]
fn other_characters_pass_through() {
    let input = Value::String("ü\u{0001} x".to_string());
    assert_eq!(render(&input, true), "\"ü\u{0001} x\"");
}

#[test]
fn empty_containers() {
    assert_eq!(render(&Value::Array(vec![]), true), "[]");
    assert_eq!(render(&Value::Array(vec![]), false), "[]");
    assert_eq!(render(&Value::Object(vec![]), true), "{}");
    assert_eq!(render(&Value::Object(vec![]), false), "{}");
}

#[test]
fn scalar_literals() {
    assert_eq!(render(&Value::Boolean(true), false), "true");
    assert_eq!(render(&Value::Boolean(false), true), "false");
    assert_eq!(render(&Value::Null, false), "null");
    assert_eq!(render(&Value::Number("-12.5e3".to_string()), true), "-12.5e3");
}

#[test]
fn flat_object_minified() {
    assert_eq!(render(&flat_object(), true), "{\"a\":1,\"b\":true}");
}

#[test]
fn flat_object_pretty() {
    assert_eq!(
        render(&flat_object(), false),
        "{\n    \"a\": 1,\n    \"b\": true\n}"
    );
}

#[test]
fn separator_density() {
    let compact = render(&flat_object(), true);
    assert!(!compact.contains(", "));
    assert!(!compact.contains(": "));
    let pretty = render(&flat_object(), false);
    assert!(pretty.contains(": "));
}

#[test]
fn array_separators() {
    let input = Value::Array(vec![
        Value::Number("1".to_string()),
        Value::Number("2".to_string()),
        Value::Number("3".to_string()),
    ]);
    assert_eq!(render(&input, true), "[1,2,3]");
    assert_eq!(render(&input, false), "[1, 2, 3]");
}

#[test]
fn nested_array_of_objects() {
    let input = Value::Array(vec![Value::Object(vec![(
        "x".to_string(),
        Value::Null,
    )])]);
    assert_eq!(render(&input, true), "[{\"x\":null}]");
    assert_eq!(render(&input, false), "[{\n    \"x\": null\n}]");
}

#[test]
fn object_key_order_preserved() {
    let input = Value::Object(vec![
        ("z".to_string(), Value::Number("1".to_string())),
        ("a".to_string(), Value::Number("2".to_string())),
    ]);
    assert_eq!(render(&input, true), "{\"z\":1,\"a\":2}");
    let pretty = render(&input, false);
    assert!(pretty.find("\"z\"").unwrap() < pretty.find("\"a\"").unwrap());
}

#[test]
fn duplicate_keys_not_deduplicated() {
    let input = Value::Object(vec![
        ("k".to_string(), Value::Number("1".to_string())),
        ("k".to_string(), Value::Number("2".to_string())),
    ]);
    assert_eq!(render(&input, true), "{\"k\":1,\"k\":2}");
}

#[test]
fn keys_are_escaped_like_strings() {
    let input = Value::Object(vec![(
        "a\"b\\".to_string(),
        Value::Null,
    )]);
    assert_eq!(render(&input, true), "{\"a\\\"b\\\\\":null}");
}

#[test]
fn indentation_returns_to_zero() {
    let input = Value::Object(vec![(
        "outer".to_string(),
        Value::Object(vec![(
            "inner".to_string(),
            Value::Array(vec![Value::Object(vec![(
                "deep".to_string(),
                Value::Boolean(false),
            )])]),
        )]),
    )]);
    let pretty = render(&input, false);
    assert_eq!(
        pretty,
        "{\n    \"outer\": {\n        \"inner\": [{\n            \"deep\": false\n        }]\n    }\n}"
    );
    assert!(pretty.ends_with("\n}"));
    assert_eq!(render(&input, true), "{\"outer\":{\"inner\":[{\"deep\":false}]}}");
}

#[test]
fn mixed_array_inline_in_pretty_mode() {
    let input = Value::Array(vec![
        Value::String("s".to_string()),
        Value::Null,
        Value::Array(vec![Value::Boolean(true)]),
    ]);
    assert_eq!(render(&input, false), "[\"s\", null, [true]]");
    assert_eq!(render(&input, true), "[\"s\",null,[true]]");
}
