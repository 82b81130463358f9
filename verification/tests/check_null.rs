use request_json::{check_document, check_null, Json, JsonError};

fn text(s: &str) -> Json {
    Json::String(s.to_string())
}

fn number(n: i64) -> Json {
    Json::Number(serde_json::Number::from(n))
}

fn member(key: &str, value: Json) -> (String, Json) {
    (key.to_string(), value)
}

fn tree_of_text(data: &str) -> Json {
    let v: serde_json::Value = serde_json::from_str(data).unwrap();
    Json::from_document(&v)
}

#[test]
fn test_check_nulls() {
    let data = r#"
        {
            "name": "John Doe",
            "age": 43,
            "phones": [
                "+44 1234567",
                "+44 2345678"
            ],
            "children": [
                {
                    "name": "Sarah\u0000"
                },
                {
                    "name": "Bill\u0000"
                }
            ]
        }"#;

    let v: serde_json::Value = serde_json::from_str(data).unwrap();
    let tree = Json::from_document(&v);
    assert!(check_null(&tree).is_err());
}

#[test]
fn test_key_nulls() {
    let data = r#"
        {
            "name\u0000": "John Doe",
            "age": 43
        }"#;

    let v: serde_json::Value = serde_json::from_str(data).unwrap();
    let tree = Json::from_document(&v);
    assert!(check_null(&tree).is_err());
}

#[test]
fn test_check_not_null() {
    let data = r#"
        {
            "name": "John Doe",
            "age": 43,
            "phones": [
                "+44 1234567",
                "+44 2345678"
            ],
            "children": [
                {
                    "name": "Sarah"
                },
                {
                    "name": "Bill"
                }
            ]
        }"#;

    let v: serde_json::Value = serde_json::from_str(data).unwrap();
    let tree = Json::from_document(&v);
    assert!(check_null(&tree).is_ok());
}

#[test]
fn clean_document_comes_back_unchanged() {
    let tree = Json::Object(vec![
        member("name", text("John Doe")),
        member("age", number(43)),
        member("phones", Json::Array(vec![text("+44 1234567"), text("+44 2345678")])),
        member("nothing", Json::Null),
        member("flag", Json::Bool(true)),
    ]);
    let back = check_null(&tree).unwrap();
    assert!(std::ptr::eq(back, &tree));
    assert_eq!(back, &tree);
}

#[test]
fn scalars_always_pass() {
    assert!(check_null(&Json::Null).is_ok());
    assert!(check_null(&Json::Bool(false)).is_ok());
    assert!(check_null(&Json::Bool(true)).is_ok());
    assert!(check_null(&number(0)).is_ok());
    assert!(check_null(&number(-7)).is_ok());
}

#[test]
fn empty_containers_pass() {
    assert!(check_null(&Json::Array(vec![])).is_ok());
    assert!(check_null(&Json::Object(vec![])).is_ok());
    assert!(check_null(&text("")).is_ok());
}

#[test]
fn nul_in_a_string_value_is_rejected() {
    assert!(matches!(check_null(&text("\0")), Err(JsonError::NullPresent)));
    assert!(matches!(check_null(&text("Sarah\0")), Err(JsonError::NullPresent)));
    assert!(matches!(check_null(&text("\0Sarah")), Err(JsonError::NullPresent)));
    assert!(matches!(check_null(&text("Sa\0rah")), Err(JsonError::NullPresent)));
}

#[test]
fn nul_in_a_key_is_rejected_whatever_the_value() {
    let clean_value = Json::Object(vec![member("name\0", text("John Doe"))]);
    assert!(matches!(check_null(&clean_value), Err(JsonError::NullPresent)));
    let dirty_value = Json::Object(vec![member("name\0", text("John\0Doe"))]);
    assert!(matches!(check_null(&dirty_value), Err(JsonError::NullPresent)));
    let scalar_value = Json::Object(vec![member("\0", Json::Null)]);
    assert!(matches!(check_null(&scalar_value), Err(JsonError::NullPresent)));
}

#[test]
fn nul_is_found_at_any_depth() {
    let deep = Json::Array(vec![
        number(1),
        Json::Object(vec![member(
            "a",
            Json::Array(vec![Json::Object(vec![member("b", Json::Array(vec![text("x\0")]))])]),
        )]),
    ]);
    assert!(matches!(check_null(&deep), Err(JsonError::NullPresent)));
    let deep_key = Json::Array(vec![Json::Array(vec![Json::Object(vec![member(
        "a",
        Json::Object(vec![member("b\0", number(1))]),
    )])])]);
    assert!(matches!(check_null(&deep_key), Err(JsonError::NullPresent)));
}

#[test]
fn nul_is_found_wherever_it_stands_in_the_order() {
    let first = Json::Array(vec![text("a\0"), text("b"), text("c")]);
    let middle = Json::Array(vec![text("b"), text("a\0"), text("c")]);
    let last = Json::Array(vec![text("c"), text("b"), text("a\0")]);
    assert!(check_null(&first).is_err());
    assert!(check_null(&middle).is_err());
    assert!(check_null(&last).is_err());
    let members_first = Json::Object(vec![member("k\0", number(1)), member("l", number(2))]);
    let members_last = Json::Object(vec![member("l", number(2)), member("k\0", number(1))]);
    assert!(check_null(&members_first).is_err());
    assert!(check_null(&members_last).is_err());
    let clean = Json::Array(vec![text("a"), text("b"), text("c")]);
    let clean_reordered = Json::Array(vec![text("c"), text("a"), text("b")]);
    assert!(check_null(&clean).is_ok());
    assert!(check_null(&clean_reordered).is_ok());
}

#[test]
fn characters_beside_nul_are_no_nul() {
    assert!(check_null(&text("\u{1}")).is_ok());
    assert!(check_null(&text("0")).is_ok());
    assert!(check_null(&text("\\0")).is_ok());
    assert!(check_null(&text("\\u0000")).is_ok());
    assert!(check_null(&text("\u{100}")).is_ok());
    assert!(check_null(&text("\u{10000}")).is_ok());
    assert!(check_null(&text("日本語")).is_ok());
    assert!(check_null(&text("日本\0語")).is_err());
}

#[test]
fn escaped_nul_in_the_source_is_a_nul_in_the_string() {
    assert!(check_null(&tree_of_text(r#""\u0000""#)).is_err());
    assert!(check_null(&tree_of_text(r#"["a", "b\u0000c"]"#)).is_err());
    assert!(check_null(&tree_of_text(r#"{"\u0000": 1}"#)).is_err());
}

#[test]
fn escaped_backslash_before_u0000_is_no_nul() {
    let tree = tree_of_text(r#""\\u0000""#);
    assert_eq!(tree, text("\\u0000"));
    assert!(check_null(&tree).is_ok());
}

#[test]
fn from_document_keeps_every_variant() {
    assert_eq!(tree_of_text("null"), Json::Null);
    assert_eq!(tree_of_text("true"), Json::Bool(true));
    assert_eq!(tree_of_text("false"), Json::Bool(false));
    assert_eq!(tree_of_text("43"), number(43));
    assert_eq!(tree_of_text("-43"), number(-43));
    assert_eq!(tree_of_text(r#""John Doe""#), text("John Doe"));
    assert_eq!(tree_of_text("[]"), Json::Array(vec![]));
    assert_eq!(tree_of_text("{}"), Json::Object(vec![]));
    assert_eq!(
        tree_of_text(r#"[1, "two", [3], null]"#),
        Json::Array(vec![number(1), text("two"), Json::Array(vec![number(3)]), Json::Null])
    );
}

#[test]
fn from_document_keeps_fractions() {
    let expected = serde_json::Number::from_f64(1.5).unwrap();
    assert_eq!(tree_of_text("1.5"), Json::Number(expected));
}

#[test]
fn from_document_hands_out_members_as_the_map_does() {
    let data = r#"{"b": 1, "a": {"d": "x", "c": "y"}}"#;
    let v: serde_json::Value = serde_json::from_str(data).unwrap();
    let keys: Vec<String> = v.as_object().unwrap().keys().cloned().collect();
    let tree = Json::from_document(&v);
    match tree {
        Json::Object(members) => {
            let found: Vec<String> = members.iter().map(|m| m.0.clone()).collect();
            assert_eq!(found, keys);
            assert_eq!(members.len(), 2);
            for (key, value) in members {
                if key == "b" {
                    assert_eq!(value, number(1));
                } else {
                    assert_eq!(key, "a");
                    match value {
                        Json::Object(inner) => {
                            assert_eq!(inner.len(), 2);
                            assert!(inner.contains(&member("c", text("y"))));
                            assert!(inner.contains(&member("d", text("x"))));
                        }
                        other => panic!("not an object: {:?}", other),
                    }
                }
            }
        }
        other => panic!("not an object: {:?}", other),
    }
}

#[test]
fn check_document_hands_the_document_back() {
    let data = r#"{"name": "John Doe", "phones": ["+44 1234567"], "age": 43}"#;
    let v: serde_json::Value = serde_json::from_str(data).unwrap();
    let back = check_document(&v).unwrap();
    assert!(std::ptr::eq(back, &v));
}

#[test]
fn check_document_rejects_nul() {
    let in_value: serde_json::Value =
        serde_json::from_str(r#"{"children": [{"name": "Sarah\u0000"}]}"#).unwrap();
    assert!(matches!(check_document(&in_value), Err(JsonError::NullPresent)));
    let in_key: serde_json::Value =
        serde_json::from_str(r#"{"children": [{"name\u0000": "Sarah"}]}"#).unwrap();
    assert!(matches!(check_document(&in_key), Err(JsonError::NullPresent)));
    let built = serde_json::Value::Array(vec![serde_json::Value::String("a\0".to_string())]);
    assert!(matches!(check_document(&built), Err(JsonError::NullPresent)));
}

#[test]
fn check_document_passes_scalars() {
    assert!(check_document(&serde_json::Value::Null).is_ok());
    assert!(check_document(&serde_json::Value::Bool(true)).is_ok());
    assert!(check_document(&serde_json::Value::Number(serde_json::Number::from(0))).is_ok());
    assert!(check_document(&serde_json::Value::String(String::new())).is_ok());
}
