use miku_ui::json::{value_str, value_u64, JsonNumber, JsonValue};

fn from_serde(value: &serde_json::Value) -> JsonValue {
    match value {
        serde_json::Value::Null => JsonValue::Null,
        serde_json::Value::Bool(b) => JsonValue::Bool(*b),
        serde_json::Value::Number(n) => match (n.as_u64(), n.as_i64()) {
            (Some(u), _) => JsonValue::Number(JsonNumber::PosInt(u)),
            (None, Some(i)) => JsonValue::Number(JsonNumber::NegInt(i)),
            _ => JsonValue::Number(JsonNumber::Float(n.to_string())),
        },
        serde_json::Value::String(s) => JsonValue::String(s.clone()),
        serde_json::Value::Array(items) => JsonValue::Array(items.iter().map(from_serde).collect()),
        serde_json::Value::Object(map) => {
            JsonValue::Object(map.iter().map(|(k, v)| (k.clone(), from_serde(v))).collect())
        }
    }
}

fn to_serde(value: &JsonValue) -> serde_json::Value {
    match value {
        JsonValue::Null => serde_json::Value::Null,
        JsonValue::Bool(b) => serde_json::Value::Bool(*b),
        JsonValue::Number(JsonNumber::PosInt(u)) => serde_json::Value::from(*u),
        JsonValue::Number(JsonNumber::NegInt(i)) => serde_json::Value::from(*i),
        JsonValue::Number(JsonNumber::Float(t)) => serde_json::from_str(t).unwrap(),
        JsonValue::String(s) => serde_json::Value::String(s.clone()),
        JsonValue::Array(items) => serde_json::Value::Array(items.iter().map(to_serde).collect()),
        JsonValue::Object(entries) => serde_json::Value::Object(
            entries.iter().map(|(k, v)| (k.clone(), to_serde(v))).collect(),
        ),
    }
}

fn json(text: &str) -> JsonValue {
    from_serde(&serde_json::from_str::<serde_json::Value>(text).unwrap())
}

#[test]
fn values_render_as_compact_json() {
    let value = json(r#"{"b": [1, -2, true, null], "a": "x\"y", "c": {"d": 1.5}}"#);
    assert_eq!(value.to_json_text(), serde_json::to_string(&to_serde(&value)).unwrap());
    assert_eq!(JsonValue::String("tab\there".to_owned()).to_json_text(), "\"tab\\there\"");
    assert_eq!(JsonValue::String("\u{1}".to_owned()).to_json_text(), "\"\\u0001\"");
}

#[test]
fn display_strings_show_text_as_is() {
    assert_eq!(JsonValue::String("api".to_owned()).display_string(), "api");
    assert_eq!(JsonValue::Number(JsonNumber::PosInt(2)).display_string(), "2");
    assert_eq!(JsonValue::Bool(true).display_string(), "true");
    assert_eq!(json(r#"["a", 1]"#).display_string(), r#"["a",1]"#);
}

#[test]
fn paths_follow_member_names() {
    let value = json(r#"{"spec": {"replicas": 3, "selector": {"app": "api"}}, "kind": "Deployment"}"#);
    assert_eq!(value_u64(&value, &["spec", "replicas"]), Some(3));
    assert_eq!(value_str(&value, &["spec", "selector", "app"]), Some("api"));
    assert_eq!(value_str(&value, &["kind"]), Some("Deployment"));
    assert_eq!(value_str(&value, &["spec", "replicas"]), None);
    assert_eq!(value_str(&value, &["missing", "app"]), None);
    assert_eq!(value.get("kind").and_then(|v| v.as_str()), Some("Deployment"));
    assert_eq!(json(r#"-4"#).as_i64(), Some(-4));
    assert_eq!(json(r#"-4"#).as_u64(), None);
}
