use miku_ui::json::{JsonNumber, JsonValue};
use miku_ui::yaml::{
    editable_resource_yaml, full_manifest_yaml, instance_manifest_yaml, parse_resource_apply_yaml, parse_yaml_document,
};

fn doc(text: &str) -> JsonValue {
    parse_yaml_document(text).unwrap()
}

#[test]
fn yaml_document_becomes_json_model() {
    let value = doc("kind: Pod\nspec:\n  replicas: 3\n  offset: -2\n  ratio: 0.5\n  ready: true\n  items: [a, b]\n  none: null\n");
    assert_eq!(value.at(&["kind"]).and_then(|v| v.as_str()), Some("Pod"));
    assert_eq!(value.at(&["spec", "replicas"]), Some(&JsonValue::Number(JsonNumber::PosInt(3))));
    assert_eq!(value.at(&["spec", "offset"]), Some(&JsonValue::Number(JsonNumber::NegInt(-2))));
    assert_eq!(value.at(&["spec", "ratio"]), Some(&JsonValue::Number(JsonNumber::Float("0.5".to_owned()))));
    assert_eq!(value.at(&["spec", "ready"]), Some(&JsonValue::Bool(true)));
    assert_eq!(value.at(&["spec", "none"]), Some(&JsonValue::Null));
    assert_eq!(value.at(&["spec", "items"]).and_then(|v| v.as_array()).map(|a| a.len()), Some(2));
}

#[test]
fn malformed_yaml_is_an_error() {
    assert!(parse_yaml_document("kind: [unclosed").is_err());
    let error = parse_resource_apply_yaml("kind: [unclosed", true, Some("default")).err().unwrap();
    assert!(!error.is_empty());
    assert_ne!(error, "metadata.name is required");
}

#[test]
fn applied_yaml_takes_name_and_namespace() {
    let parsed = parse_resource_apply_yaml("kind: Pod\nmetadata:\n  name: web\n  namespace: prod\n", true, Some("default")).unwrap();
    assert_eq!(parsed.name, "web");
    assert_eq!(parsed.namespace.as_deref(), Some("prod"));
    assert_eq!(parsed.manifest.at(&["kind"]).and_then(|v| v.as_str()), Some("Pod"));
}

#[test]
fn applied_yaml_falls_back_to_default_namespace() {
    let parsed = parse_resource_apply_yaml("kind: Pod\nmetadata:\n  name: web\n  namespace: ' '\n", true, Some("default")).unwrap();
    assert_eq!(parsed.namespace.as_deref(), Some("default"));
    let cluster_scoped = parse_resource_apply_yaml("kind: Node\nmetadata:\n  name: n1\n  namespace: prod\n", false, Some("default")).unwrap();
    assert_eq!(cluster_scoped.namespace, None);
}

#[test]
fn applied_yaml_without_name_is_refused() {
    let error = parse_resource_apply_yaml("kind: Pod\nmetadata:\n  namespace: prod\n", true, None).err().unwrap();
    assert_eq!(error, "metadata.name is required");
    let blank = parse_resource_apply_yaml("kind: Pod\nmetadata:\n  name: '  '\n", true, None).err().unwrap();
    assert_eq!(blank, "metadata.name is required");
}

#[test]
fn manifest_is_shown_as_yaml() {
    let value = doc("{\"kind\": \"Pod\", \"metadata\": {\"name\": \"web\"}}");
    let text = full_manifest_yaml(&value);
    assert!(text.contains("kind: Pod"));
    assert!(text.contains("name: web"));
    assert!(!text.contains('{'));
    assert_eq!(parse_yaml_document(&text).unwrap(), value);
    assert_eq!(instance_manifest_yaml(&value), text);
}

#[test]
fn editable_yaml_drops_server_fields() {
    let raw = doc("kind: Pod\nmetadata:\n  name: web\n  uid: abc\n  resourceVersion: '7'\n  managedFields: []\nstatus:\n  phase: Running\n");
    let text = editable_resource_yaml(raw);
    let edited = parse_yaml_document(&text).unwrap();
    assert_eq!(edited.at(&["metadata", "name"]).and_then(|v| v.as_str()), Some("web"));
    assert!(edited.at(&["status"]).is_none());
    assert!(edited.at(&["metadata", "uid"]).is_none());
    assert!(edited.at(&["metadata", "resourceVersion"]).is_none());
    assert!(edited.at(&["metadata", "managedFields"]).is_none());
}
