use miku_ui::json::{JsonNumber, JsonValue};
use miku_ui::resource_panel::components::{
    condition_tone, container_template_describes, event_type_tone, resource_map_entries, ResourceMapEntry, StatusTone,
};

fn from_serde(value: &serde_json::Value) -> JsonValue {
    match value {
        serde_json::Value::Null => JsonValue::Null,
        serde_json::Value::Bool(b) => JsonValue::Bool(*b),
        serde_json::Value::Number(n) => match (n.as_u64(), n.as_i64()) {
            (Some(u), _) => JsonValue::Number(JsonNumber::PosInt(u)),
            (None, Some(i)) => JsonValue::Number(JsonNumber::NegInt(i)),
            _ => JsonValue::Number(JsonNumber::Float(n.to_string())),
        },
        serde_json::Value::String(s) => JsonValue::String(s.clone()),
        serde_json::Value::Array(items) => JsonValue::Array(items.iter().map(from_serde).collect()),
        serde_json::Value::Object(map) => {
            JsonValue::Object(map.iter().map(|(k, v)| (k.clone(), from_serde(v))).collect())
        }
    }
}

fn to_serde(value: &JsonValue) -> serde_json::Value {
    match value {
        JsonValue::Null => serde_json::Value::Null,
        JsonValue::Bool(b) => serde_json::Value::Bool(*b),
        JsonValue::Number(JsonNumber::PosInt(u)) => serde_json::Value::from(*u),
        JsonValue::Number(JsonNumber::NegInt(i)) => serde_json::Value::from(*i),
        JsonValue::Number(JsonNumber::Float(t)) => serde_json::from_str(t).unwrap(),
        JsonValue::String(s) => serde_json::Value::String(s.clone()),
        JsonValue::Array(items) => serde_json::Value::Array(items.iter().map(to_serde).collect()),
        JsonValue::Object(entries) => serde_json::Value::Object(
            entries.iter().map(|(k, v)| (k.clone(), to_serde(v))).collect(),
        ),
    }
}

fn json(text: &str) -> JsonValue {
    from_serde(&serde_json::from_str::<serde_json::Value>(text).unwrap())
}

#[test]
fn container_template_describes_extracts_pod_template_details() {
    let raw = json(
        r#"{
            "spec": {
                "template": {
                    "spec": {
                        "containers": [
                            {
                                "name": "api",
                                "image": "ghcr.io/example/api:1.0.0",
                                "resources": {
                                    "requests": {"cpu": "250m", "memory": "128Mi"},
                                    "limits": {"cpu": "1", "memory": "512Mi"}
                                },
                                "ports": [{"name": "http", "containerPort": 8080, "protocol": "TCP"}],
                                "env": [{"name": "RUST_LOG", "value": "info"}],
                                "volumeMounts": [{"name": "config", "mountPath": "/etc/api"}],
                                "livenessProbe": {"httpGet": {"path": "/healthz", "port": 8080}}
                            }
                        ]
                    }
                }
            }
        }"#,
    );

    let containers = container_template_describes(raw.at(&["spec", "template", "spec", "containers"]));

    assert_eq!(containers.len(), 1);
    assert_eq!(containers[0].name, "api");
    assert_eq!(containers[0].image, "ghcr.io/example/api:1.0.0");
    assert_eq!(containers[0].resources[0].value, "250m");
    assert_eq!(containers[0].resources[1].value, "1");
    assert_eq!(containers[0].resources[2].value, "128Mi");
    assert_eq!(containers[0].resources[3].value, "512Mi");
    assert_eq!(containers[0].ports, "http:8080/TCP");
    assert_eq!(containers[0].env_count, "1 vars");
    assert_eq!(containers[0].volume_mounts, "config at /etc/api");
    assert!(containers[0].probes[0].value.contains("configured"));
    assert_eq!(containers[0].probes[1].value, "N/A");
}

#[test]
fn container_template_describes_uses_stable_fallbacks() {
    let raw = json(r#"{"spec": {"template": {"spec": {"containers": [{"name": "worker"}]}}}}"#);

    let containers = container_template_describes(raw.at(&["spec", "template", "spec", "containers"]));

    assert_eq!(containers.len(), 1);
    assert_eq!(containers[0].name, "worker");
    assert_eq!(containers[0].image, "N/A");
    assert!(containers[0].resources.iter().all(|field| field.value == "N/A"));
    assert_eq!(containers[0].ports, "N/A");
    assert_eq!(containers[0].env_count, "0 vars");
    assert_eq!(containers[0].volume_mounts, "N/A");
    assert!(containers[0].probes.iter().all(|field| field.value == "N/A"));
}

#[test]
fn resource_map_entries_sort_keys_and_stringify_values() {
    let raw = json(r#"{"metadata": {"labels": {"tier": "api", "enabled": true, "replicas": 2}}}"#);

    let entries = resource_map_entries(raw.at(&["metadata", "labels"]));

    assert_eq!(entries[0], ResourceMapEntry::new("enabled", "true"));
    assert_eq!(entries[1], ResourceMapEntry::new("replicas", "2"));
    assert_eq!(entries[2], ResourceMapEntry::new("tier", "api"));
    assert!(resource_map_entries(raw.at(&["metadata", "annotations"])).is_empty());
}

#[test]
fn map_entries_render_as_selectors_and_chips() {
    let entry = ResourceMapEntry::new("app", "api");
    assert_eq!(entry.selector(), "app=api");
    assert!(entry.is_chip_friendly());
    assert!(!ResourceMapEntry::new("note", "a long\nmultiline value").is_chip_friendly());
}

#[test]
fn missing_container_list_has_no_describes() {
    let raw = json(r#"{"spec": {}}"#);
    assert!(container_template_describes(raw.at(&["spec", "template", "spec", "containers"])).is_empty());
}

#[test]
fn statuses_and_event_types_have_tones() {
    assert_eq!(condition_tone("True"), StatusTone::Healthy);
    assert_eq!(condition_tone("Running"), StatusTone::Healthy);
    assert_eq!(condition_tone("Pending"), StatusTone::InProgress);
    assert_eq!(condition_tone("Suspended"), StatusTone::InProgress);
    assert_eq!(condition_tone("Failed"), StatusTone::Failing);
    assert_eq!(condition_tone("Unknown"), StatusTone::Failing);
    assert_eq!(condition_tone("true"), StatusTone::Plain);
    assert_eq!(event_type_tone("Normal"), StatusTone::Healthy);
    assert_eq!(event_type_tone("Warning"), StatusTone::InProgress);
    assert_eq!(event_type_tone("Other"), StatusTone::Plain);
}
