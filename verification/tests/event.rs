use miku_ui::json::{JsonNumber, JsonValue};
use miku_ui::resource_panel::describe::event_describe_from_row;
use miku_ui::resource_panel::event::{event_key, event_rows_from_list, format_timestamp, seen, EventResourcePanel, EventRow};
use miku_ui::resource_panel::state::filter_rows;
use miku_ui::resource_panel::{
    ClusterId, LoadStatus, ResourceEvent, ResourceList, ResourceLoadKind, ResourceSummary, ResourceUiEvent,
    ResourceWatchRequest,
};

const NOW: i64 = 1_800_000_000;

fn from_serde(value: &serde_json::Value) -> JsonValue {
    match value {
        serde_json::Value::Null => JsonValue::Null,
        serde_json::Value::Bool(b) => JsonValue::Bool(*b),
        serde_json::Value::Number(n) => match (n.as_u64(), n.as_i64()) {
            (Some(u), _) => JsonValue::Number(JsonNumber::PosInt(u)),
            (None, Some(i)) => JsonValue::Number(JsonNumber::NegInt(i)),
            _ => JsonValue::Number(JsonNumber::Float(n.to_string())),
        },
        serde_json::Value::String(s) => JsonValue::String(s.clone()),
        serde_json::Value::Array(items) => JsonValue::Array(items.iter().map(from_serde).collect()),
        serde_json::Value::Object(map) => {
            JsonValue::Object(map.iter().map(|(k, v)| (k.clone(), from_serde(v))).collect())
        }
    }
}

fn to_serde(value: &JsonValue) -> serde_json::Value {
    match value {
        JsonValue::Null => serde_json::Value::Null,
        JsonValue::Bool(b) => serde_json::Value::Bool(*b),
        JsonValue::Number(JsonNumber::PosInt(u)) => serde_json::Value::from(*u),
        JsonValue::Number(JsonNumber::NegInt(i)) => serde_json::Value::from(*i),
        JsonValue::Number(JsonNumber::Float(t)) => serde_json::from_str(t).unwrap(),
        JsonValue::String(s) => serde_json::Value::String(s.clone()),
        JsonValue::Array(items) => serde_json::Value::Array(items.iter().map(to_serde).collect()),
        JsonValue::Object(entries) => serde_json::Value::Object(
            entries.iter().map(|(k, v)| (k.clone(), to_serde(v))).collect(),
        ),
    }
}

fn json(text: &str) -> JsonValue {
    from_serde(&serde_json::from_str::<serde_json::Value>(text).unwrap())
}

fn event_summary(name: &str, namespace: &str, event_type: &str, reason: &str, last_timestamp: &str) -> ResourceSummary {
    let message = if reason == "BackOff" {
        "Back-off restarting failed container"
    } else {
        "Successfully pulled container image"
    };
    let involved_name = name.split('.').next().unwrap_or("api");
    let raw = format!(
        r#"{{
            "metadata": {{
                "name": "{name}",
                "namespace": "{namespace}",
                "creationTimestamp": "2026-05-18T09:58:00Z",
                "labels": {{"app": "api"}},
                "annotations": {{"note": "example"}}
            }},
            "type": "{event_type}",
            "reason": "{reason}",
            "message": "{message}",
            "count": 7,
            "firstTimestamp": "2026-05-18T10:00:00Z",
            "lastTimestamp": "{last_timestamp}",
            "source": {{"component": "kubelet"}},
            "involvedObject": {{
                "kind": "Pod",
                "name": "{involved_name}",
                "namespace": "{namespace}",
                "uid": "pod-uid",
                "fieldPath": "spec.containers{{api}}"
            }},
            "reportingController": "kubelet",
            "reportingInstance": "kind-worker"
        }}"#
    );
    ResourceSummary {
        name: name.to_owned(),
        namespace: Some(namespace.to_owned()),
        kind: "Event".to_owned(),
        status: None,
        raw: json(&raw),
    }
}

fn namespace_summary(name: &str) -> ResourceSummary {
    ResourceSummary {
        name: name.to_owned(),
        namespace: None,
        kind: "Namespace".to_owned(),
        status: Some("Active".to_owned()),
        raw: json(&format!(r#"{{"metadata": {{"name": "{name}"}}}}"#)),
    }
}

fn back_off_row() -> EventRow {
    EventRow::from_summary(event_summary("api.17", "default", "Warning", "BackOff", "2026-05-18T10:04:00Z"), NOW)
}

#[test]
fn event_request_query_uses_selected_namespace() {
    let mut panel = EventResourcePanel::new();
    panel.state.namespace_filter = Some("production".to_owned());

    let request = panel.request_events(ClusterId::new("local"));

    assert_eq!(request.kind, ResourceLoadKind::Events { namespace: Some("production".to_owned()) });
}

#[test]
fn event_row_extracts_table_fields_from_raw_summary() {
    let row = back_off_row();

    assert_eq!(row.name, "api.17");
    assert_eq!(row.namespace, "default");
    assert_eq!(row.event_type, "Warning");
    assert_eq!(row.reason, "BackOff");
    assert_eq!(row.involved_object, "Pod/api");
    assert_eq!(row.message, "Back-off restarting failed container");
    assert_eq!(row.count, "7");
    assert_eq!(row.source, "kubelet");
    assert!(row.first_seen.ends_with(" ago"));
    assert!(row.last_seen.ends_with(" ago"));
    assert!(row.age.ends_with(" ago"));
}

#[test]
fn event_row_handles_missing_optional_fields() {
    let row = EventRow::from_summary(
        ResourceSummary {
            name: "minimal".to_owned(),
            namespace: None,
            kind: "Event".to_owned(),
            status: None,
            raw: json(r#"{"metadata": {"name": "minimal"}}"#),
        },
        NOW,
    );

    assert_eq!(row.namespace, "N/A");
    assert_eq!(row.event_type, "N/A");
    assert_eq!(row.reason, "N/A");
    assert_eq!(row.involved_object, "N/A/N/A");
    assert_eq!(row.message, "N/A");
    assert_eq!(row.count, "N/A");
    assert_eq!(row.source, "N/A");
    assert_eq!(row.last_seen, "N/A");
}

#[test]
fn event_rows_filter_by_multiple_fields_case_insensitively() {
    let rows = vec![
        back_off_row(),
        EventRow::from_summary(event_summary("worker.11", "production", "Normal", "Pulled", "2026-05-18T10:05:00Z"), NOW),
    ];

    assert_eq!(filter_rows(&rows, "back-off").len(), 1);
    assert_eq!(filter_rows(&rows, "PRODUCTION").len(), 1);
    assert_eq!(filter_rows(&rows, "pod/API").len(), 1);
}

#[test]
fn event_rows_are_sorted_by_last_seen_descending() {
    let rows = event_rows_from_list(
        vec![
            event_summary("older", "default", "Normal", "Pulled", "2026-05-18T10:00:00Z"),
            event_summary("newer", "default", "Warning", "BackOff", "2026-05-18T10:05:00Z"),
        ],
        NOW,
    );

    let names = rows.into_iter().map(|row| row.name).collect::<Vec<_>>();
    assert_eq!(names, vec!["newer", "older"]);
}

#[test]
fn event_describe_extracts_metadata() {
    let row = back_off_row();
    let describe = event_describe_from_row(&row, String::new());

    assert!(describe.labels.iter().any(|entry| entry.key == "app"));
    assert!(describe.annotations.iter().any(|entry| entry.key == "note"));
    assert!(describe
        .involved
        .iter()
        .any(|field| field.label == "Field path" && field.value == "spec.containers{api}"));
}

#[test]
fn event_stale_resource_events_do_not_replace_current_rows() {
    let mut panel = EventResourcePanel::new();
    let first = panel.request_events(ClusterId::new("local"));
    let second = panel.request_events(ClusterId::new("local"));

    panel.apply_event(
        ResourceUiEvent::ResourcesLoaded {
            request: first,
            result: Ok(ResourceList {
                items: vec![event_summary("stale", "default", "Normal", "Pulled", "2026-05-18T10:00:00Z")],
                continue_token: None,
            }),
        },
        NOW,
    );
    assert!(panel.state.rows.is_empty());

    panel.apply_event(
        ResourceUiEvent::ResourcesLoaded {
            request: second,
            result: Ok(ResourceList {
                items: vec![event_summary("api.17", "default", "Warning", "BackOff", "2026-05-18T10:04:00Z")],
                continue_token: None,
            }),
        },
        NOW,
    );

    assert_eq!(panel.state.rows.len(), 1);
    assert_eq!(panel.state.rows[0].name, "api.17");
}

#[test]
fn event_stale_watch_events_do_not_replace_current_rows() {
    let mut panel = EventResourcePanel::new();
    let first = panel.request_event_watch(ClusterId::new("local"));
    let second = panel.request_event_watch(ClusterId::new("local"));

    panel.apply_event(
        ResourceUiEvent::ResourceWatchUpdated {
            request: first,
            result: Ok(ResourceEvent::Snapshot(ResourceList {
                items: vec![event_summary("stale", "default", "Normal", "Pulled", "2026-05-18T10:00:00Z")],
                continue_token: None,
            })),
        },
        NOW,
    );
    assert!(panel.state.rows.is_empty());

    panel.apply_event(
        ResourceUiEvent::ResourceWatchUpdated {
            request: second,
            result: Ok(ResourceEvent::Snapshot(ResourceList {
                items: vec![event_summary("api.17", "default", "Warning", "BackOff", "2026-05-18T10:04:00Z")],
                continue_token: None,
            })),
        },
        NOW,
    );

    assert_eq!(panel.state.rows.len(), 1);
    assert_eq!(panel.state.rows[0].name, "api.17");
}

#[test]
fn event_namespace_watch_events_from_shared_request_update_selector() {
    let mut panel = EventResourcePanel::new();
    let request = ResourceWatchRequest {
        request_id: 42,
        cluster_id: ClusterId::new("local"),
        kind: ResourceLoadKind::Namespaces,
    };

    panel.apply_event(
        ResourceUiEvent::ResourceWatchUpdated {
            request,
            result: Ok(ResourceEvent::Snapshot(ResourceList {
                items: vec![namespace_summary("production")],
                continue_token: None,
            })),
        },
        NOW,
    );

    assert_eq!(panel.state.namespaces, vec!["production".to_owned()]);
    assert_eq!(panel.state.namespace_status, LoadStatus::Loaded);
}

#[test]
fn event_timestamps_show_their_age_or_their_text() {
    let start: i64 = 1_779_098_400;
    assert_eq!(format_timestamp("2026-05-18T10:00:00Z", start + 600), "10 minutes ago");
    assert_eq!(format_timestamp("2026-05-18T10:00:00Z", start + 1), "1 second ago");
    assert_eq!(format_timestamp("not a time", start), "not a time");
    assert_eq!(seen(None, start), "N/A");
    assert_eq!(seen(Some("2026-05-18T10:00:00Z"), start + 2 * 86_400), "2 days ago");
    assert_eq!(event_key("default", "api.17"), "default/api.17");
}

#[test]
fn event_describe_action_opens_describe_dialog() {
    let mut panel = EventResourcePanel::new();
    let row = back_off_row();
    let key = row.key.clone();
    panel.state.rows = vec![row];

    panel.open_describe_dialog(&key, String::new());

    let dialog = panel.describe_dialog.as_ref().unwrap();
    assert_eq!(dialog.name, "api.17");
    assert_eq!(dialog.describe.message, "Back-off restarting failed container");
}
