use miku_ui::json::{JsonNumber, JsonValue};
use miku_ui::resource_panel::list_panel::{list_row_from_summary, ClusterRoleBindingResourcePanel, EndpointsResourcePanel, ListKind};
use miku_ui::resource_panel::{
    ClusterId, ResourceEvent, ResourceList, ResourceLoadKind, ResourceLoadRequest, ResourceSummary, ResourceUiEvent,
};

const NOW: i64 = 1_800_000_000;

fn from_serde(value: &serde_json::Value) -> JsonValue {
    match value {
        serde_json::Value::Null => JsonValue::Null,
        serde_json::Value::Bool(b) => JsonValue::Bool(*b),
        serde_json::Value::Number(n) => match (n.as_u64(), n.as_i64()) {
            (Some(u), _) => JsonValue::Number(JsonNumber::PosInt(u)),
            (None, Some(i)) => JsonValue::Number(JsonNumber::NegInt(i)),
            _ => JsonValue::Number(JsonNumber::Float(n.to_string())),
        },
        serde_json::Value::String(s) => JsonValue::String(s.clone()),
        serde_json::Value::Array(items) => JsonValue::Array(items.iter().map(from_serde).collect()),
        serde_json::Value::Object(map) => {
            JsonValue::Object(map.iter().map(|(k, v)| (k.clone(), from_serde(v))).collect())
        }
    }
}

fn to_serde(value: &JsonValue) -> serde_json::Value {
    match value {
        JsonValue::Null => serde_json::Value::Null,
        JsonValue::Bool(b) => serde_json::Value::Bool(*b),
        JsonValue::Number(JsonNumber::PosInt(u)) => serde_json::Value::from(*u),
        JsonValue::Number(JsonNumber::NegInt(i)) => serde_json::Value::from(*i),
        JsonValue::Number(JsonNumber::Float(t)) => serde_json::from_str(t).unwrap(),
        JsonValue::String(s) => serde_json::Value::String(s.clone()),
        JsonValue::Array(items) => serde_json::Value::Array(items.iter().map(to_serde).collect()),
        JsonValue::Object(entries) => serde_json::Value::Object(
            entries.iter().map(|(k, v)| (k.clone(), to_serde(v))).collect(),
        ),
    }
}

fn json(text: &str) -> JsonValue {
    from_serde(&serde_json::from_str::<serde_json::Value>(text).unwrap())
}

fn summary(name: &str, namespace: Option<&str>) -> ResourceSummary {
    let raw = match namespace {
        Some(ns) => format!(r#"{{"metadata": {{"name": "{name}", "namespace": "{ns}", "creationTimestamp": "2026-05-18T10:00:00Z"}}}}"#),
        None => format!(r#"{{"metadata": {{"name": "{name}"}}}}"#),
    };
    ResourceSummary {
        name: name.to_owned(),
        namespace: namespace.map(str::to_owned),
        kind: "Endpoints".to_owned(),
        status: None,
        raw: json(&raw),
    }
}

#[test]
fn endpoints_rows_are_keyed_by_namespace_and_sorted() {
    let mut panel = EndpointsResourcePanel::new();
    let request = panel.inner.request_resources(ClusterId::new("local"));
    assert_eq!(request.kind, ResourceLoadKind::Endpoints { namespace: None });

    panel.apply_event(
        ResourceUiEvent::ResourcesLoaded {
            request,
            result: Ok(ResourceList {
                items: vec![summary("web", Some("prod")), summary("api", Some("default")), summary("db", Some("default"))],
                continue_token: None,
            }),
        },
        NOW,
    );

    let keys = panel.inner.state.rows.iter().map(|row| row.key.as_str()).collect::<Vec<_>>();
    assert_eq!(keys, vec!["default/api", "default/db", "prod/web"]);
    assert!(panel.inner.state.rows[0].age.ends_with(" ago"));
}

#[test]
fn cluster_role_binding_rows_are_keyed_by_name() {
    let mut panel = ClusterRoleBindingResourcePanel::new();
    let request = panel.inner.request_resource_watch(ClusterId::new("local"));
    assert_eq!(request.kind, ResourceLoadKind::ClusterRoleBindings);

    panel.apply_event(
        ResourceUiEvent::ResourceWatchUpdated {
            request,
            result: Ok(ResourceEvent::Snapshot(ResourceList {
                items: vec![summary("view", None), summary("admin", None)],
                continue_token: None,
            })),
        },
        NOW,
    );

    let keys = panel.inner.state.rows.iter().map(|row| row.key.as_str()).collect::<Vec<_>>();
    assert_eq!(keys, vec!["admin", "view"]);
    assert_eq!(panel.inner.state.rows[0].age, "N/A");
}

#[test]
fn answers_for_other_kinds_leave_list_panels_alone() {
    let mut panel = EndpointsResourcePanel::new();
    panel.apply_event(
        ResourceUiEvent::ResourcesLoaded {
            request: ResourceLoadRequest {
                request_id: 1,
                cluster_id: ClusterId::new("local"),
                kind: ResourceLoadKind::Jobs { namespace: None },
            },
            result: Ok(ResourceList { items: vec![summary("api", Some("default"))], continue_token: None }),
        },
        NOW,
    );
    assert!(panel.inner.state.rows.is_empty());
    let row = list_row_from_summary(ListKind::Endpoints, summary("api", Some("default")), NOW);
    assert_eq!(row.key, "default/api");
    assert!(row.namespaced);
}
