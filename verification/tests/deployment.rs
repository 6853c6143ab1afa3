use miku_ui::json::{JsonNumber, JsonValue};
use miku_ui::resource_panel::deployment::{deployment_key, deployment_rows_from_list, DeploymentResourcePanel, DeploymentRow};
use miku_ui::resource_panel::describe::deployment_describe_from_row;
use miku_ui::resource_panel::state::filter_rows;
use miku_ui::resource_panel::{
    ClusterId, LoadStatus, ResourceEvent, ResourceList, ResourceLoadKind, ResourceSummary, ResourceUiEvent,
    ResourceWatchRequest,
};

const NOW: i64 = 1_800_000_000;

fn from_serde(value: &serde_json::Value) -> JsonValue {
    match value {
        serde_json::Value::Null => JsonValue::Null,
        serde_json::Value::Bool(b) => JsonValue::Bool(*b),
        serde_json::Value::Number(n) => match (n.as_u64(), n.as_i64()) {
            (Some(u), _) => JsonValue::Number(JsonNumber::PosInt(u)),
            (None, Some(i)) => JsonValue::Number(JsonNumber::NegInt(i)),
            _ => JsonValue::Number(JsonNumber::Float(n.to_string())),
        },
        serde_json::Value::String(s) => JsonValue::String(s.clone()),
        serde_json::Value::Array(items) => JsonValue::Array(items.iter().map(from_serde).collect()),
        serde_json::Value::Object(map) => {
            JsonValue::Object(map.iter().map(|(k, v)| (k.clone(), from_serde(v))).collect())
        }
    }
}

fn to_serde(value: &JsonValue) -> serde_json::Value {
    match value {
        JsonValue::Null => serde_json::Value::Null,
        JsonValue::Bool(b) => serde_json::Value::Bool(*b),
        JsonValue::Number(JsonNumber::PosInt(u)) => serde_json::Value::from(*u),
        JsonValue::Number(JsonNumber::NegInt(i)) => serde_json::Value::from(*i),
        JsonValue::Number(JsonNumber::Float(t)) => serde_json::from_str(t).unwrap(),
        JsonValue::String(s) => serde_json::Value::String(s.clone()),
        JsonValue::Array(items) => serde_json::Value::Array(items.iter().map(to_serde).collect()),
        JsonValue::Object(entries) => serde_json::Value::Object(
            entries.iter().map(|(k, v)| (k.clone(), to_serde(v))).collect(),
        ),
    }
}

fn json(text: &str) -> JsonValue {
    from_serde(&serde_json::from_str::<serde_json::Value>(text).unwrap())
}

fn deployment_summary() -> ResourceSummary {
    deployment_summary_with_name("default", "api")
}

fn deployment_summary_with_name(namespace: &str, name: &str) -> ResourceSummary {
    let raw = format!(
        r#"{{
            "metadata": {{
                "name": "{name}",
                "namespace": "{namespace}",
                "creationTimestamp": "2026-05-18T10:00:00Z",
                "labels": {{"app": "{name}"}},
                "annotations": {{"deployment.kubernetes.io/revision": "3"}}
            }},
            "spec": {{
                "replicas": 3,
                "minReadySeconds": 5,
                "revisionHistoryLimit": 10,
                "strategy": {{
                    "type": "RollingUpdate",
                    "rollingUpdate": {{"maxSurge": "25%", "maxUnavailable": "25%"}}
                }},
                "selector": {{"matchLabels": {{"app": "{name}", "tier": "backend"}}}},
                "template": {{
                    "metadata": {{"labels": {{"app": "{name}", "tier": "backend"}}}},
                    "spec": {{
                        "containers": [
                            {{"name": "{name}", "image": "ghcr.io/example/api:1.0.0"}},
                            {{"name": "sidecar", "image": "envoyproxy/envoy:v1"}}
                        ]
                    }}
                }}
            }},
            "status": {{
                "replicas": 3,
                "readyReplicas": 2,
                "updatedReplicas": 3,
                "availableReplicas": 2,
                "conditions": [
                    {{
                        "type": "Available",
                        "status": "True",
                        "reason": "MinimumReplicasAvailable",
                        "message": "Deployment has minimum availability."
                    }},
                    {{
                        "type": "Progressing",
                        "status": "True",
                        "reason": "NewReplicaSetAvailable",
                        "message": "ReplicaSet has successfully progressed."
                    }}
                ]
            }}
        }}"#
    );
    ResourceSummary {
        name: name.to_owned(),
        namespace: Some(namespace.to_owned()),
        kind: "Deployment".to_owned(),
        status: None,
        raw: json(&raw),
    }
}

fn namespace_summary(name: &str) -> ResourceSummary {
    ResourceSummary {
        name: name.to_owned(),
        namespace: None,
        kind: "Namespace".to_owned(),
        status: Some("Active".to_owned()),
        raw: json(&format!(r#"{{"metadata": {{"name": "{name}"}}}}"#)),
    }
}

#[test]
fn deployment_request_query_uses_selected_namespace() {
    let mut panel = DeploymentResourcePanel::new();
    panel.state.namespace_filter = Some("production".to_owned());

    let request = panel.request_deployments(ClusterId::new("local"));

    assert_eq!(request.kind, ResourceLoadKind::Deployments { namespace: Some("production".to_owned()) });
    assert_eq!(request.cluster_id, ClusterId::new("local"));
}

#[test]
fn deployment_row_extracts_table_fields_from_raw_summary() {
    let row = DeploymentRow::from_summary(deployment_summary(), NOW);

    assert_eq!(row.name, "api");
    assert_eq!(row.namespace, "default");
    assert_eq!(row.ready, "2/3");
    assert_eq!(row.up_to_date, "3/3");
    assert_eq!(row.available, "2/3");
    assert_eq!(row.replicas, "3/3");
    assert_eq!(row.strategy, "RollingUpdate");
    assert_eq!(row.selector, "app=api, tier=backend");
    assert_eq!(row.images, "ghcr.io/example/api:1.0.0, envoyproxy/envoy:v1");
    assert_eq!(row.conditions, "Available=True, Progressing=True");
    assert!(row.age.ends_with(" ago"));
}

#[test]
fn deployment_row_handles_missing_optional_fields() {
    let row = DeploymentRow::from_summary(
        ResourceSummary {
            name: "minimal".to_owned(),
            namespace: Some("default".to_owned()),
            kind: "Deployment".to_owned(),
            status: None,
            raw: json(r#"{"metadata": {"name": "minimal", "namespace": "default"}}"#),
        },
        NOW,
    );

    assert_eq!(row.ready, "0/N/A");
    assert_eq!(row.replicas, "0/N/A");
    assert_eq!(row.strategy, "N/A");
    assert_eq!(row.selector, "N/A");
    assert_eq!(row.images, "N/A");
    assert_eq!(row.conditions, "N/A");
}

#[test]
fn deployment_rows_filter_by_multiple_fields_case_insensitively() {
    let rows = vec![
        DeploymentRow::from_summary(deployment_summary(), NOW),
        DeploymentRow::from_summary(
            ResourceSummary {
                name: "worker".to_owned(),
                namespace: Some("production".to_owned()),
                kind: "Deployment".to_owned(),
                status: None,
                raw: json(
                    r#"{
                        "metadata": {"name": "worker", "namespace": "production"},
                        "spec": {
                            "selector": {"matchLabels": {"app": "worker"}},
                            "template": {"spec": {"containers": [{"name": "worker", "image": "worker:1"}]}}
                        }
                    }"#,
                ),
            },
            NOW,
        ),
    ];

    assert_eq!(filter_rows(&rows, "BACKEND").len(), 1);
    assert_eq!(filter_rows(&rows, "PRODUCTION").len(), 1);
    assert_eq!(filter_rows(&rows, "envoy").len(), 1);
    assert_eq!(filter_rows(&rows, "Progressing").len(), 1);
}

#[test]
fn deployment_rows_are_sorted_by_namespace_and_name() {
    let rows = deployment_rows_from_list(
        vec![
            deployment_summary_with_name("zeta", "worker"),
            deployment_summary_with_name("default", "api"),
            deployment_summary_with_name("default", "scheduler"),
        ],
        NOW,
    );

    let keys = rows.into_iter().map(|row| row.key).collect::<Vec<_>>();
    assert_eq!(keys, vec!["default/api", "default/scheduler", "zeta/worker"]);
}

#[test]
fn deployment_describe_extracts_details() {
    let row = DeploymentRow::from_summary(deployment_summary(), NOW);
    let describe = deployment_describe_from_row(&row, String::new());

    assert_eq!(describe.selector.len(), 2);
    assert_eq!(describe.template_labels.len(), 2);
    assert_eq!(describe.containers.len(), 2);
    assert_eq!(describe.containers[0].name, "api");
    assert_eq!(describe.containers[0].image, "ghcr.io/example/api:1.0.0");
    assert_eq!(describe.conditions.len(), 2);
    assert!(describe.labels.iter().any(|entry| entry.key == "app"));
    assert!(describe.annotations.iter().any(|entry| entry.key == "deployment.kubernetes.io/revision"));
}

#[test]
fn deployment_stale_resource_events_do_not_replace_current_rows() {
    let mut panel = DeploymentResourcePanel::new();
    let first = panel.request_deployments(ClusterId::new("local"));
    let second = panel.request_deployments(ClusterId::new("local"));

    panel.apply_event(
        ResourceUiEvent::ResourcesLoaded {
            request: first,
            result: Ok(ResourceList { items: vec![deployment_summary_with_name("default", "stale")], continue_token: None }),
        },
        NOW,
    );
    assert!(panel.state.rows.is_empty());

    panel.apply_event(
        ResourceUiEvent::ResourcesLoaded {
            request: second,
            result: Ok(ResourceList { items: vec![deployment_summary()], continue_token: None }),
        },
        NOW,
    );

    assert_eq!(panel.state.rows.len(), 1);
    assert_eq!(panel.state.rows[0].name, "api");
}

#[test]
fn deployment_stale_watch_events_do_not_replace_current_rows() {
    let mut panel = DeploymentResourcePanel::new();
    let first = panel.request_deployment_watch(ClusterId::new("local"));
    let second = panel.request_deployment_watch(ClusterId::new("local"));

    panel.apply_event(
        ResourceUiEvent::ResourceWatchUpdated {
            request: first,
            result: Ok(ResourceEvent::Snapshot(ResourceList {
                items: vec![deployment_summary_with_name("default", "stale")],
                continue_token: None,
            })),
        },
        NOW,
    );
    assert!(panel.state.rows.is_empty());

    panel.apply_event(
        ResourceUiEvent::ResourceWatchUpdated {
            request: second,
            result: Ok(ResourceEvent::Snapshot(ResourceList { items: vec![deployment_summary()], continue_token: None })),
        },
        NOW,
    );

    assert_eq!(panel.state.rows.len(), 1);
    assert_eq!(panel.state.rows[0].name, "api");
}

#[test]
fn deployment_namespace_watch_events_from_shared_request_update_selector() {
    let mut panel = DeploymentResourcePanel::new();
    let request = ResourceWatchRequest {
        request_id: 42,
        cluster_id: ClusterId::new("local"),
        kind: ResourceLoadKind::Namespaces,
    };

    panel.apply_event(
        ResourceUiEvent::ResourceWatchUpdated {
            request,
            result: Ok(ResourceEvent::Snapshot(ResourceList {
                items: vec![namespace_summary("production")],
                continue_token: None,
            })),
        },
        NOW,
    );

    assert_eq!(panel.state.namespaces, vec!["production".to_owned()]);
    assert_eq!(panel.state.namespace_status, LoadStatus::Loaded);
}

#[test]
fn deployment_watch_change_events_keep_rows() {
    let mut panel = DeploymentResourcePanel::new();
    let request = panel.request_deployment_watch(ClusterId::new("local"));
    let again = ResourceWatchRequest {
        request_id: request.request_id,
        cluster_id: ClusterId::new("local"),
        kind: ResourceLoadKind::Deployments { namespace: None },
    };
    panel.apply_event(
        ResourceUiEvent::ResourceWatchUpdated {
            request,
            result: Ok(ResourceEvent::Snapshot(ResourceList { items: vec![deployment_summary()], continue_token: None })),
        },
        NOW,
    );
    panel.apply_event(
        ResourceUiEvent::ResourceWatchUpdated {
            request: again,
            result: Ok(ResourceEvent::Added(deployment_summary_with_name("default", "other"))),
        },
        NOW,
    );

    assert_eq!(panel.state.rows.len(), 1);
    assert_eq!(deployment_key("default", "api"), panel.state.rows[0].key);
}

#[test]
fn deployment_load_error_keeps_rows_and_reports_failure() {
    let mut panel = DeploymentResourcePanel::new();
    let first = panel.request_deployments(ClusterId::new("local"));
    panel.apply_event(
        ResourceUiEvent::ResourcesLoaded {
            request: first,
            result: Ok(ResourceList { items: vec![deployment_summary()], continue_token: None }),
        },
        NOW,
    );
    let second = panel.request_deployments(ClusterId::new("local"));
    panel.apply_event(ResourceUiEvent::ResourcesLoaded { request: second, result: Err("forbidden".to_owned()) }, NOW);

    assert_eq!(panel.state.rows.len(), 1);
    assert_eq!(panel.state.row_status, LoadStatus::Error("forbidden".to_owned()));
}

#[test]
fn deployment_describe_action_opens_describe_dialog() {
    let mut panel = DeploymentResourcePanel::new();
    let row = DeploymentRow::from_summary(deployment_summary(), NOW);
    let key = row.key.clone();
    panel.state.rows = vec![row];

    panel.open_describe_dialog(&key, String::new());

    let dialog = panel.describe_dialog.as_ref().unwrap();
    assert_eq!(dialog.name, "api");
    assert_eq!(dialog.describe.containers.len(), 2);
}

#[test]
fn deployment_search_counts_matching_rows() {
    let mut panel = DeploymentResourcePanel::new();
    panel.state.rows = deployment_rows_from_list(
        vec![deployment_summary_with_name("default", "api"), deployment_summary_with_name("zeta", "worker")],
        NOW,
    );
    assert_eq!(panel.state.filtered_row_count(), 2);
    panel.state.search_text = "ZETA".to_owned();
    assert_eq!(panel.state.filtered_row_count(), 1);
    assert_eq!(panel.state.filtered_row_indices(), vec![1]);
}
