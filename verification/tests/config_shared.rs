use miku_ui::json::{JsonNumber, JsonValue};
use miku_ui::resource_panel::components::{
    GenericBatchDeleteDialog, GenericDeleteDialog, GenericEditDialog,
};
use miku_ui::resource_panel::config_shared::{config_key, row_from_summary, ConfigResourceKind, ConfigResourcePanel, ConfigRow};
use miku_ui::resource_panel::state::{filter_rows, PanelRow};
use miku_ui::resource_panel::{
    ClusterId, ResourceActionKind, ResourceActionOutcome, ResourceActionRequest, ResourceEvent, ResourceList,
    ResourceLoadKind, ResourceSummary, ResourceUiEvent, ResourceWatchRequest,
};

const NOW: i64 = 1_800_000_000;

fn from_serde(value: &serde_json::Value) -> JsonValue {
    match value {
        serde_json::Value::Null => JsonValue::Null,
        serde_json::Value::Bool(b) => JsonValue::Bool(*b),
        serde_json::Value::Number(n) => match (n.as_u64(), n.as_i64()) {
            (Some(u), _) => JsonValue::Number(JsonNumber::PosInt(u)),
            (None, Some(i)) => JsonValue::Number(JsonNumber::NegInt(i)),
            _ => JsonValue::Number(JsonNumber::Float(n.to_string())),
        },
        serde_json::Value::String(s) => JsonValue::String(s.clone()),
        serde_json::Value::Array(items) => JsonValue::Array(items.iter().map(from_serde).collect()),
        serde_json::Value::Object(map) => {
            JsonValue::Object(map.iter().map(|(k, v)| (k.clone(), from_serde(v))).collect())
        }
    }
}

fn to_serde(value: &JsonValue) -> serde_json::Value {
    match value {
        JsonValue::Null => serde_json::Value::Null,
        JsonValue::Bool(b) => serde_json::Value::Bool(*b),
        JsonValue::Number(JsonNumber::PosInt(u)) => serde_json::Value::from(*u),
        JsonValue::Number(JsonNumber::NegInt(i)) => serde_json::Value::from(*i),
        JsonValue::Number(JsonNumber::Float(t)) => serde_json::from_str(t).unwrap(),
        JsonValue::String(s) => serde_json::Value::String(s.clone()),
        JsonValue::Array(items) => serde_json::Value::Array(items.iter().map(to_serde).collect()),
        JsonValue::Object(entries) => serde_json::Value::Object(
            entries.iter().map(|(k, v)| (k.clone(), to_serde(v))).collect(),
        ),
    }
}

fn json(text: &str) -> JsonValue {
    from_serde(&serde_json::from_str::<serde_json::Value>(text).unwrap())
}

fn summary(name: &str, namespace: Option<&str>, kind: &str, raw: &str) -> ResourceSummary {
    ResourceSummary {
        name: name.to_owned(),
        namespace: namespace.map(str::to_owned),
        kind: kind.to_owned(),
        status: None,
        raw: json(raw),
    }
}

fn hpa_summary() -> ResourceSummary {
    summary(
        "api",
        Some("default"),
        "HorizontalPodAutoscaler",
        r#"{
            "metadata": {"name": "api", "namespace": "default", "creationTimestamp": "2026-05-18T10:00:00Z"},
            "spec": {"scaleTargetRef": {"kind": "Deployment", "name": "api"}, "minReplicas": 2, "maxReplicas": 10},
            "status": {
                "currentReplicas": 3,
                "desiredReplicas": 5,
                "currentMetrics": [{"type": "Resource", "resource": {"current": {"averageUtilization": 70}}}]
            }
        }"#,
    )
}

fn pdb_summary() -> ResourceSummary {
    summary(
        "api",
        Some("default"),
        "PodDisruptionBudget",
        r#"{
            "metadata": {"name": "api", "namespace": "default", "creationTimestamp": "2026-05-18T10:00:00Z"},
            "spec": {"minAvailable": "50%", "maxUnavailable": 1},
            "status": {"disruptionsAllowed": 2, "currentHealthy": 4, "desiredHealthy": 3}
        }"#,
    )
}

fn priority_summary() -> ResourceSummary {
    summary(
        "high",
        None,
        "PriorityClass",
        r#"{
            "metadata": {"name": "high", "creationTimestamp": "2026-05-18T10:00:00Z"},
            "value": 100000,
            "globalDefault": false,
            "preemptionPolicy": "PreemptLowerPriority",
            "description": "high priority"
        }"#,
    )
}

fn runtime_summary() -> ResourceSummary {
    summary(
        "runc",
        None,
        "RuntimeClass",
        r#"{
            "metadata": {"name": "runc", "creationTimestamp": "2026-05-18T10:00:00Z"},
            "handler": "runc",
            "overhead": {"podFixed": {"cpu": "100m"}},
            "scheduling": {"nodeSelector": {"disk": "ssd"}, "tolerations": [{"key": "runtime"}]}
        }"#,
    )
}

fn lease_summary() -> ResourceSummary {
    lease_summary_with_name("kube-system", "kube-scheduler")
}

fn lease_raw(namespace: &str, name: &str) -> String {
    format!(
        r#"{{
            "metadata": {{"name": "{name}", "namespace": "{namespace}", "creationTimestamp": "2026-05-18T10:00:00Z"}},
            "spec": {{
                "holderIdentity": "controller",
                "acquireTime": "2026-05-18T10:01:00Z",
                "renewTime": "2026-05-18T10:02:00Z",
                "leaseDurationSeconds": 15,
                "leaseTransitions": 4
            }}
        }}"#
    )
}

fn lease_summary_with_name(namespace: &str, name: &str) -> ResourceSummary {
    summary(name, Some(namespace), "Lease", &lease_raw(namespace, name))
}

fn webhook_summary(kind: &str) -> ResourceSummary {
    summary(
        "policy",
        None,
        kind,
        r#"{
            "metadata": {"name": "policy", "creationTimestamp": "2026-05-18T10:00:00Z"},
            "webhooks": [{"name": "policy.example.com", "failurePolicy": "Fail", "sideEffects": "None", "admissionReviewVersions": ["v1"]}]
        }"#,
    )
}

fn minimal_summary(kind: &str) -> ResourceSummary {
    summary("minimal", Some("default"), kind, r#"{"metadata": {"name": "minimal", "namespace": "default"}}"#)
}

fn namespace_summary(name: &str) -> ResourceSummary {
    ResourceSummary {
        name: name.to_owned(),
        namespace: None,
        kind: "Namespace".to_owned(),
        status: Some("Active".to_owned()),
        raw: json(&format!(r#"{{"metadata": {{"name": "{name}"}}}}"#)),
    }
}

fn with_server_fields(summary: ResourceSummary) -> ResourceSummary {
    let mut raw = to_serde(&summary.raw);
    if let Some(metadata) = raw.get_mut("metadata").and_then(serde_json::Value::as_object_mut) {
        metadata.insert(
            "managedFields".to_owned(),
            serde_json::from_str(r#"[{"manager": "kube-controller-manager"}]"#).unwrap(),
        );
        metadata.insert("resourceVersion".to_owned(), serde_json::Value::String("42".to_owned()));
        metadata.insert("uid".to_owned(), serde_json::Value::String("uid".to_owned()));
    }
    if let Some(object) = raw.as_object_mut() {
        object.insert("status".to_owned(), serde_json::from_str(r#"{"phase": "Active"}"#).unwrap());
    }
    ResourceSummary { raw: from_serde(&raw), ..summary }
}

fn lease_row() -> ConfigRow {
    row_from_summary(ConfigResourceKind::Lease, lease_summary(), NOW)
}

fn lease_apply_request(request_id: u64, namespace: &str, name: &str) -> ResourceActionRequest {
    ResourceActionRequest {
        request_id,
        cluster_id: ClusterId::new("local"),
        kind: ResourceActionKind::ApplyResource {
            resource: ConfigResourceKind::Lease.metadata().resource,
            namespace: Some(namespace.to_owned()),
            name: name.to_owned(),
            manifest: JsonValue::Object(Vec::new()),
        },
    }
}

fn lease_delete_request(request_id: u64) -> ResourceActionRequest {
    ResourceActionRequest {
        request_id,
        cluster_id: ClusterId::new("local"),
        kind: ResourceActionKind::DeleteResource {
            resource: ConfigResourceKind::Lease.metadata().resource,
            namespace: Some("kube-system".to_owned()),
            name: "kube-scheduler".to_owned(),
        },
    }
}

#[test]
fn namespaced_config_requests_use_selected_namespace() {
    for kind in [
        ConfigResourceKind::HorizontalPodAutoscaler,
        ConfigResourceKind::PodDisruptionBudget,
        ConfigResourceKind::Lease,
    ] {
        let mut panel = ConfigResourcePanel::new(kind);
        panel.state.namespace_filter = Some("production".to_owned());
        let request = panel.request_resources(ClusterId::new("local"));
        assert_eq!(request.kind, kind.load_kind(Some("production".to_owned())));
        assert!(kind.matches_load_kind(&request.kind));
        assert!(kind.metadata().resource.namespaced);
    }
    let mut panel = ConfigResourcePanel::new(ConfigResourceKind::Lease);
    panel.state.namespace_filter = Some("production".to_owned());
    let request = panel.request_resources(ClusterId::new("local"));
    assert_eq!(request.kind, ResourceLoadKind::Leases { namespace: Some("production".to_owned()) });
}

#[test]
fn cluster_config_requests_are_cluster_scoped() {
    for kind in [
        ConfigResourceKind::PriorityClass,
        ConfigResourceKind::RuntimeClass,
        ConfigResourceKind::MutatingWebhookConfiguration,
        ConfigResourceKind::ValidatingWebhookConfiguration,
    ] {
        let mut panel = ConfigResourcePanel::new(kind);
        let request = panel.request_resources(ClusterId::new("local"));
        assert_eq!(request.kind, kind.load_kind(None));
        assert!(!kind.is_namespaced());
        assert!(!kind.metadata().resource.namespaced);
    }
    let mut panel = ConfigResourcePanel::new(ConfigResourceKind::PriorityClass);
    panel.state.namespace_filter = Some("production".to_owned());
    assert_eq!(panel.request_resources(ClusterId::new("local")).kind, ResourceLoadKind::PriorityClasses);
}

#[test]
fn config_rows_extract_fields() {
    let hpa = row_from_summary(ConfigResourceKind::HorizontalPodAutoscaler, hpa_summary(), NOW);
    assert_eq!(hpa.cells[2], "Deployment/api");
    assert_eq!(hpa.cells[3], "Resource: 70");
    assert_eq!(hpa.cells[4], "2");
    assert_eq!(hpa.cells[5], "10");
    assert_eq!(hpa.cells[6], "3/5");

    let pdb = row_from_summary(ConfigResourceKind::PodDisruptionBudget, pdb_summary(), NOW);
    assert_eq!(pdb.cells[2], "50%");
    assert_eq!(pdb.cells[3], "1");
    assert_eq!(pdb.cells[4], "2");
    assert_eq!(pdb.cells[5], "4");
    assert_eq!(pdb.cells[6], "3");

    let priority = row_from_summary(ConfigResourceKind::PriorityClass, priority_summary(), NOW);
    assert_eq!(priority.cells[1], "100000");
    assert_eq!(priority.cells[2], "false");
    assert_eq!(priority.cells[3], "PreemptLowerPriority");

    let runtime = row_from_summary(ConfigResourceKind::RuntimeClass, runtime_summary(), NOW);
    assert_eq!(runtime.cells[1], "runc");
    assert_eq!(runtime.cells[2], "cpu=100m");
    assert_eq!(runtime.cells[3], "disk=ssd; tolerations=1");

    let lease = lease_row();
    assert_eq!(lease.cells[2], "controller");
    assert_eq!(lease.cells[5], "15s");
    assert_eq!(lease.cells[6], "4");

    let webhook = row_from_summary(
        ConfigResourceKind::MutatingWebhookConfiguration,
        webhook_summary("MutatingWebhookConfiguration"),
        NOW,
    );
    assert_eq!(webhook.cells[1], "1");
    assert_eq!(webhook.cells[2], "Fail");
    assert_eq!(webhook.cells[3], "None");
    assert_eq!(webhook.cells[4], "v1");
}

#[test]
fn config_rows_handle_missing_fields() {
    let hpa = row_from_summary(
        ConfigResourceKind::HorizontalPodAutoscaler,
        minimal_summary("HorizontalPodAutoscaler"),
        NOW,
    );
    assert_eq!(hpa.cells[2], "N/A");
    assert_eq!(hpa.cells[3], "N/A");
    assert_eq!(hpa.cells[4], "N/A");
    assert_eq!(hpa.cells[5], "N/A");
    assert_eq!(hpa.cells[6], "0/0");

    let pdb = row_from_summary(ConfigResourceKind::PodDisruptionBudget, minimal_summary("PodDisruptionBudget"), NOW);
    assert_eq!(pdb.cells[2], "N/A");
    assert_eq!(pdb.cells[4], "0");

    let webhook = row_from_summary(
        ConfigResourceKind::ValidatingWebhookConfiguration,
        minimal_summary("ValidatingWebhookConfiguration"),
        NOW,
    );
    assert_eq!(webhook.cells[1], "0");
    assert_eq!(webhook.cells[2], "N/A");
}

#[test]
fn config_rows_sort_and_filter_case_insensitively() {
    let rows = ConfigResourceKind::Lease.rows_from_list(
        vec![
            lease_summary_with_name("zeta", "worker"),
            lease_summary_with_name("default", "api-b"),
            lease_summary_with_name("default", "api-a"),
        ],
        NOW,
    );
    let keys = rows.iter().map(|row| row.key.as_str()).collect::<Vec<_>>();
    assert_eq!(keys, vec!["default/api-a", "default/api-b", "zeta/worker"]);
    assert_eq!(filter_rows(&rows, "CONTROLLER").len(), 3);
    assert_eq!(filter_rows(&rows, "ZETA").len(), 1);
}

#[test]
fn config_shared_stale_watch_events_do_not_replace_current_rows() {
    let mut panel = ConfigResourcePanel::new(ConfigResourceKind::Lease);
    let first = panel.request_resource_watch(ClusterId::new("local"));
    let second = panel.request_resource_watch(ClusterId::new("local"));
    panel.apply_event(
        ResourceUiEvent::ResourceWatchUpdated {
            request: first,
            result: Ok(ResourceEvent::Snapshot(ResourceList {
                items: vec![lease_summary_with_name("default", "stale")],
                continue_token: None,
            })),
        },
        NOW,
    );
    assert!(panel.state.rows.is_empty());
    panel.apply_event(
        ResourceUiEvent::ResourceWatchUpdated {
            request: second,
            result: Ok(ResourceEvent::Snapshot(ResourceList { items: vec![lease_summary()], continue_token: None })),
        },
        NOW,
    );
    assert_eq!(panel.state.rows[0].name, "kube-scheduler");
}

#[test]
fn namespace_watch_events_update_namespaced_selectors() {
    let mut panel = ConfigResourcePanel::new(ConfigResourceKind::HorizontalPodAutoscaler);
    panel.apply_event(
        ResourceUiEvent::ResourceWatchUpdated {
            request: ResourceWatchRequest {
                request_id: 42,
                cluster_id: ClusterId::new("local"),
                kind: ResourceLoadKind::Namespaces,
            },
            result: Ok(ResourceEvent::Snapshot(ResourceList {
                items: vec![namespace_summary("production")],
                continue_token: None,
            })),
        },
        NOW,
    );
    assert_eq!(panel.state.namespaces, vec!["production".to_owned()]);
}

#[test]
fn config_shared_edit_action_opens_edit_dialog_with_editable_yaml() {
    let mut panel = ConfigResourcePanel::new(ConfigResourceKind::Lease);
    let row = row_from_summary(ConfigResourceKind::Lease, with_server_fields(lease_summary()), NOW);
    let key = row.key.clone();
    panel.state.rows = vec![row];

    let yaml = miku_ui::yaml::editable_resource_yaml(with_server_fields(lease_summary()).raw);
    panel.state.open_edit_dialog(&key, yaml);

    let dialog = panel.state.edit_dialog.as_ref().unwrap();
    assert_eq!(dialog.target.namespace.as_deref(), Some("kube-system"));
    assert_eq!(dialog.target.name, "kube-scheduler");
    let manifest = serde_yaml::from_str::<serde_json::Value>(&dialog.yaml).unwrap();
    assert!(manifest.pointer("/metadata/creationTimestamp").is_none());
    assert!(manifest.pointer("/metadata/resourceVersion").is_none());
    assert!(manifest.pointer("/metadata/managedFields").is_none());
    assert!(manifest.pointer("/status").is_none());
    assert_eq!(manifest.pointer("/metadata/name").unwrap(), "kube-scheduler");
    assert_eq!(manifest.pointer("/spec/holderIdentity").unwrap(), "controller");
}

#[test]
fn delete_action_opens_delete_dialog_for_namespaced_and_cluster_resources() {
    let mut namespaced_panel = ConfigResourcePanel::new(ConfigResourceKind::Lease);
    let namespaced_row = lease_row();
    let namespaced_key = namespaced_row.key.clone();
    namespaced_panel.state.rows = vec![namespaced_row];

    namespaced_panel.state.open_delete_dialog(&namespaced_key);

    let dialog = namespaced_panel.state.delete_dialog.as_ref().unwrap();
    assert_eq!(dialog.target.namespace.as_deref(), Some("kube-system"));
    assert_eq!(dialog.target.name, "kube-scheduler");

    let mut cluster_panel = ConfigResourcePanel::new(ConfigResourceKind::PriorityClass);
    let cluster_row = row_from_summary(ConfigResourceKind::PriorityClass, priority_summary(), NOW);
    let cluster_key = cluster_row.key.clone();
    cluster_panel.state.rows = vec![cluster_row];

    cluster_panel.state.open_delete_dialog(&cluster_key);

    let dialog = cluster_panel.state.delete_dialog.as_ref().unwrap();
    assert_eq!(dialog.target.namespace, None);
    assert_eq!(dialog.target.name, "high");
}

#[test]
fn apply_completion_closes_edit_dialog_and_upserts_sorted_row() {
    let mut panel = ConfigResourcePanel::new(ConfigResourceKind::Lease);
    let row = lease_row();
    panel.state.rows = ConfigResourceKind::Lease.rows_from_list(
        vec![lease_summary_with_name("zeta", "worker"), lease_summary_with_name("default", "api-b")],
        NOW,
    );
    panel.state.edit_dialog = Some(GenericEditDialog { target: row.target(), yaml: "kind: Lease".to_owned(), parse_error: None });
    panel.state.action_request_id = Some(7);
    panel.state.action_error = Some("old error".to_owned());

    panel.apply_event(
        ResourceUiEvent::ResourceActionCompleted {
            request: lease_apply_request(7, "default", "api-a"),
            result: Ok(ResourceActionOutcome::Applied(lease_summary_with_name("default", "api-a"))),
        },
        NOW,
    );

    assert!(panel.state.edit_dialog.is_none());
    assert_eq!(panel.state.action_error, None);
    let keys = panel.state.rows.iter().map(|row| row.key.as_str()).collect::<Vec<_>>();
    assert_eq!(keys, vec!["default/api-a", "default/api-b", "zeta/worker"]);
}

#[test]
fn delete_completion_closes_delete_dialog_and_removes_row_selection() {
    let mut panel = ConfigResourcePanel::new(ConfigResourceKind::Lease);
    let row = lease_row();
    let key = row.key.clone();
    let target = row.delete_target();
    panel.state.rows = vec![row];
    panel.state.selected_rows.insert(&key);
    panel.state.delete_dialog = Some(GenericDeleteDialog { target });
    panel.state.action_request_id = Some(7);
    panel.state.action_error = Some("old error".to_owned());

    panel.apply_event(
        ResourceUiEvent::ResourceActionCompleted {
            request: lease_delete_request(7),
            result: Ok(ResourceActionOutcome::Deleted),
        },
        NOW,
    );

    assert!(panel.state.rows.is_empty());
    assert!(!panel.state.selected_rows.contains(&key));
    assert!(panel.state.delete_dialog.is_none());
    assert_eq!(panel.state.action_error, None);
}

#[test]
fn action_errors_keep_current_dialogs() {
    let row = lease_row();
    let mut edit_panel = ConfigResourcePanel::new(ConfigResourceKind::Lease);
    edit_panel.state.edit_dialog = Some(GenericEditDialog { target: row.target(), yaml: "kind: Lease".to_owned(), parse_error: None });
    edit_panel.state.action_request_id = Some(7);

    edit_panel.apply_event(
        ResourceUiEvent::ResourceActionCompleted {
            request: lease_apply_request(7, "kube-system", "kube-scheduler"),
            result: Err("field is immutable".to_owned()),
        },
        NOW,
    );

    assert!(edit_panel.state.edit_dialog.is_some());
    assert_eq!(edit_panel.state.action_error.as_deref(), Some("field is immutable"));

    let mut delete_panel = ConfigResourcePanel::new(ConfigResourceKind::Lease);
    delete_panel.state.delete_dialog = Some(GenericDeleteDialog { target: row.delete_target() });
    delete_panel.state.action_request_id = Some(9);

    delete_panel.apply_event(
        ResourceUiEvent::ResourceActionCompleted { request: lease_delete_request(9), result: Err("delete denied".to_owned()) },
        NOW,
    );

    assert!(delete_panel.state.delete_dialog.is_some());
    assert_eq!(delete_panel.state.action_error.as_deref(), Some("delete denied"));
}

#[test]
fn cluster_change_clears_edit_delete_batch_and_pending_action() {
    let row = lease_row();
    let mut panel = ConfigResourcePanel::new(ConfigResourceKind::Lease);
    panel.state.last_cluster_id = Some(ClusterId::new("old"));
    panel.state.edit_dialog = Some(GenericEditDialog { target: row.target(), yaml: "kind: Lease".to_owned(), parse_error: None });
    panel.state.delete_dialog = Some(GenericDeleteDialog { target: row.delete_target() });
    panel.state.batch_delete_dialog = Some(GenericBatchDeleteDialog { targets: vec![row.delete_target()] });
    panel.state.action_request_id = Some(7);
    panel.state.action_error = Some("old error".to_owned());

    panel.reset_for_cluster_change(&ClusterId::new("new"));

    assert!(panel.state.edit_dialog.is_none());
    assert!(panel.state.delete_dialog.is_none());
    assert!(panel.state.batch_delete_dialog.is_none());
    assert_eq!(panel.state.action_request_id, None);
    assert_eq!(panel.state.action_error, None);
}

#[test]
fn config_kinds_describe_themselves() {
    let kind = ConfigResourceKind::Lease;
    assert_eq!(kind.id(), "lease");
    assert_eq!(kind.title(), "Leases");
    assert_eq!(kind.singular_kind(), "Lease");
    assert_eq!(kind.api_version(), "coordination.k8s.io/v1");
    assert_eq!(config_key("kube-system", "kube-scheduler"), "kube-system/kube-scheduler");
    assert!(!kind.matches_load_kind(&ResourceLoadKind::Namespaces));
}

#[test]
fn config_describe_and_view_actions_open_their_dialogs() {
    let mut panel = ConfigResourcePanel::new(ConfigResourceKind::Lease);
    let row = lease_row();
    let key = row.key.clone();
    panel.state.rows = vec![row];

    panel.open_describe_dialog(&key, "kind: Lease\n".to_owned());
    let dialog = panel.describe_dialog.as_ref().unwrap();
    assert_eq!(dialog.name, "kube-scheduler");
    assert_eq!(dialog.describe.title, "Leases");
    assert_eq!(dialog.describe.labels, "N/A");
    assert_eq!(dialog.describe.annotations, "N/A");
    assert_eq!(dialog.describe.raw_yaml, "kind: Lease\n");
    assert!(dialog.describe.summary.iter().any(|(_, value)| value == "controller"));

    panel.open_view_dialog(&key, "kind: Lease\n".to_owned());
    assert_eq!(panel.view_dialog.as_ref().unwrap().name, "kube-scheduler");
}

#[test]
fn config_describe_lists_labels_sorted() {
    let row = row_from_summary(
        ConfigResourceKind::PriorityClass,
        summary(
            "high",
            None,
            "PriorityClass",
            r#"{"metadata": {"name": "high", "labels": {"tier": "system", "app": "core"}}, "value": 10}"#,
        ),
        NOW,
    );
    let describe = miku_ui::resource_panel::config_shared::config_describe_from_row(
        ConfigResourceKind::PriorityClass,
        &row,
        String::new(),
    );
    assert_eq!(describe.labels, "app=core, tier=system");
    assert_eq!(describe.title, "PriorityClasses");
}

#[test]
fn config_columns_fit_every_row() {
    for kind in [
        ConfigResourceKind::HorizontalPodAutoscaler,
        ConfigResourceKind::PodDisruptionBudget,
        ConfigResourceKind::PriorityClass,
        ConfigResourceKind::RuntimeClass,
        ConfigResourceKind::Lease,
        ConfigResourceKind::MutatingWebhookConfiguration,
        ConfigResourceKind::ValidatingWebhookConfiguration,
    ] {
        let columns = kind.columns();
        assert_eq!(columns[0], "Name");
        assert_eq!(*columns.last().unwrap(), "Age");
        assert_eq!(columns[1] == "Namespace", kind.is_namespaced());
        let row = row_from_summary(kind, lease_summary(), NOW);
        assert_eq!(row.cells.len(), columns.len());
        assert_eq!(row.details.len(), columns.len());
        assert_eq!(row.cells[0], row.name);
    }
}
