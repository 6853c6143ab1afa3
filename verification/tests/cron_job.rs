use miku_ui::json::{JsonNumber, JsonValue};
use miku_ui::resource_panel::components::{GenericDeleteDialog, GenericEditDialog};
use miku_ui::resource_panel::cron_job::{
    cron_job_key, cron_job_metadata, cron_job_rows_from_list, cron_job_status_summary, CronJobResourcePanel, CronJobRow,
};
use miku_ui::resource_panel::describe::cron_job_describe_from_row;
use miku_ui::resource_panel::state::{filter_rows, PanelRow};
use miku_ui::resource_panel::templates::default_cron_job_yaml;
use miku_ui::yaml::{editable_resource_yaml, parse_resource_apply_yaml};
use miku_ui::resource_panel::{
    ClusterId, ResourceActionKind, ResourceActionOutcome, ResourceActionRequest, ResourceEvent,
    ResourceList, ResourceLoadKind, ResourceSummary, ResourceUiEvent, ResourceWatchRequest,
};

const NOW: i64 = 1_800_000_000;

fn from_serde(value: &serde_json::Value) -> JsonValue {
    match value {
        serde_json::Value::Null => JsonValue::Null,
        serde_json::Value::Bool(b) => JsonValue::Bool(*b),
        serde_json::Value::Number(n) => match (n.as_u64(), n.as_i64()) {
            (Some(u), _) => JsonValue::Number(JsonNumber::PosInt(u)),
            (None, Some(i)) => JsonValue::Number(JsonNumber::NegInt(i)),
            _ => JsonValue::Number(JsonNumber::Float(n.to_string())),
        },
        serde_json::Value::String(s) => JsonValue::String(s.clone()),
        serde_json::Value::Array(items) => JsonValue::Array(items.iter().map(from_serde).collect()),
        serde_json::Value::Object(map) => {
            JsonValue::Object(map.iter().map(|(k, v)| (k.clone(), from_serde(v))).collect())
        }
    }
}

fn to_serde(value: &JsonValue) -> serde_json::Value {
    match value {
        JsonValue::Null => serde_json::Value::Null,
        JsonValue::Bool(b) => serde_json::Value::Bool(*b),
        JsonValue::Number(JsonNumber::PosInt(u)) => serde_json::Value::from(*u),
        JsonValue::Number(JsonNumber::NegInt(i)) => serde_json::Value::from(*i),
        JsonValue::Number(JsonNumber::Float(t)) => serde_json::from_str(t).unwrap(),
        JsonValue::String(s) => serde_json::Value::String(s.clone()),
        JsonValue::Array(items) => serde_json::Value::Array(items.iter().map(to_serde).collect()),
        JsonValue::Object(entries) => serde_json::Value::Object(
            entries.iter().map(|(k, v)| (k.clone(), to_serde(v))).collect(),
        ),
    }
}

fn json(text: &str) -> JsonValue {
    from_serde(&serde_json::from_str::<serde_json::Value>(text).unwrap())
}

fn cron_job_summary() -> ResourceSummary {
    cron_job_summary_with_name("default", "backup")
}

fn cron_job_summary_with_name(namespace: &str, name: &str) -> ResourceSummary {
    let raw = format!(
        r#"{{
            "metadata": {{
                "name": "{name}",
                "namespace": "{namespace}",
                "creationTimestamp": "2026-05-18T10:00:00Z",
                "labels": {{"app": "{name}"}}
            }},
            "spec": {{
                "schedule": "*/5 * * * *",
                "suspend": false,
                "concurrencyPolicy": "Forbid",
                "successfulJobsHistoryLimit": 3,
                "failedJobsHistoryLimit": 1,
                "jobTemplate": {{
                    "spec": {{
                        "template": {{
                            "metadata": {{"labels": {{"job-name": "{name}"}}}},
                            "spec": {{
                                "containers": [
                                    {{"name": "{name}", "image": "ghcr.io/example/backup:1.0.0"}}
                                ]
                            }}
                        }}
                    }}
                }}
            }},
            "status": {{
                "active": [
                    {{"name": "backup-1"}},
                    {{"name": "backup-2"}}
                ],
                "lastScheduleTime": "2026-05-18T10:00:00Z",
                "lastSuccessfulTime": "2026-05-18T09:55:00Z"
            }}
        }}"#
    );
    ResourceSummary {
        name: name.to_owned(),
        namespace: Some(namespace.to_owned()),
        kind: "CronJob".to_owned(),
        status: None,
        raw: json(&raw),
    }
}

fn namespace_summary(name: &str) -> ResourceSummary {
    ResourceSummary {
        name: name.to_owned(),
        namespace: None,
        kind: "Namespace".to_owned(),
        status: Some("Active".to_owned()),
        raw: json(&format!(r#"{{"metadata": {{"name": "{name}"}}}}"#)),
    }
}

fn cron_job_row() -> CronJobRow {
    CronJobRow::from_summary(cron_job_summary(), NOW)
}

fn apply_request(request_id: u64) -> ResourceActionRequest {
    ResourceActionRequest {
        request_id,
        cluster_id: ClusterId::new("local"),
        kind: ResourceActionKind::ApplyResource {
            resource: cron_job_metadata().resource,
            namespace: Some("default".to_owned()),
            name: "backup".to_owned(),
            manifest: JsonValue::Object(Vec::new()),
        },
    }
}

fn delete_request(request_id: u64) -> ResourceActionRequest {
    ResourceActionRequest {
        request_id,
        cluster_id: ClusterId::new("local"),
        kind: ResourceActionKind::DeleteResource {
            resource: cron_job_metadata().resource,
            namespace: Some("default".to_owned()),
            name: "backup".to_owned(),
        },
    }
}

#[test]
fn cron_job_request_query_uses_selected_namespace() {
    let mut panel = CronJobResourcePanel::new();
    panel.state.namespace_filter = Some("production".to_owned());

    let request = panel.request_cronjobs(ClusterId::new("local"));

    assert_eq!(request.kind, ResourceLoadKind::CronJobs { namespace: Some("production".to_owned()) });
    let metadata = cron_job_metadata();
    assert_eq!(metadata.resource.plural, "cronjobs");
    assert_eq!(metadata.resource.group.as_deref(), Some("batch"));
}

#[test]
fn default_cron_job_yaml_is_applyable() {
    let yaml = default_cron_job_yaml(Some("production"));
    let parsed = parse_resource_apply_yaml(&yaml, cron_job_metadata().namespaced, Some("default")).ok().unwrap();

    assert_eq!(parsed.namespace.as_deref(), Some("production"));
    assert_eq!(parsed.name, "example-cron-job");
    let manifest = to_serde(&parsed.manifest);
    assert_eq!(manifest["apiVersion"], "batch/v1");
    assert_eq!(manifest["kind"], "CronJob");
    assert_eq!(manifest["spec"]["schedule"], "*/5 * * * *");
    assert_eq!(manifest["spec"]["jobTemplate"]["spec"]["template"]["spec"]["restartPolicy"], "OnFailure");
    assert_eq!(
        manifest["spec"]["jobTemplate"]["spec"]["template"]["spec"]["containers"][0]["image"],
        "busybox:latest"
    );
}

#[test]
fn cron_job_row_extracts_table_fields_from_raw_summary() {
    let row = cron_job_row();

    assert_eq!(row.name, "backup");
    assert_eq!(row.namespace, "default");
    assert_eq!(row.schedule, "*/5 * * * *");
    assert_eq!(row.suspend, "false");
    assert_eq!(row.active, "2");
    assert_eq!(row.last_schedule, "2026-05-18T10:00:00Z");
    assert_eq!(row.last_success, "2026-05-18T09:55:00Z");
    assert_eq!(row.concurrency, "Forbid");
    assert_eq!(row.status_summary, "schedule=*/5 * * * *, active=2, concurrency=Forbid");
    assert!(row.age.ends_with(" ago"));
}

#[test]
fn cron_job_row_handles_missing_optional_fields() {
    let row = CronJobRow::from_summary(
        ResourceSummary {
            name: "minimal".to_owned(),
            namespace: Some("default".to_owned()),
            kind: "CronJob".to_owned(),
            status: None,
            raw: json(r#"{"metadata": {"name": "minimal", "namespace": "default"}}"#),
        },
        NOW,
    );

    assert_eq!(row.schedule, "N/A");
    assert_eq!(row.suspend, "N/A");
    assert_eq!(row.active, "0");
    assert_eq!(row.last_schedule, "N/A");
    assert_eq!(row.last_success, "N/A");
    assert_eq!(row.concurrency, "N/A");
}

#[test]
fn cron_job_rows_filter_by_multiple_fields_case_insensitively() {
    let rows = vec![cron_job_row(), CronJobRow::from_summary(cron_job_summary_with_name("production", "worker"), NOW)];

    assert_eq!(filter_rows(&rows, "BACKUP").len(), 1);
    assert_eq!(filter_rows(&rows, "PRODUCTION").len(), 1);
    assert_eq!(filter_rows(&rows, "FORBID").len(), 2);
    assert_eq!(filter_rows(&rows, "*/5").len(), 2);
}

#[test]
fn cron_job_rows_are_sorted_by_namespace_and_name() {
    let rows = cron_job_rows_from_list(
        vec![
            cron_job_summary_with_name("zeta", "worker"),
            cron_job_summary_with_name("default", "backup"),
            cron_job_summary_with_name("default", "archive"),
        ],
        NOW,
    );

    let keys = rows.into_iter().map(|row| row.key).collect::<Vec<_>>();
    assert_eq!(keys, vec!["default/archive", "default/backup", "zeta/worker"]);
}

#[test]
fn cron_job_describe_extracts_details() {
    let row = cron_job_row();
    let describe = cron_job_describe_from_row(&row, String::new());

    assert_eq!(describe.template_labels.len(), 1);
    assert_eq!(describe.containers.len(), 1);
    assert!(describe.labels.iter().any(|entry| entry.key == "app"));
    assert!(describe.summary.iter().any(|field| field.label == "Concurrency" && field.value == "Forbid"));
}

#[test]
fn cron_job_stale_resource_events_do_not_replace_current_rows() {
    let mut panel = CronJobResourcePanel::new();
    let first = panel.request_cronjobs(ClusterId::new("local"));
    let second = panel.request_cronjobs(ClusterId::new("local"));

    panel.apply_event(
        ResourceUiEvent::ResourcesLoaded {
            request: first,
            result: Ok(ResourceList { items: vec![cron_job_summary_with_name("default", "stale")], continue_token: None }),
        },
        NOW,
    );
    assert!(panel.state.rows.is_empty());

    panel.apply_event(
        ResourceUiEvent::ResourcesLoaded {
            request: second,
            result: Ok(ResourceList { items: vec![cron_job_summary()], continue_token: None }),
        },
        NOW,
    );

    assert_eq!(panel.state.rows[0].name, "backup");
}

#[test]
fn cron_job_stale_watch_events_do_not_replace_current_rows() {
    let mut panel = CronJobResourcePanel::new();
    let first = panel.request_cron_job_watch(ClusterId::new("local"));
    let second = panel.request_cron_job_watch(ClusterId::new("local"));

    panel.apply_event(
        ResourceUiEvent::ResourceWatchUpdated {
            request: first,
            result: Ok(ResourceEvent::Snapshot(ResourceList {
                items: vec![cron_job_summary_with_name("default", "stale")],
                continue_token: None,
            })),
        },
        NOW,
    );
    assert!(panel.state.rows.is_empty());

    panel.apply_event(
        ResourceUiEvent::ResourceWatchUpdated {
            request: second,
            result: Ok(ResourceEvent::Snapshot(ResourceList { items: vec![cron_job_summary()], continue_token: None })),
        },
        NOW,
    );

    assert_eq!(panel.state.rows[0].name, "backup");
}

#[test]
fn cron_job_namespace_watch_events_from_shared_request_update_selector() {
    let mut panel = CronJobResourcePanel::new();
    panel.apply_event(
        ResourceUiEvent::ResourceWatchUpdated {
            request: ResourceWatchRequest {
                request_id: 42,
                cluster_id: ClusterId::new("local"),
                kind: ResourceLoadKind::Namespaces,
            },
            result: Ok(ResourceEvent::Snapshot(ResourceList {
                items: vec![namespace_summary("production")],
                continue_token: None,
            })),
        },
        NOW,
    );

    assert_eq!(panel.state.namespaces, vec!["production".to_owned()]);
}

#[test]
fn cron_job_delete_target_uses_namespace_and_name() {
    let row = cron_job_row();
    let target = row.delete_target();

    assert_eq!(target.namespace.as_deref(), Some("default"));
    assert_eq!(target.name, "backup");
}

#[test]
fn cron_job_edit_action_opens_edit_dialog_with_editable_yaml() {
    let mut panel = CronJobResourcePanel::new();
    let row = cron_job_row();
    let key = row.key.clone();
    panel.state.rows = vec![row];

    let yaml = editable_resource_yaml(cron_job_summary().raw);
    panel.state.open_edit_dialog(&key, yaml);

    let dialog = panel.state.edit_dialog.as_ref().unwrap();
    assert_eq!(dialog.target.namespace.as_deref(), Some("default"));
    assert_eq!(dialog.target.name, "backup");
    let manifest = serde_yaml::from_str::<serde_json::Value>(&dialog.yaml).unwrap();
    assert!(manifest.pointer("/metadata/creationTimestamp").is_none());
    assert!(manifest.pointer("/status").is_none());
}

#[test]
fn cron_job_delete_action_opens_delete_dialog() {
    let mut panel = CronJobResourcePanel::new();
    let row = cron_job_row();
    let key = row.key.clone();
    panel.state.rows = vec![row];

    panel.state.open_delete_dialog(&key);

    let dialog = panel.state.delete_dialog.as_ref().unwrap();
    assert_eq!(dialog.target.namespace.as_deref(), Some("default"));
    assert_eq!(dialog.target.name, "backup");
    assert_eq!(panel.state.action_error, None);
}

#[test]
fn cron_job_apply_completion_closes_edit_dialog_and_updates_existing_row() {
    let mut panel = CronJobResourcePanel::new();
    let row = cron_job_row();
    let target = row.target();
    panel.state.rows = vec![row];
    panel.state.edit_dialog = Some(GenericEditDialog { target, yaml: "kind: CronJob".to_owned(), parse_error: None });
    panel.state.action_request_id = Some(7);

    panel.apply_event(
        ResourceUiEvent::ResourceActionCompleted {
            request: apply_request(7),
            result: Ok(ResourceActionOutcome::Applied(cron_job_summary_with_name("default", "backup"))),
        },
        NOW,
    );

    assert!(panel.state.edit_dialog.is_none());
    assert_eq!(panel.state.action_error, None);
    assert_eq!(panel.state.rows.len(), 1);
    assert_eq!(panel.state.rows[0].name, "backup");
}

#[test]
fn cron_job_delete_completion_closes_delete_dialog_and_removes_row() {
    let mut panel = CronJobResourcePanel::new();
    let row = cron_job_row();
    let key = row.key.clone();
    let target = row.delete_target();
    panel.state.rows = vec![row];
    panel.state.selected_rows.insert(&key);
    panel.state.delete_dialog = Some(GenericDeleteDialog { target });
    panel.state.action_request_id = Some(7);

    panel.apply_event(
        ResourceUiEvent::ResourceActionCompleted { request: delete_request(7), result: Ok(ResourceActionOutcome::Deleted) },
        NOW,
    );

    assert!(panel.state.rows.is_empty());
    assert!(!panel.state.selected_rows.contains(&key));
    assert!(panel.state.delete_dialog.is_none());
    assert_eq!(panel.state.action_error, None);
}

#[test]
fn cron_job_apply_error_keeps_edit_dialog() {
    let mut panel = CronJobResourcePanel::new();
    let row = cron_job_row();
    panel.state.edit_dialog = Some(GenericEditDialog { target: row.target(), yaml: "kind: CronJob".to_owned(), parse_error: None });
    panel.state.action_request_id = Some(7);

    panel.apply_event(
        ResourceUiEvent::ResourceActionCompleted { request: apply_request(7), result: Err("field is immutable".to_owned()) },
        NOW,
    );

    assert!(panel.state.edit_dialog.is_some());
    assert_eq!(panel.state.action_error.as_deref(), Some("field is immutable"));
}

#[test]
fn cron_job_delete_error_keeps_delete_dialog() {
    let mut panel = CronJobResourcePanel::new();
    let row = cron_job_row();
    panel.state.delete_dialog = Some(GenericDeleteDialog { target: row.delete_target() });
    panel.state.action_request_id = Some(7);

    panel.apply_event(
        ResourceUiEvent::ResourceActionCompleted { request: delete_request(7), result: Err("delete denied".to_owned()) },
        NOW,
    );

    assert!(panel.state.delete_dialog.is_some());
    assert_eq!(panel.state.action_error.as_deref(), Some("delete denied"));
}

#[test]
fn cron_job_cluster_change_clears_edit_dialog() {
    let mut panel = CronJobResourcePanel::new();
    let row = cron_job_row();
    panel.state.last_cluster_id = Some(ClusterId::new("old"));
    panel.state.edit_dialog = Some(GenericEditDialog { target: row.target(), yaml: "kind: CronJob".to_owned(), parse_error: None });
    panel.state.delete_dialog = Some(GenericDeleteDialog { target: row.delete_target() });
    panel.state.action_request_id = Some(7);

    panel.reset_for_cluster_change(&ClusterId::new("new"));

    assert!(panel.state.edit_dialog.is_none());
    assert!(panel.state.delete_dialog.is_none());
    assert_eq!(panel.state.action_request_id, None);
}

#[test]
fn cron_job_key_and_status_summary_formats() {
    assert_eq!(cron_job_key("default", "backup"), "default/backup");
    assert_eq!(cron_job_status_summary("@hourly", 0, "Allow"), "schedule=@hourly, active=0, concurrency=Allow");
}

#[test]
fn default_cron_job_yaml_without_namespace_uses_default() {
    let yaml = default_cron_job_yaml(None);
    assert!(yaml.contains("namespace: default"));
}
