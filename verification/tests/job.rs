use miku_ui::json::{JsonNumber, JsonValue};
use miku_ui::resource_panel::components::{GenericDeleteDialog, GenericEditDialog};
use miku_ui::resource_panel::describe::job_describe_from_row;
use miku_ui::resource_panel::job::{job_key, job_metadata, job_rows_from_list, job_status_summary, JobResourcePanel, JobRow};
use miku_ui::resource_panel::state::{filter_rows, PanelRow};
use miku_ui::resource_panel::templates::default_resource_yaml;
use miku_ui::resource_panel::{
    ClusterId, ResourceActionKind, ResourceActionOutcome, ResourceActionRequest, ResourceEvent,
    ResourceList, ResourceLoadKind, ResourceSummary, ResourceUiEvent, ResourceWatchRequest,
};

const NOW: i64 = 1_800_000_000;

fn from_serde(value: &serde_json::Value) -> JsonValue {
    match value {
        serde_json::Value::Null => JsonValue::Null,
        serde_json::Value::Bool(b) => JsonValue::Bool(*b),
        serde_json::Value::Number(n) => match (n.as_u64(), n.as_i64()) {
            (Some(u), _) => JsonValue::Number(JsonNumber::PosInt(u)),
            (None, Some(i)) => JsonValue::Number(JsonNumber::NegInt(i)),
            _ => JsonValue::Number(JsonNumber::Float(n.to_string())),
        },
        serde_json::Value::String(s) => JsonValue::String(s.clone()),
        serde_json::Value::Array(items) => JsonValue::Array(items.iter().map(from_serde).collect()),
        serde_json::Value::Object(map) => {
            JsonValue::Object(map.iter().map(|(k, v)| (k.clone(), from_serde(v))).collect())
        }
    }
}

fn to_serde(value: &JsonValue) -> serde_json::Value {
    match value {
        JsonValue::Null => serde_json::Value::Null,
        JsonValue::Bool(b) => serde_json::Value::Bool(*b),
        JsonValue::Number(JsonNumber::PosInt(u)) => serde_json::Value::from(*u),
        JsonValue::Number(JsonNumber::NegInt(i)) => serde_json::Value::from(*i),
        JsonValue::Number(JsonNumber::Float(t)) => serde_json::from_str(t).unwrap(),
        JsonValue::String(s) => serde_json::Value::String(s.clone()),
        JsonValue::Array(items) => serde_json::Value::Array(items.iter().map(to_serde).collect()),
        JsonValue::Object(entries) => serde_json::Value::Object(
            entries.iter().map(|(k, v)| (k.clone(), to_serde(v))).collect(),
        ),
    }
}

fn json(text: &str) -> JsonValue {
    from_serde(&serde_json::from_str::<serde_json::Value>(text).unwrap())
}

fn job_summary() -> ResourceSummary {
    job_summary_with_name("default", "backup")
}

fn job_summary_with_name(namespace: &str, name: &str) -> ResourceSummary {
    let raw = format!(
        r#"{{
            "metadata": {{
                "name": "{name}",
                "namespace": "{namespace}",
                "creationTimestamp": "2026-05-18T10:00:00Z",
                "labels": {{"app": "{name}"}}
            }},
            "spec": {{
                "completions": 4,
                "parallelism": 2,
                "backoffLimit": 6,
                "selector": {{"matchLabels": {{"job-name": "{name}"}}}},
                "template": {{
                    "metadata": {{"labels": {{"job-name": "{name}"}}}},
                    "spec": {{
                        "containers": [
                            {{"name": "{name}", "image": "ghcr.io/example/backup:1.0.0"}}
                        ]
                    }}
                }}
            }},
            "status": {{
                "succeeded": 3,
                "failed": 1,
                "active": 2,
                "startTime": "2026-05-18T10:00:00Z",
                "completionTime": "2026-05-18T10:10:00Z",
                "conditions": [
                    {{"type": "Complete", "status": "True", "reason": "Completed", "message": "done"}},
                    {{"type": "Failed", "status": "False", "reason": "NoFailures", "message": "ok"}}
                ]
            }}
        }}"#
    );
    ResourceSummary {
        name: name.to_owned(),
        namespace: Some(namespace.to_owned()),
        kind: "Job".to_owned(),
        status: None,
        raw: json(&raw),
    }
}

fn namespace_summary(name: &str) -> ResourceSummary {
    ResourceSummary {
        name: name.to_owned(),
        namespace: None,
        kind: "Namespace".to_owned(),
        status: Some("Active".to_owned()),
        raw: json(&format!(r#"{{"metadata": {{"name": "{name}"}}}}"#)),
    }
}

fn job_row() -> JobRow {
    JobRow::from_summary(job_summary(), NOW)
}

fn apply_request(request_id: u64) -> ResourceActionRequest {
    ResourceActionRequest {
        request_id,
        cluster_id: ClusterId::new("local"),
        kind: ResourceActionKind::ApplyResource {
            resource: job_metadata().resource,
            namespace: Some("default".to_owned()),
            name: "backup".to_owned(),
            manifest: JsonValue::Object(Vec::new()),
        },
    }
}

fn delete_request(request_id: u64) -> ResourceActionRequest {
    ResourceActionRequest {
        request_id,
        cluster_id: ClusterId::new("local"),
        kind: ResourceActionKind::DeleteResource {
            resource: job_metadata().resource,
            namespace: Some("default".to_owned()),
            name: "backup".to_owned(),
        },
    }
}

#[test]
fn job_request_query_uses_selected_namespace() {
    let mut panel = JobResourcePanel::new();
    panel.state.namespace_filter = Some("production".to_owned());

    let request = panel.request_jobs(ClusterId::new("local"));

    assert_eq!(request.kind, ResourceLoadKind::Jobs { namespace: Some("production".to_owned()) });
    let metadata = job_metadata();
    assert_eq!(metadata.resource.plural, "jobs");
    assert_eq!(metadata.resource.group.as_deref(), Some("batch"));
}

#[test]
fn job_row_extracts_table_fields_from_raw_summary() {
    let row = job_row();

    assert_eq!(row.name, "backup");
    assert_eq!(row.namespace, "default");
    assert_eq!(row.completions, "3/4");
    assert_eq!(row.succeeded, "3");
    assert_eq!(row.failed, "1");
    assert_eq!(row.active, "2");
    assert_eq!(row.duration, "10 minutes");
    assert_eq!(row.conditions, "Complete=True, Failed=False");
    assert_eq!(row.selector, "job-name=backup");
    assert_eq!(row.images, "ghcr.io/example/backup:1.0.0");
    assert!(row.age.ends_with(" ago"));
}

#[test]
fn job_row_handles_missing_optional_fields() {
    let row = JobRow::from_summary(
        ResourceSummary {
            name: "minimal".to_owned(),
            namespace: Some("default".to_owned()),
            kind: "Job".to_owned(),
            status: None,
            raw: json(r#"{"metadata": {"name": "minimal", "namespace": "default"}}"#),
        },
        NOW,
    );

    assert_eq!(row.completions, "0/N/A");
    assert_eq!(row.succeeded, "0");
    assert_eq!(row.failed, "0");
    assert_eq!(row.active, "0");
    assert_eq!(row.duration, "N/A");
    assert_eq!(row.conditions, "N/A");
    assert_eq!(row.selector, "N/A");
    assert_eq!(row.images, "N/A");
}

#[test]
fn job_rows_filter_by_multiple_fields_case_insensitively() {
    let rows = vec![
        job_row(),
        JobRow::from_summary(job_summary_with_name("production", "worker"), NOW),
    ];

    assert_eq!(filter_rows(&rows, "WORKER").len(), 1);
    assert_eq!(filter_rows(&rows, "PRODUCTION").len(), 1);
    assert_eq!(filter_rows(&rows, "complete=true").len(), 2);
    assert_eq!(filter_rows(&rows, "example/backup").len(), 2);
}

#[test]
fn job_rows_are_sorted_by_namespace_and_name() {
    let rows = job_rows_from_list(
        vec![
            job_summary_with_name("zeta", "worker"),
            job_summary_with_name("default", "backup"),
            job_summary_with_name("default", "archive"),
        ],
        NOW,
    );

    let keys = rows.into_iter().map(|row| row.key).collect::<Vec<_>>();
    assert_eq!(keys, vec!["default/archive", "default/backup", "zeta/worker"]);
}

#[test]
fn job_describe_extracts_details() {
    let row = job_row();
    let describe = job_describe_from_row(&row, String::new());

    assert_eq!(describe.selector.len(), 1);
    assert_eq!(describe.template_labels.len(), 1);
    assert_eq!(describe.containers.len(), 1);
    assert_eq!(describe.conditions.len(), 2);
    assert!(describe.labels.iter().any(|entry| entry.key == "app"));
    assert!(describe.summary.iter().any(|field| field.label == "Duration"));
}

#[test]
fn job_stale_resource_events_do_not_replace_current_rows() {
    let mut panel = JobResourcePanel::new();
    let first = panel.request_jobs(ClusterId::new("local"));
    let second = panel.request_jobs(ClusterId::new("local"));

    panel.apply_event(
        ResourceUiEvent::ResourcesLoaded {
            request: first,
            result: Ok(ResourceList { items: vec![job_summary_with_name("default", "stale")], continue_token: None }),
        },
        NOW,
    );
    assert!(panel.state.rows.is_empty());

    panel.apply_event(
        ResourceUiEvent::ResourcesLoaded {
            request: second,
            result: Ok(ResourceList { items: vec![job_summary()], continue_token: None }),
        },
        NOW,
    );

    assert_eq!(panel.state.rows[0].name, "backup");
}

#[test]
fn job_stale_watch_events_do_not_replace_current_rows() {
    let mut panel = JobResourcePanel::new();
    let first = panel.request_job_watch(ClusterId::new("local"));
    let second = panel.request_job_watch(ClusterId::new("local"));

    panel.apply_event(
        ResourceUiEvent::ResourceWatchUpdated {
            request: first,
            result: Ok(ResourceEvent::Snapshot(ResourceList {
                items: vec![job_summary_with_name("default", "stale")],
                continue_token: None,
            })),
        },
        NOW,
    );
    assert!(panel.state.rows.is_empty());

    panel.apply_event(
        ResourceUiEvent::ResourceWatchUpdated {
            request: second,
            result: Ok(ResourceEvent::Snapshot(ResourceList { items: vec![job_summary()], continue_token: None })),
        },
        NOW,
    );

    assert_eq!(panel.state.rows[0].name, "backup");
}

#[test]
fn job_namespace_watch_events_from_shared_request_update_selector() {
    let mut panel = JobResourcePanel::new();
    panel.apply_event(
        ResourceUiEvent::ResourceWatchUpdated {
            request: ResourceWatchRequest {
                request_id: 42,
                cluster_id: ClusterId::new("local"),
                kind: ResourceLoadKind::Namespaces,
            },
            result: Ok(ResourceEvent::Snapshot(ResourceList {
                items: vec![namespace_summary("production")],
                continue_token: None,
            })),
        },
        NOW,
    );

    assert_eq!(panel.state.namespaces, vec!["production".to_owned()]);
}

#[test]
fn job_delete_target_uses_namespace_and_name() {
    let row = job_row();
    let target = row.delete_target();

    assert_eq!(target.namespace.as_deref(), Some("default"));
    assert_eq!(target.name, "backup");
}

#[test]
fn job_edit_action_opens_edit_dialog_with_editable_yaml() {
    let mut panel = JobResourcePanel::new();
    let row = job_row();
    let key = row.key.clone();
    panel.state.rows = vec![row];

    let yaml = miku_ui::yaml::editable_resource_yaml(job_summary().raw);
    panel.state.open_edit_dialog(&key, yaml);

    let dialog = panel.state.edit_dialog.as_ref().unwrap();
    assert_eq!(dialog.target.namespace.as_deref(), Some("default"));
    assert_eq!(dialog.target.name, "backup");
    let manifest = serde_yaml::from_str::<serde_json::Value>(&dialog.yaml).unwrap();
    assert!(manifest.pointer("/metadata/creationTimestamp").is_none());
    assert!(manifest.pointer("/status").is_none());
}

#[test]
fn job_delete_action_opens_delete_dialog() {
    let mut panel = JobResourcePanel::new();
    let row = job_row();
    let key = row.key.clone();
    panel.state.rows = vec![row];

    panel.state.open_delete_dialog(&key);

    let dialog = panel.state.delete_dialog.as_ref().unwrap();
    assert_eq!(dialog.target.namespace.as_deref(), Some("default"));
    assert_eq!(dialog.target.name, "backup");
    assert_eq!(panel.state.action_error, None);
}

#[test]
fn job_apply_completion_closes_edit_dialog_and_updates_existing_row() {
    let mut panel = JobResourcePanel::new();
    let row = job_row();
    let target = row.target();
    panel.state.rows = vec![row];
    panel.state.edit_dialog = Some(GenericEditDialog { target, yaml: "kind: Job".to_owned(), parse_error: None });
    panel.state.action_request_id = Some(7);

    panel.apply_event(
        ResourceUiEvent::ResourceActionCompleted {
            request: apply_request(7),
            result: Ok(ResourceActionOutcome::Applied(job_summary_with_name("default", "backup"))),
        },
        NOW,
    );

    assert!(panel.state.edit_dialog.is_none());
    assert_eq!(panel.state.action_error, None);
    assert_eq!(panel.state.rows.len(), 1);
    assert_eq!(panel.state.rows[0].name, "backup");
}

#[test]
fn job_delete_completion_closes_delete_dialog_and_removes_row() {
    let mut panel = JobResourcePanel::new();
    let row = job_row();
    let key = row.key.clone();
    let target = row.delete_target();
    panel.state.rows = vec![row];
    panel.state.selected_rows.insert(&key);
    panel.state.delete_dialog = Some(GenericDeleteDialog { target });
    panel.state.action_request_id = Some(7);

    panel.apply_event(
        ResourceUiEvent::ResourceActionCompleted { request: delete_request(7), result: Ok(ResourceActionOutcome::Deleted) },
        NOW,
    );

    assert!(panel.state.rows.is_empty());
    assert!(!panel.state.selected_rows.contains(&key));
    assert!(panel.state.delete_dialog.is_none());
    assert_eq!(panel.state.action_error, None);
}

#[test]
fn job_apply_error_keeps_edit_dialog() {
    let mut panel = JobResourcePanel::new();
    let row = job_row();
    panel.state.edit_dialog = Some(GenericEditDialog { target: row.target(), yaml: "kind: Job".to_owned(), parse_error: None });
    panel.state.action_request_id = Some(7);

    panel.apply_event(
        ResourceUiEvent::ResourceActionCompleted {
            request: apply_request(7),
            result: Err("field is immutable".to_owned()),
        },
        NOW,
    );

    assert!(panel.state.edit_dialog.is_some());
    assert_eq!(panel.state.action_error.as_deref(), Some("field is immutable"));
}

#[test]
fn job_delete_error_keeps_delete_dialog() {
    let mut panel = JobResourcePanel::new();
    let row = job_row();
    panel.state.delete_dialog = Some(GenericDeleteDialog { target: row.delete_target() });
    panel.state.action_request_id = Some(7);

    panel.apply_event(
        ResourceUiEvent::ResourceActionCompleted { request: delete_request(7), result: Err("delete denied".to_owned()) },
        NOW,
    );

    assert!(panel.state.delete_dialog.is_some());
    assert_eq!(panel.state.action_error.as_deref(), Some("delete denied"));
}

#[test]
fn job_cluster_change_clears_edit_dialog() {
    let mut panel = JobResourcePanel::new();
    let row = job_row();
    panel.state.last_cluster_id = Some(ClusterId::new("old"));
    panel.state.edit_dialog = Some(GenericEditDialog { target: row.target(), yaml: "kind: Job".to_owned(), parse_error: None });
    panel.state.delete_dialog = Some(GenericDeleteDialog { target: row.delete_target() });
    panel.state.action_request_id = Some(7);

    panel.reset_for_cluster_change(&ClusterId::new("new"));

    assert!(panel.state.edit_dialog.is_none());
    assert!(panel.state.delete_dialog.is_none());
    assert_eq!(panel.state.action_request_id, None);
}

#[test]
fn stale_action_result_leaves_job_panel_unchanged() {
    let mut panel = JobResourcePanel::new();
    let row = job_row();
    panel.state.rows = vec![row];
    panel.state.action_request_id = Some(7);

    panel.apply_event(
        ResourceUiEvent::ResourceActionCompleted { request: delete_request(8), result: Ok(ResourceActionOutcome::Deleted) },
        NOW,
    );

    assert_eq!(panel.state.rows.len(), 1);
    assert_eq!(panel.state.action_request_id, Some(7));
}

#[test]
fn job_key_and_status_summary_formats() {
    assert_eq!(job_key("default", "backup"), "default/backup");
    assert_eq!(job_status_summary(3, 1, 2), "succeeded=3, failed=1, active=2");
    assert_eq!(job_status_summary(0, 0, 0), "succeeded=0, failed=0, active=0");
}


#[test]
fn job_describe_action_opens_describe_dialog() {
    let mut panel = JobResourcePanel::new();
    let row = job_row();
    let key = row.key.clone();
    panel.state.rows = vec![row];

    panel.open_describe_dialog(&key, "kind: Job\n".to_owned());

    let dialog = panel.describe_dialog.as_ref().unwrap();
    assert_eq!(dialog.key, "default/backup");
    assert_eq!(dialog.name, "backup");
    assert_eq!(dialog.describe.raw_yaml, "kind: Job\n");
    assert_eq!(dialog.describe.replicas[0].value, "3/4");

    panel.open_describe_dialog("default/missing", String::new());
    assert_eq!(panel.describe_dialog.as_ref().unwrap().name, "backup");
}

#[test]
fn job_view_action_opens_view_dialog() {
    let mut panel = JobResourcePanel::new();
    let row = job_row();
    let key = row.key.clone();
    panel.state.rows = vec![row];

    panel.open_view_dialog(&key, "kind: Job\n".to_owned());

    let dialog = panel.view_dialog.as_ref().unwrap();
    assert_eq!(dialog.name, "backup");
    assert_eq!(dialog.yaml, "kind: Job\n");
}

#[test]
fn blank_job_search_shows_every_row() {
    let rows = vec![job_row(), JobRow::from_summary(job_summary_with_name("production", "worker"), NOW)];
    assert_eq!(filter_rows(&rows, "   "), vec![0, 1]);
    assert_eq!(filter_rows(&rows, ""), vec![0, 1]);
    assert_eq!(filter_rows(&rows, "nothing-matches"), Vec::<usize>::new());
}

#[test]
fn created_job_is_sent_and_shown_when_applied() {
    let mut panel = JobResourcePanel::new();
    panel.state.namespace_filter = Some("production".to_owned());
    panel.state.open_create_dialog(default_resource_yaml(job_metadata(), Some("production")));
    panel.state.action_error = Some("old".to_owned());

    let yaml = panel.state.create_dialog.as_ref().unwrap().yaml.clone();
    let parsed = miku_ui::yaml::parse_yaml_document(&yaml);
    let request = panel.state.submit_create(ClusterId::new("local"), job_metadata(), parsed).unwrap();

    assert_eq!(panel.state.action_request_id, Some(request.request_id));
    match &request.kind {
        ResourceActionKind::ApplyResource { namespace, name, .. } => {
            assert_eq!(namespace.as_deref(), Some("production"));
            assert_eq!(name, "example-job");
        }
        other => panic!("unexpected request {other:?}"),
    }

    panel.apply_event(
        ResourceUiEvent::ResourceActionCompleted {
            request,
            result: Ok(ResourceActionOutcome::Applied(job_summary_with_name("production", "example-job"))),
        },
        NOW,
    );
    assert!(panel.state.create_dialog.is_none());
    assert_eq!(panel.state.action_error, None);
    assert_eq!(panel.state.rows[0].key, "production/example-job");
}

#[test]
fn create_without_a_name_shows_the_parse_error() {
    let mut panel = JobResourcePanel::new();
    panel.state.open_create_dialog("kind: Job\n".to_owned());

    let request = panel.state.submit_create(ClusterId::new("local"), job_metadata(), Ok(json(r#"{"kind": "Job"}"#)));
    assert!(request.is_none());
    assert_eq!(
        panel.state.create_dialog.as_ref().unwrap().parse_error.as_deref(),
        Some("metadata.name is required")
    );

    let request = panel.state.submit_create(ClusterId::new("local"), job_metadata(), Err("bad yaml".to_owned()));
    assert!(request.is_none());
    assert_eq!(panel.state.create_dialog.as_ref().unwrap().parse_error.as_deref(), Some("bad yaml"));
    assert_eq!(panel.state.action_request_id, None);

    panel.state.cancel_create();
    assert!(panel.state.create_dialog.is_none());
}

#[test]
fn confirmed_deletes_send_requests_for_their_targets() {
    let mut panel = JobResourcePanel::new();
    let row = job_row();
    let key = row.key.clone();
    panel.state.rows = vec![row, JobRow::from_summary(job_summary_with_name("production", "worker"), NOW)];

    assert!(panel.state.submit_delete(ClusterId::new("local"), job_metadata()).is_none());
    panel.state.open_delete_dialog(&key);
    let request = panel.state.submit_delete(ClusterId::new("local"), job_metadata()).unwrap();
    assert_eq!(
        request.kind,
        ResourceActionKind::DeleteResource {
            resource: job_metadata().resource,
            namespace: Some("default".to_owned()),
            name: "backup".to_owned(),
        }
    );
    assert_eq!(panel.state.action_request_id, Some(request.request_id));
    assert!(panel.state.delete_dialog.is_some());

    panel.state.open_batch_delete_dialog();
    assert!(panel.state.batch_delete_dialog.is_none());
    panel.state.selected_rows.insert(&key);
    panel.state.selected_rows.insert("production/worker");
    panel.state.open_batch_delete_dialog();
    let batch = panel.state.submit_batch_delete(ClusterId::new("local"), job_metadata()).unwrap();
    match batch.kind {
        ResourceActionKind::BatchDeleteResources { targets, .. } => assert_eq!(targets.len(), 2),
        other => panic!("unexpected request {other:?}"),
    }
    assert!(batch.request_id > request.request_id);
    panel.state.cancel_batch_delete();
    panel.state.cancel_delete();
    assert!(panel.state.batch_delete_dialog.is_none());
    assert!(panel.state.delete_dialog.is_none());
}

#[test]
fn clicking_a_row_selects_only_that_row() {
    let mut panel = JobResourcePanel::new();
    let first = job_row();
    let second = JobRow::from_summary(job_summary_with_name("default", "restore"), NOW);
    let (a, b) = (first.key.clone(), second.key.clone());
    panel.state.rows = vec![first, second];
    panel.state.set_row_selected(&a, true);
    panel.state.set_row_selected(&b, true);
    assert_eq!(panel.state.selected_rows.keys.len(), 2);
    panel.state.select_only_row(&b);
    assert_eq!(panel.state.selected_rows.keys, vec![b.clone()]);
    panel.state.select_only_row("default/missing");
    assert_eq!(panel.state.selected_rows.keys, vec![b.clone()]);
}

#[test]
fn row_checkbox_toggles_selection() {
    let mut panel = JobResourcePanel::new();
    let row = job_row();
    let key = row.key.clone();
    panel.state.rows = vec![row];
    panel.state.set_row_selected(&key, true);
    assert!(panel.state.selected_rows.contains(&key));
    panel.state.set_row_selected(&key, false);
    assert!(!panel.state.selected_rows.contains(&key));
    panel.state.set_row_selected("default/missing", true);
    assert!(panel.state.selected_rows.keys.is_empty());
}

#[test]
fn upserted_jobs_stay_sorted_with_one_row_per_key() {
    let mut panel = JobResourcePanel::new();
    panel.state.upsert_row(JobRow::from_summary(job_summary_with_name("prod", "b"), NOW));
    panel.state.upsert_row(JobRow::from_summary(job_summary_with_name("default", "z"), NOW));
    panel.state.upsert_row(JobRow::from_summary(job_summary_with_name("prod", "a"), NOW));
    panel.state.upsert_row(JobRow::from_summary(job_summary_with_name("prod", "b"), NOW));
    let names: Vec<(String, String)> =
        panel.state.rows.iter().map(|r| (r.namespace.clone(), r.name.clone())).collect();
    assert_eq!(
        names,
        vec![
            ("default".to_owned(), "z".to_owned()),
            ("prod".to_owned(), "a".to_owned()),
            ("prod".to_owned(), "b".to_owned()),
        ]
    );
}

#[test]
fn search_lists_each_matching_row_once_in_order() {
    let mut panel = JobResourcePanel::new();
    panel.state.rows = vec![
        JobRow::from_summary(job_summary_with_name("default", "alpha"), NOW),
        JobRow::from_summary(job_summary_with_name("default", "beta"), NOW),
        JobRow::from_summary(job_summary_with_name("default", "alphabet"), NOW),
    ];
    panel.state.search_text = " ALPHA ".to_owned();
    assert_eq!(panel.state.filtered_row_indices(), vec![0, 2]);
    panel.state.search_text = String::new();
    assert_eq!(panel.state.filtered_row_indices(), vec![0, 1, 2]);
}

#[test]
fn create_dialog_yaml_is_parsed_and_sent() {
    let mut panel = JobResourcePanel::new();
    panel.state.namespace_filter = Some("production".to_owned());
    panel.state.open_create_dialog(default_resource_yaml(job_metadata(), Some("production")));
    let request = panel.state.submit_create_yaml(ClusterId::new("local"), job_metadata()).unwrap();
    match &request.kind {
        ResourceActionKind::ApplyResource { namespace, name, .. } => {
            assert_eq!(namespace.as_deref(), Some("production"));
            assert_eq!(name, "example-job");
        }
        other => panic!("unexpected request {other:?}"),
    }
    assert_eq!(panel.state.action_request_id, Some(request.request_id));
}

#[test]
fn create_dialog_with_malformed_yaml_shows_the_parse_error() {
    let mut panel = JobResourcePanel::new();
    panel.state.open_create_dialog("kind: [unclosed".to_owned());
    assert!(panel.state.submit_create_yaml(ClusterId::new("local"), job_metadata()).is_none());
    let dialog = panel.state.create_dialog.as_ref().unwrap();
    assert_eq!(dialog.yaml, "kind: [unclosed");
    assert!(dialog.parse_error.as_deref().map_or(false, |e| !e.is_empty()));
    assert_eq!(panel.state.action_request_id, None);
}
