use miku_ui::json::{JsonNumber, JsonValue};
use miku_ui::resource_panel::components::{
    GenericCreateDialog, GenericDeleteDialog, GenericEditDialog, ResourceRowTarget,
};
use miku_ui::resource_panel::custom_resources::{
    crd_metadata, custom_resource_instance_key, custom_resource_instance_row_from_summary,
    custom_resource_kind_from_title, custom_resource_namespace_target, custom_resource_row_from_summary,
    custom_resource_rows_from_items, CustomResourceExpandDialog, CustomResourceInstanceRow, CustomResourcesPanel,
};
use miku_ui::resource_panel::state::PanelState;
use miku_ui::resource_panel::templates::default_resource_yaml;
use miku_ui::resource_panel::{
    ClusterId, ResourceActionKind, ResourceActionOutcome, ResourceActionRequest, ResourceDeleteTarget, ResourceRef,
    ResourceSummary, ResourceUiEvent,
};

const NOW: i64 = 1_800_000_000;

fn from_serde(value: &serde_json::Value) -> JsonValue {
    match value {
        serde_json::Value::Null => JsonValue::Null,
        serde_json::Value::Bool(b) => JsonValue::Bool(*b),
        serde_json::Value::Number(n) => match (n.as_u64(), n.as_i64()) {
            (Some(u), _) => JsonValue::Number(JsonNumber::PosInt(u)),
            (None, Some(i)) => JsonValue::Number(JsonNumber::NegInt(i)),
            _ => JsonValue::Number(JsonNumber::Float(n.to_string())),
        },
        serde_json::Value::String(s) => JsonValue::String(s.clone()),
        serde_json::Value::Array(items) => JsonValue::Array(items.iter().map(from_serde).collect()),
        serde_json::Value::Object(map) => {
            JsonValue::Object(map.iter().map(|(k, v)| (k.clone(), from_serde(v))).collect())
        }
    }
}

fn to_serde(value: &JsonValue) -> serde_json::Value {
    match value {
        JsonValue::Null => serde_json::Value::Null,
        JsonValue::Bool(b) => serde_json::Value::Bool(*b),
        JsonValue::Number(JsonNumber::PosInt(u)) => serde_json::Value::from(*u),
        JsonValue::Number(JsonNumber::NegInt(i)) => serde_json::Value::from(*i),
        JsonValue::Number(JsonNumber::Float(t)) => serde_json::from_str(t).unwrap(),
        JsonValue::String(s) => serde_json::Value::String(s.clone()),
        JsonValue::Array(items) => serde_json::Value::Array(items.iter().map(to_serde).collect()),
        JsonValue::Object(entries) => serde_json::Value::Object(
            entries.iter().map(|(k, v)| (k.clone(), to_serde(v))).collect(),
        ),
    }
}

fn json(text: &str) -> JsonValue {
    from_serde(&serde_json::from_str::<serde_json::Value>(text).unwrap())
}

fn widget_resource_ref() -> ResourceRef {
    ResourceRef::grouped("example.com", "v1", "widgets")
}

fn widget_instance_row(namespace: Option<&str>, name: &str, status: &str, raw: JsonValue) -> CustomResourceInstanceRow {
    CustomResourceInstanceRow {
        key: custom_resource_instance_key(namespace, name),
        name: name.to_owned(),
        namespace: namespace.unwrap_or("N/A").to_owned(),
        kind: "Widget".to_owned(),
        status: status.to_owned(),
        age: "1d".to_owned(),
        raw,
    }
}

fn widget_expand_dialog(rows: Vec<CustomResourceInstanceRow>) -> CustomResourceExpandDialog {
    let mut table = PanelState::new();
    table.rows = rows;
    CustomResourceExpandDialog {
        crd_key: "widgets.example.com".to_owned(),
        title: "Widget (widgets.example.com)".to_owned(),
        resource: Some(widget_resource_ref()),
        namespaced: true,
        table,
    }
}

fn panel_with(dialog: CustomResourceExpandDialog) -> CustomResourcesPanel {
    let mut panel = CustomResourcesPanel::new();
    panel.expand_dialog = Some(dialog);
    panel
}

fn resource_action_request(request_id: u64, kind: ResourceActionKind) -> ResourceActionRequest {
    ResourceActionRequest { request_id, cluster_id: ClusterId::new("local"), kind }
}

#[test]
fn custom_resource_rows_include_crd_table_fields() {
    let items = vec![ResourceSummary {
        name: "widgets.example.com".to_owned(),
        namespace: None,
        kind: "CustomResourceDefinition".to_owned(),
        status: None,
        raw: json(
            r#"{
                "metadata": {"name": "widgets.example.com", "creationTimestamp": "2026-05-20T10:00:00Z"},
                "spec": {
                    "group": "example.com",
                    "scope": "Namespaced",
                    "names": {"kind": "Widget", "plural": "widgets"},
                    "versions": [
                        { "name": "v1beta1", "served": true, "storage": false },
                        { "name": "v1", "served": true, "storage": true },
                        { "name": "v1alpha1", "served": false, "storage": false }
                    ]
                }
            }"#,
        ),
    }];

    let rows = custom_resource_rows_from_items(&items, NOW);

    assert_eq!(rows.len(), 1);
    assert_eq!(rows[0].name, "widgets.example.com");
    assert_eq!(rows[0].group, "example.com");
    assert_eq!(rows[0].kind, "Widget");
    assert_eq!(rows[0].plural, "widgets");
    assert_eq!(rows[0].scope, "Namespaced");
    assert_eq!(rows[0].versions, "v1beta1, v1 (storage)");
    assert_eq!(rows[0].storage_version.as_deref(), Some("v1"));
}

#[test]
fn custom_resource_row_uses_first_served_version_when_storage_is_missing() {
    let row = custom_resource_row_from_summary(
        &ResourceSummary {
            name: "gadgets.example.com".to_owned(),
            namespace: None,
            kind: "CustomResourceDefinition".to_owned(),
            status: None,
            raw: json(
                r#"{
                    "metadata": { "name": "gadgets.example.com" },
                    "spec": {
                        "group": "example.com",
                        "scope": "Cluster",
                        "names": {"kind": "Gadget", "plural": "gadgets"},
                        "versions": [
                            { "name": "v1alpha1", "served": false },
                            { "name": "v1beta1", "served": true },
                            { "name": "v1", "served": true }
                        ]
                    }
                }"#,
            ),
        },
        NOW,
    );

    assert_eq!(row.storage_version.as_deref(), Some("v1beta1"));
    assert_eq!(row.resource_ref(), Some(ResourceRef::grouped("example.com", "v1beta1", "gadgets").cluster_scoped()));
}

#[test]
fn custom_resource_instance_row_extracts_table_fields_and_keeps_raw() {
    let raw_text = r#"{
        "metadata": {"name": "demo", "namespace": "default", "creationTimestamp": "2026-05-20T10:00:00Z"},
        "spec": { "size": "small" }
    }"#;
    let row = custom_resource_instance_row_from_summary(
        ResourceSummary {
            name: "demo".to_owned(),
            namespace: Some("default".to_owned()),
            kind: "Widget".to_owned(),
            status: Some("Ready".to_owned()),
            raw: json(raw_text),
        },
        NOW,
    );

    assert_eq!(row.key, "default/demo");
    assert_eq!(row.name, "demo");
    assert_eq!(row.namespace, "default");
    assert_eq!(row.kind, "Widget");
    assert_eq!(row.status, "Ready");
    assert_eq!(row.raw, json(raw_text));
}

#[test]
fn crd_metadata_uses_generic_crd_resource() {
    let metadata = crd_metadata();

    assert_eq!(metadata.id, "custom_resource_definition");
    assert_eq!(metadata.api_version, "apiextensions.k8s.io/v1");
    assert_eq!(metadata.kind, "CustomResourceDefinition");
    assert!(!metadata.namespaced);
    assert_eq!(
        metadata.resource,
        ResourceRef::grouped("apiextensions.k8s.io", "v1", "customresourcedefinitions").cluster_scoped()
    );
}

#[test]
fn expanded_custom_resource_metadata_uses_dynamic_kind_and_scope() {
    let dialog = widget_expand_dialog(Vec::new());

    let metadata = dialog.resource_metadata().unwrap();

    assert_eq!(metadata.api_version, "example.com/v1");
    assert_eq!(metadata.kind, "Widget");
    assert!(metadata.namespaced);
    assert!(default_resource_yaml(metadata, Some("demo-ns")).contains("namespace: demo-ns"));
}

#[test]
fn selected_custom_resource_instance_targets_preserve_namespaces() {
    let mut dialog = widget_expand_dialog(vec![
        widget_instance_row(Some("default"), "demo", "Ready", JsonValue::Object(Vec::new())),
        widget_instance_row(None, "cluster-demo", "Ready", JsonValue::Object(Vec::new())),
    ]);
    dialog.table.selected_rows.insert(&custom_resource_instance_key(Some("default"), "demo"));
    dialog.table.selected_rows.insert(&custom_resource_instance_key(None, "cluster-demo"));

    let targets = dialog.table.selected_delete_targets();

    assert_eq!(
        targets,
        vec![
            ResourceDeleteTarget { namespace: Some("default".to_owned()), name: "demo".to_owned() },
            ResourceDeleteTarget { namespace: None, name: "cluster-demo".to_owned() }
        ]
    );

    dialog.table.replace_rows(vec![]);
    assert_eq!(dialog.table.selected_rows.len(), 0);
}

#[test]
fn custom_resource_instance_edit_action_opens_edit_dialog() {
    let key = custom_resource_instance_key(Some("default"), "demo");
    let raw_text = r#"{
        "metadata": {"name": "demo", "namespace": "default", "resourceVersion": "42", "managedFields": []},
        "spec": { "size": "small" },
        "status": { "ready": true }
    }"#;
    let mut panel = panel_with(widget_expand_dialog(vec![widget_instance_row(
        Some("default"),
        "demo",
        "Ready",
        json(raw_text),
    )]));

    let yaml = miku_ui::yaml::editable_resource_yaml(json(raw_text));
    panel.expand_dialog.as_mut().unwrap().table.open_edit_dialog(&key, yaml);

    let dialog = panel.expand_dialog.as_ref().and_then(|dialog| dialog.table.edit_dialog.as_ref()).unwrap();
    assert_eq!(
        dialog.target,
        ResourceRowTarget { key, namespace: Some("default".to_owned()), name: "demo".to_owned() }
    );
    assert!(dialog.yaml.contains("spec:"));
    assert!(!dialog.yaml.contains("resourceVersion"));
    assert!(!dialog.yaml.contains("managedFields"));
    assert!(!dialog.yaml.contains("status:"));
}

#[test]
fn custom_resource_instance_delete_action_opens_delete_dialog() {
    let key = custom_resource_instance_key(Some("default"), "demo");
    let mut panel = panel_with(widget_expand_dialog(vec![widget_instance_row(
        Some("default"),
        "demo",
        "Ready",
        JsonValue::Object(Vec::new()),
    )]));

    panel.expand_dialog.as_mut().unwrap().table.open_delete_dialog(&key);

    let dialog = panel.expand_dialog.as_ref().and_then(|dialog| dialog.table.delete_dialog.as_ref()).unwrap();
    assert_eq!(dialog.target, ResourceDeleteTarget { namespace: Some("default".to_owned()), name: "demo".to_owned() });
}

#[test]
fn expanded_custom_resource_apply_completion_closes_edit_and_upserts_row() {
    let key = custom_resource_instance_key(Some("default"), "demo");
    let mut panel = panel_with(widget_expand_dialog(vec![widget_instance_row(
        Some("default"),
        "demo",
        "Pending",
        json(r#"{"metadata": { "name": "demo", "namespace": "default" }, "spec": { "size": "small" }}"#),
    )]));
    let dialog = panel.expand_dialog.as_mut().unwrap();
    dialog.table.action_request_id = Some(7);
    dialog.table.create_dialog = Some(GenericCreateDialog { yaml: String::new(), parse_error: None });
    dialog.table.edit_dialog = Some(GenericEditDialog {
        target: ResourceRowTarget { key, namespace: Some("default".to_owned()), name: "demo".to_owned() },
        yaml: String::new(),
        parse_error: None,
    });
    let updated_raw = r#"{"metadata": { "name": "demo", "namespace": "default" }, "spec": { "size": "large" }}"#;

    panel.apply_event(
        ResourceUiEvent::ResourceActionCompleted {
            request: resource_action_request(
                7,
                ResourceActionKind::ApplyResource {
                    resource: widget_resource_ref(),
                    namespace: Some("default".to_owned()),
                    name: "demo".to_owned(),
                    manifest: JsonValue::Object(Vec::new()),
                },
            ),
            result: Ok(ResourceActionOutcome::Applied(ResourceSummary {
                name: "demo".to_owned(),
                namespace: Some("default".to_owned()),
                kind: "Widget".to_owned(),
                status: Some("Ready".to_owned()),
                raw: json(updated_raw),
            })),
        },
        NOW,
    );

    let dialog = panel.expand_dialog.as_ref().unwrap();
    assert!(dialog.table.create_dialog.is_none());
    assert!(dialog.table.edit_dialog.is_none());
    assert!(dialog.table.action_error.is_none());
    assert_eq!(dialog.table.rows.len(), 1);
    assert_eq!(dialog.table.rows[0].status, "Ready");
    assert_eq!(dialog.table.rows[0].raw, json(updated_raw));
}

#[test]
fn expanded_custom_resource_delete_completion_closes_dialog_and_removes_selection() {
    let key = custom_resource_instance_key(Some("default"), "demo");
    let mut panel = panel_with(widget_expand_dialog(vec![widget_instance_row(
        Some("default"),
        "demo",
        "Ready",
        JsonValue::Object(Vec::new()),
    )]));
    let dialog = panel.expand_dialog.as_mut().unwrap();
    dialog.table.action_request_id = Some(9);
    dialog.table.selected_rows.insert(&key);
    dialog.table.delete_dialog = Some(GenericDeleteDialog {
        target: ResourceDeleteTarget { namespace: Some("default".to_owned()), name: "demo".to_owned() },
    });

    panel.apply_event(
        ResourceUiEvent::ResourceActionCompleted {
            request: resource_action_request(
                9,
                ResourceActionKind::DeleteResource {
                    resource: widget_resource_ref(),
                    namespace: Some("default".to_owned()),
                    name: "demo".to_owned(),
                },
            ),
            result: Ok(ResourceActionOutcome::Deleted),
        },
        NOW,
    );

    let dialog = panel.expand_dialog.as_ref().unwrap();
    assert!(dialog.table.delete_dialog.is_none());
    assert!(dialog.table.rows.is_empty());
    assert_eq!(dialog.table.selected_rows.len(), 0);
    assert!(dialog.table.action_error.is_none());
}

#[test]
fn expanded_custom_resource_action_error_keeps_active_dialog_open() {
    let key = custom_resource_instance_key(Some("default"), "demo");
    let mut panel = panel_with(widget_expand_dialog(vec![widget_instance_row(
        Some("default"),
        "demo",
        "Ready",
        JsonValue::Object(Vec::new()),
    )]));
    let dialog = panel.expand_dialog.as_mut().unwrap();
    dialog.table.action_request_id = Some(11);
    dialog.table.edit_dialog = Some(GenericEditDialog {
        target: ResourceRowTarget { key, namespace: Some("default".to_owned()), name: "demo".to_owned() },
        yaml: String::new(),
        parse_error: None,
    });

    panel.apply_event(
        ResourceUiEvent::ResourceActionCompleted {
            request: resource_action_request(
                11,
                ResourceActionKind::ApplyResource {
                    resource: widget_resource_ref(),
                    namespace: Some("default".to_owned()),
                    name: "demo".to_owned(),
                    manifest: JsonValue::Object(Vec::new()),
                },
            ),
            result: Err("apply denied".to_owned()),
        },
        NOW,
    );

    let dialog = panel.expand_dialog.as_ref().unwrap();
    assert!(dialog.table.edit_dialog.is_some());
    assert_eq!(dialog.table.action_error.as_deref(), Some("apply denied"));
}

#[test]
fn custom_resource_titles_and_namespaces() {
    assert_eq!(custom_resource_kind_from_title("Widget (widgets.example.com)"), "Widget");
    assert_eq!(custom_resource_kind_from_title("Widget"), "Widget");
    assert_eq!(custom_resource_namespace_target("default"), Some("default".to_owned()));
    assert_eq!(custom_resource_namespace_target("N/A"), None);
    assert_eq!(custom_resource_instance_key(None, "cluster-demo"), "N/A/cluster-demo");
}

#[test]
fn expanding_a_definition_requests_its_objects() {
    let mut panel = CustomResourcesPanel::new();
    let load = panel.request_crd_load(ClusterId::new("local"));
    panel.apply_event(
        ResourceUiEvent::ResourcesLoaded {
            request: load,
            result: Ok(miku_ui::resource_panel::ResourceList {
                items: vec![ResourceSummary {
                    name: "widgets.example.com".to_owned(),
                    namespace: None,
                    kind: "CustomResourceDefinition".to_owned(),
                    status: None,
                    raw: json(
                        r#"{
                            "metadata": {"name": "widgets.example.com"},
                            "spec": {
                                "group": "example.com",
                                "scope": "Namespaced",
                                "names": {"kind": "Widget", "plural": "widgets"},
                                "versions": [{ "name": "v1", "served": true, "storage": true }]
                            }
                        }"#,
                    ),
                }],
                continue_token: None,
            }),
        },
        NOW,
    );
    assert_eq!(panel.crds.rows.len(), 1);

    let request = panel.expand("widgets.example.com", ClusterId::new("local")).unwrap();

    assert_eq!(
        request.kind,
        miku_ui::resource_panel::ResourceLoadKind::CustomResources { resource: widget_resource_ref() }
    );
    let dialog = panel.expand_dialog.as_ref().unwrap();
    assert_eq!(dialog.crd_key, "widgets.example.com");
    assert!(dialog.namespaced);
    assert!(panel.expand("missing.example.com", ClusterId::new("local")).is_none());
}

#[test]
fn custom_resource_instance_view_action_opens_view_dialog() {
    let key = custom_resource_instance_key(Some("default"), "demo");
    let mut panel = panel_with(widget_expand_dialog(vec![widget_instance_row(
        Some("default"),
        "demo",
        "Ready",
        JsonValue::Object(Vec::new()),
    )]));

    panel.open_instance_view_dialog(&key, "kind: Widget\n".to_owned());

    let dialog = panel.view_dialog.as_ref().unwrap();
    assert_eq!(dialog.key, "default/demo");
    assert_eq!(dialog.name, "demo");
    assert_eq!(dialog.yaml, "kind: Widget\n");
}
