use miku_ui::json::{JsonNumber, JsonValue};
use miku_ui::resource_panel::components::{parse_resource_apply, ResourceMetadata};
use miku_ui::yaml::parse_resource_apply_yaml;
use miku_ui::resource_panel::templates::{dashed_id, default_resource_yaml};
use miku_ui::resource_panel::ResourceRef;

fn from_serde(value: &serde_json::Value) -> JsonValue {
    match value {
        serde_json::Value::Null => JsonValue::Null,
        serde_json::Value::Bool(b) => JsonValue::Bool(*b),
        serde_json::Value::Number(n) => match (n.as_u64(), n.as_i64()) {
            (Some(u), _) => JsonValue::Number(JsonNumber::PosInt(u)),
            (None, Some(i)) => JsonValue::Number(JsonNumber::NegInt(i)),
            _ => JsonValue::Number(JsonNumber::Float(n.to_string())),
        },
        serde_json::Value::String(s) => JsonValue::String(s.clone()),
        serde_json::Value::Array(items) => JsonValue::Array(items.iter().map(from_serde).collect()),
        serde_json::Value::Object(map) => {
            JsonValue::Object(map.iter().map(|(k, v)| (k.clone(), from_serde(v))).collect())
        }
    }
}

fn to_serde(value: &JsonValue) -> serde_json::Value {
    match value {
        JsonValue::Null => serde_json::Value::Null,
        JsonValue::Bool(b) => serde_json::Value::Bool(*b),
        JsonValue::Number(JsonNumber::PosInt(u)) => serde_json::Value::from(*u),
        JsonValue::Number(JsonNumber::NegInt(i)) => serde_json::Value::from(*i),
        JsonValue::Number(JsonNumber::Float(t)) => serde_json::from_str(t).unwrap(),
        JsonValue::String(s) => serde_json::Value::String(s.clone()),
        JsonValue::Array(items) => serde_json::Value::Array(items.iter().map(to_serde).collect()),
        JsonValue::Object(entries) => serde_json::Value::Object(
            entries.iter().map(|(k, v)| (k.clone(), to_serde(v))).collect(),
        ),
    }
}

fn json(text: &str) -> JsonValue {
    from_serde(&serde_json::from_str::<serde_json::Value>(text).unwrap())
}

fn metadata(id: &str, api_version: &str, kind: &str, namespaced: bool) -> ResourceMetadata {
    ResourceMetadata {
        id: id.to_owned(),
        title: format!("{kind}s"),
        api_version: api_version.to_owned(),
        kind: kind.to_owned(),
        resource: ResourceRef::core_api(api_version, &format!("{}s", kind.to_lowercase())),
        namespaced,
    }
}

fn builtin_template_kinds() -> Vec<(&'static str, &'static str, &'static str, bool)> {
    vec![
        ("deployment", "apps/v1", "Deployment", true),
        ("daemon_set", "apps/v1", "DaemonSet", true),
        ("stateful_set", "apps/v1", "StatefulSet", true),
        ("replica_set", "apps/v1", "ReplicaSet", true),
        ("job", "batch/v1", "Job", true),
        ("service", "v1", "Service", true),
        ("endpoint_slice", "discovery.k8s.io/v1", "EndpointSlice", true),
        ("ingress", "networking.k8s.io/v1", "Ingress", true),
        ("network_policy", "networking.k8s.io/v1", "NetworkPolicy", true),
        ("persistent_volume_claim", "v1", "PersistentVolumeClaim", true),
        ("persistent_volume", "v1", "PersistentVolume", false),
        ("storage_class", "storage.k8s.io/v1", "StorageClass", false),
        ("horizontal_pod_autoscaler", "autoscaling/v2", "HorizontalPodAutoscaler", true),
        ("pod_disruption_budget", "policy/v1", "PodDisruptionBudget", true),
        ("priority_class", "scheduling.k8s.io/v1", "PriorityClass", false),
        ("runtime_class", "node.k8s.io/v1", "RuntimeClass", false),
        ("lease", "coordination.k8s.io/v1", "Lease", true),
        ("resource_quota", "v1", "ResourceQuota", true),
        ("limit_range", "v1", "LimitRange", true),
        ("role", "rbac.authorization.k8s.io/v1", "Role", true),
        ("cluster_role", "rbac.authorization.k8s.io/v1", "ClusterRole", false),
        ("role_binding", "rbac.authorization.k8s.io/v1", "RoleBinding", true),
        ("cluster_role_binding", "rbac.authorization.k8s.io/v1", "ClusterRoleBinding", false),
        ("custom_resource_definition", "apiextensions.k8s.io/v1", "CustomResourceDefinition", false),
    ]
}

fn parse(yaml: &str, namespaced: bool, default: Option<&str>) -> Result<(Option<String>, String, serde_json::Value), String> {
    parse_resource_apply_yaml(yaml, namespaced, default).map(|parsed| (parsed.namespace, parsed.name, to_serde(&parsed.manifest)))
}

fn assert_builtin_required_fields(kind: &str, manifest: &serde_json::Value) {
    match kind {
        "Deployment" | "DaemonSet" | "ReplicaSet" => {
            assert!(manifest.pointer("/spec/selector/matchLabels").is_some());
            assert!(manifest.pointer("/spec/template/spec/containers/0/image").is_some());
        }
        "StatefulSet" => {
            assert!(manifest.pointer("/spec/serviceName").is_some());
            assert!(manifest.pointer("/spec/template/spec/containers/0/image").is_some());
        }
        "Job" => {
            assert_eq!(
                manifest.pointer("/spec/template/spec/restartPolicy"),
                Some(&serde_json::Value::String("Never".to_owned()))
            );
            assert!(manifest.pointer("/spec/template/spec/containers/0/image").is_some());
        }
        "Service" => assert!(manifest.pointer("/spec/ports/0/port").is_some()),
        "EndpointSlice" => {
            assert!(manifest.pointer("/addressType").is_some());
            assert!(manifest.pointer("/endpoints").is_some());
        }
        "Ingress" => assert!(manifest.pointer("/spec/rules/0/http/paths/0/backend").is_some()),
        "NetworkPolicy" => assert!(manifest.pointer("/spec/podSelector").is_some()),
        "PersistentVolumeClaim" => assert!(manifest.pointer("/spec/resources/requests/storage").is_some()),
        "PersistentVolume" => {
            assert!(manifest.pointer("/spec/capacity/storage").is_some());
            assert!(manifest.pointer("/spec/hostPath/path").is_some());
        }
        "StorageClass" => assert!(manifest.pointer("/provisioner").is_some()),
        "HorizontalPodAutoscaler" => {
            assert!(manifest.pointer("/spec/scaleTargetRef/name").is_some());
            assert!(manifest.pointer("/spec/maxReplicas").is_some());
        }
        "PodDisruptionBudget" => assert!(manifest.pointer("/spec/selector").is_some()),
        "PriorityClass" => assert!(manifest.pointer("/value").is_some()),
        "RuntimeClass" => assert!(manifest.pointer("/handler").is_some()),
        "Lease" => assert!(manifest.pointer("/spec/leaseDurationSeconds").is_some()),
        "ResourceQuota" => assert!(manifest.pointer("/spec/hard/pods").is_some()),
        "LimitRange" => assert!(manifest.pointer("/spec/limits/0/type").is_some()),
        "Role" | "ClusterRole" => assert!(manifest.pointer("/rules/0/verbs/0").is_some()),
        "RoleBinding" | "ClusterRoleBinding" => {
            assert!(manifest.pointer("/subjects/0/kind").is_some());
            assert!(manifest.pointer("/roleRef/name").is_some());
        }
        "CustomResourceDefinition" => {
            assert!(manifest.pointer("/spec/group").is_some());
            assert!(manifest.pointer("/spec/versions/0/schema/openAPIV3Schema").is_some());
        }
        other => panic!("missing required field assertions for {other}"),
    }
}

#[test]
fn default_builtin_resource_yamls_parse_and_include_required_specs() {
    for (id, api_version, kind, namespaced) in builtin_template_kinds() {
        let yaml = default_resource_yaml(metadata(id, api_version, kind, namespaced), Some("production"));
        let (namespace, _name, manifest) = parse(&yaml, namespaced, Some("fallback")).unwrap();

        assert_eq!(manifest["apiVersion"], api_version);
        assert_eq!(manifest["kind"], kind);
        if namespaced {
            assert_eq!(namespace.as_deref(), Some("production"));
        } else {
            assert_eq!(namespace, None);
        }
        assert_builtin_required_fields(kind, &manifest);
    }
}

#[test]
fn generic_default_yaml_names_an_example_object() {
    let namespaced = default_resource_yaml(metadata("config_map", "v1", "ConfigMap", true), None);
    assert_eq!(namespaced, "apiVersion: v1\nkind: ConfigMap\nmetadata:\n  name: example-config-map\n  namespace: default\n");

    let cluster = default_resource_yaml(metadata("node", "v1", "Node", false), Some("ignored"));
    assert_eq!(cluster, "apiVersion: v1\nkind: Node\nmetadata:\n  name: example-node\n");
    assert_eq!(dashed_id("custom_resource_instance_widgets"), "custom-resource-instance-widgets");
}

#[test]
fn applying_requires_a_name_and_keeps_parse_errors() {
    let missing = parse("apiVersion: v1\nkind: ConfigMap\nmetadata: {}\n", true, Some("default"));
    assert_eq!(missing, Err("metadata.name is required".to_owned()));

    let blank = parse("metadata:\n  name: \"  \"\n", true, Some("default"));
    assert_eq!(blank, Err("metadata.name is required".to_owned()));

    let parse_error = parse_resource_apply(Err("bad yaml".to_owned()), true, None);
    assert_eq!(parse_error.err(), Some("bad yaml".to_owned()));
}

#[test]
fn applying_uses_the_default_namespace_for_namespaced_kinds_only() {
    let (namespace, name, _) = parse("metadata:\n  name: demo\n", true, Some("fallback")).unwrap();
    assert_eq!(namespace.as_deref(), Some("fallback"));
    assert_eq!(name, "demo");

    let (namespace, _, _) = parse("metadata:\n  name: demo\n  namespace: \" \"\n", true, Some("fallback")).unwrap();
    assert_eq!(namespace.as_deref(), Some("fallback"));

    let (namespace, _, _) = parse("metadata:\n  name: demo\n  namespace: team\n", false, Some("fallback")).unwrap();
    assert_eq!(namespace, None);
}
