//! The configuration panels (autoscalers, disruption budgets, priority and
//! runtime classes, leases, admission webhooks): one shared panel whose
//! columns and cells depend on the kind it shows.
use vstd::prelude::*;
use crate::resource_panel::state::{keys_distinct, law_upsert_keeps_table, row_keys};
use crate::resource_panel::table::upsert_views;
use crate::json::{JsonValue, display_text, json_as_array, json_as_bool, json_as_i64, json_as_str, json_get, opt_value};
use crate::resource_panel::{
    ClusterId, ResourceActionKind, ResourceActionOutcome, ResourceDeleteTarget, ResourceEvent,
    ResourceList, ResourceLoadKind, ResourceLoadRequest, ResourceRef, ResourceSummary,
    ResourceUiEvent, ResourceWatchRequest, copy_opt_text, opt_view, texts_view,
};
use crate::resource_panel::components::{
    at2, at3, at3_of, first_value, int_or_string, value_or_na,
    ManifestViewDialog, ResourceMetadata, ResourceRowTarget, age_spec, age_text, array_of,
    entry_lines, field_has, items_or_empty, join_or_na, join_texts, joined, joined_or_na,
    map_entries_spec, member, member_of, na, na_text, name_of_summary, namespace_of_summary,
    namespace_value, namespace_value_spec, or_empty, or_na, slash_join, slash_key,
    string_map_lines, summary_name, summary_namespace, text_of, text_or_empty, text_or_na,
};
use crate::resource_panel::job::{namespace_name_before, namespace_name_less};
use crate::resource_panel::state::{
    ActionEffect, ActionResult, PanelRow, PanelState, list_names_result, names_of_load, names_of_watch,
    watch_names_result,
};
use crate::resource_panel::table::{TableRow, sort_rows, sort_views, text_less, text_lt, views};
use crate::text::{
    has_infix, i64_to_string, lowercase, push_char, push_signed_decimal, push_str, signed_decimal,
    str_eq, to_lowercase, u64_to_string, decimal,
};


verus! {

/// The kinds of configuration objects the shared panel shows.
#[derive(Clone, Copy, Debug, PartialEq, Eq, Structural)]
pub enum ConfigResourceKind {
    HorizontalPodAutoscaler,
    PodDisruptionBudget,
    PriorityClass,
    RuntimeClass,
    Lease,
    MutatingWebhookConfiguration,
    ValidatingWebhookConfiguration,
}

/// The views of a list of static texts.
pub open spec fn strs_view(v: Seq<&str>) -> Seq<Seq<char>> {
    v.map_values(|s: &str| s@)
}

impl ConfigResourceKind {
    /// The panel id.
    pub open spec fn id_spec(self) -> Seq<char> {
        match self {
            ConfigResourceKind::HorizontalPodAutoscaler => "horizontal_pod_autoscaler"@,
            ConfigResourceKind::PodDisruptionBudget => "pod_disruption_budget"@,
            ConfigResourceKind::PriorityClass => "priority_class"@,
            ConfigResourceKind::RuntimeClass => "runtime_class"@,
            ConfigResourceKind::Lease => "lease"@,
            ConfigResourceKind::MutatingWebhookConfiguration => "mutating_webhook_configuration"@,
            ConfigResourceKind::ValidatingWebhookConfiguration => "validating_webhook_configuration"@,
        }
    }

    /// The panel id.
    pub fn id(self) -> (r: &'static str)
        ensures
            r@ == self.id_spec(),
    {
        match self {
            ConfigResourceKind::HorizontalPodAutoscaler => "horizontal_pod_autoscaler",
            ConfigResourceKind::PodDisruptionBudget => "pod_disruption_budget",
            ConfigResourceKind::PriorityClass => "priority_class",
            ConfigResourceKind::RuntimeClass => "runtime_class",
            ConfigResourceKind::Lease => "lease",
            ConfigResourceKind::MutatingWebhookConfiguration => "mutating_webhook_configuration",
            ConfigResourceKind::ValidatingWebhookConfiguration => "validating_webhook_configuration",
        }
    }

    /// The panel title.
    pub open spec fn title_spec(self) -> Seq<char> {
        match self {
            ConfigResourceKind::HorizontalPodAutoscaler => "HorizontalPodAutoscalers"@,
            ConfigResourceKind::PodDisruptionBudget => "PodDisruptionBudgets"@,
            ConfigResourceKind::PriorityClass => "PriorityClasses"@,
            ConfigResourceKind::RuntimeClass => "RuntimeClasses"@,
            ConfigResourceKind::Lease => "Leases"@,
            ConfigResourceKind::MutatingWebhookConfiguration => "MutatingWebhookConfigurations"@,
            ConfigResourceKind::ValidatingWebhookConfiguration => "ValidatingWebhookConfigurations"@,
        }
    }

    /// The panel title.
    pub fn title(self) -> (r: &'static str)
        ensures
            r@ == self.title_spec(),
    {
        match self {
            ConfigResourceKind::HorizontalPodAutoscaler => "HorizontalPodAutoscalers",
            ConfigResourceKind::PodDisruptionBudget => "PodDisruptionBudgets",
            ConfigResourceKind::PriorityClass => "PriorityClasses",
            ConfigResourceKind::RuntimeClass => "RuntimeClasses",
            ConfigResourceKind::Lease => "Leases",
            ConfigResourceKind::MutatingWebhookConfiguration => "MutatingWebhookConfigurations",
            ConfigResourceKind::ValidatingWebhookConfiguration => "ValidatingWebhookConfigurations",
        }
    }

    /// Autoscalers, disruption budgets and leases live in namespaces; the
    /// other kinds are cluster scoped.
    pub open spec fn namespaced_spec(self) -> bool {
        match self {
            ConfigResourceKind::HorizontalPodAutoscaler => true,
            ConfigResourceKind::PodDisruptionBudget => true,
            ConfigResourceKind::Lease => true,
            _ => false,
        }
    }

    /// Whether the kind's objects live in namespaces.
    pub fn is_namespaced(self) -> (r: bool)
        ensures
            r == self.namespaced_spec(),
    {
        match self {
            ConfigResourceKind::HorizontalPodAutoscaler => true,
            ConfigResourceKind::PodDisruptionBudget => true,
            ConfigResourceKind::Lease => true,
            _ => false,
        }
    }

    /// The manifest kind.
    pub open spec fn singular_kind_spec(self) -> Seq<char> {
        match self {
            ConfigResourceKind::HorizontalPodAutoscaler => "HorizontalPodAutoscaler"@,
            ConfigResourceKind::PodDisruptionBudget => "PodDisruptionBudget"@,
            ConfigResourceKind::PriorityClass => "PriorityClass"@,
            ConfigResourceKind::RuntimeClass => "RuntimeClass"@,
            ConfigResourceKind::Lease => "Lease"@,
            ConfigResourceKind::MutatingWebhookConfiguration => "MutatingWebhookConfiguration"@,
            ConfigResourceKind::ValidatingWebhookConfiguration => "ValidatingWebhookConfiguration"@,
        }
    }

    /// The manifest kind.
    pub fn singular_kind(self) -> (r: &'static str)
        ensures
            r@ == self.singular_kind_spec(),
    {
        match self {
            ConfigResourceKind::HorizontalPodAutoscaler => "HorizontalPodAutoscaler",
            ConfigResourceKind::PodDisruptionBudget => "PodDisruptionBudget",
            ConfigResourceKind::PriorityClass => "PriorityClass",
            ConfigResourceKind::RuntimeClass => "RuntimeClass",
            ConfigResourceKind::Lease => "Lease",
            ConfigResourceKind::MutatingWebhookConfiguration => "MutatingWebhookConfiguration",
            ConfigResourceKind::ValidatingWebhookConfiguration => "ValidatingWebhookConfiguration",
        }
    }

    /// The manifest apiVersion.
    pub open spec fn api_version_spec(self) -> Seq<char> {
        match self {
            ConfigResourceKind::HorizontalPodAutoscaler => "autoscaling/v2"@,
            ConfigResourceKind::PodDisruptionBudget => "policy/v1"@,
            ConfigResourceKind::PriorityClass => "scheduling.k8s.io/v1"@,
            ConfigResourceKind::RuntimeClass => "node.k8s.io/v1"@,
            ConfigResourceKind::Lease => "coordination.k8s.io/v1"@,
            ConfigResourceKind::MutatingWebhookConfiguration => "admissionregistration.k8s.io/v1"@,
            ConfigResourceKind::ValidatingWebhookConfiguration => "admissionregistration.k8s.io/v1"@,
        }
    }

    /// The manifest apiVersion.
    pub fn api_version(self) -> (r: &'static str)
        ensures
            r@ == self.api_version_spec(),
    {
        match self {
            ConfigResourceKind::HorizontalPodAutoscaler => "autoscaling/v2",
            ConfigResourceKind::PodDisruptionBudget => "policy/v1",
            ConfigResourceKind::PriorityClass => "scheduling.k8s.io/v1",
            ConfigResourceKind::RuntimeClass => "node.k8s.io/v1",
            ConfigResourceKind::Lease => "coordination.k8s.io/v1",
            ConfigResourceKind::MutatingWebhookConfiguration => "admissionregistration.k8s.io/v1",
            ConfigResourceKind::ValidatingWebhookConfiguration => "admissionregistration.k8s.io/v1",
        }
    }

    /// The API group and plural name of the kind's resource.
    pub open spec fn resource_spec(self) -> (Seq<char>, Seq<char>) {
        match self {
            ConfigResourceKind::HorizontalPodAutoscaler => ("autoscaling"@, "horizontalpodautoscalers"@),
            ConfigResourceKind::PodDisruptionBudget => ("policy"@, "poddisruptionbudgets"@),
            ConfigResourceKind::PriorityClass => ("scheduling.k8s.io"@, "priorityclasses"@),
            ConfigResourceKind::RuntimeClass => ("node.k8s.io"@, "runtimeclasses"@),
            ConfigResourceKind::Lease => ("coordination.k8s.io"@, "leases"@),
            ConfigResourceKind::MutatingWebhookConfiguration => ("admissionregistration.k8s.io"@, "mutatingwebhookconfigurations"@),
            ConfigResourceKind::ValidatingWebhookConfiguration => ("admissionregistration.k8s.io"@, "validatingwebhookconfigurations"@),
        }
    }

    /// The API version of the kind's resource.
    pub open spec fn resource_version_spec(self) -> Seq<char> {
        match self {
            ConfigResourceKind::HorizontalPodAutoscaler => "v2"@,
            _ => "v1"@,
        }
    }

    /// Whether `r` is the kind's resource.
    pub open spec fn is_resource(self, r: ResourceRef) -> bool {
        &&& opt_view(r.group) == Some(self.resource_spec().0)
        &&& r.version@ == self.resource_version_spec()
        &&& r.plural@ == self.resource_spec().1
        &&& r.namespaced == self.namespaced_spec()
    }

    /// The kind's API resource.
    pub fn resource_ref(self) -> (r: ResourceRef)
        ensures
            self.is_resource(r),
    {
        match self {
            ConfigResourceKind::HorizontalPodAutoscaler => ResourceRef::grouped("autoscaling", "v2", "horizontalpodautoscalers"),
            ConfigResourceKind::PodDisruptionBudget => ResourceRef::grouped("policy", "v1", "poddisruptionbudgets"),
            ConfigResourceKind::PriorityClass => ResourceRef::grouped("scheduling.k8s.io", "v1", "priorityclasses").cluster_scoped(),
            ConfigResourceKind::RuntimeClass => ResourceRef::grouped("node.k8s.io", "v1", "runtimeclasses").cluster_scoped(),
            ConfigResourceKind::Lease => ResourceRef::grouped("coordination.k8s.io", "v1", "leases"),
            ConfigResourceKind::MutatingWebhookConfiguration =>
                ResourceRef::grouped("admissionregistration.k8s.io", "v1", "mutatingwebhookconfigurations").cluster_scoped(),
            ConfigResourceKind::ValidatingWebhookConfiguration =>
                ResourceRef::grouped("admissionregistration.k8s.io", "v1", "validatingwebhookconfigurations").cluster_scoped(),
        }
    }

    /// What the panel shows.
    pub fn metadata(self) -> (r: ResourceMetadata)
        ensures
            r.id@ == self.id_spec(),
            r.title@ == self.title_spec(),
            r.api_version@ == self.api_version_spec(),
            r.kind@ == self.singular_kind_spec(),
            self.is_resource(r.resource),
            r.namespaced == self.namespaced_spec(),
    {
        ResourceMetadata {
            id: self.id().to_owned(),
            title: self.title().to_owned(),
            api_version: self.api_version().to_owned(),
            kind: self.singular_kind().to_owned(),
            resource: self.resource_ref(),
            namespaced: self.is_namespaced(),
        }
    }

    /// The table's column titles.
    pub open spec fn columns_spec(self) -> Seq<Seq<char>> {
        match self {
            ConfigResourceKind::HorizontalPodAutoscaler => seq![
                "Name"@, "Namespace"@, "Reference"@, "Targets"@, "Min"@, "Max"@, "Replicas"@, "Age"@,
            ],
            ConfigResourceKind::PodDisruptionBudget => seq![
                "Name"@, "Namespace"@, "Min Available"@, "Max Unavailable"@, "Allowed"@,
                "Current Healthy"@, "Desired Healthy"@, "Age"@,
            ],
            ConfigResourceKind::PriorityClass => seq![
                "Name"@, "Value"@, "Global Default"@, "Preemption Policy"@, "Description"@, "Age"@,
            ],
            ConfigResourceKind::RuntimeClass => seq!["Name"@, "Handler"@, "Overhead"@, "Scheduling"@, "Age"@],
            ConfigResourceKind::Lease => seq![
                "Name"@, "Namespace"@, "Holder"@, "Acquire Time"@, "Renew Time"@, "Duration"@,
                "Transitions"@, "Age"@,
            ],
            _ => seq![
                "Name"@, "Webhooks"@, "Failure Policy"@, "Side Effects"@, "Admission Review Versions"@, "Age"@,
            ],
        }
    }

    /// The table's column titles.
    pub fn columns(self) -> (r: Vec<&'static str>)
        ensures
            strs_view(r@) == self.columns_spec(),
    {
        let mut c: Vec<&'static str> = Vec::new();
        match self {
            ConfigResourceKind::HorizontalPodAutoscaler => {
                c.push("Name");
                c.push("Namespace");
                c.push("Reference");
                c.push("Targets");
                c.push("Min");
                c.push("Max");
                c.push("Replicas");
                c.push("Age");
            },
            ConfigResourceKind::PodDisruptionBudget => {
                c.push("Name");
                c.push("Namespace");
                c.push("Min Available");
                c.push("Max Unavailable");
                c.push("Allowed");
                c.push("Current Healthy");
                c.push("Desired Healthy");
                c.push("Age");
            },
            ConfigResourceKind::PriorityClass => {
                c.push("Name");
                c.push("Value");
                c.push("Global Default");
                c.push("Preemption Policy");
                c.push("Description");
                c.push("Age");
            },
            ConfigResourceKind::RuntimeClass => {
                c.push("Name");
                c.push("Handler");
                c.push("Overhead");
                c.push("Scheduling");
                c.push("Age");
            },
            ConfigResourceKind::Lease => {
                c.push("Name");
                c.push("Namespace");
                c.push("Holder");
                c.push("Acquire Time");
                c.push("Renew Time");
                c.push("Duration");
                c.push("Transitions");
                c.push("Age");
            },
            _ => {
                c.push("Name");
                c.push("Webhooks");
                c.push("Failure Policy");
                c.push("Side Effects");
                c.push("Admission Review Versions");
                c.push("Age");
            },
        }
        assert(strs_view(c@) =~= self.columns_spec());
        c
    }

    /// The request kind that lists this kind, in `namespace` for namespaced
    /// kinds.
    pub open spec fn load_kind_matches(self, kind: ResourceLoadKind) -> bool {
        match (self, kind) {
            (ConfigResourceKind::HorizontalPodAutoscaler, ResourceLoadKind::HorizontalPodAutoscalers { .. }) => true,
            (ConfigResourceKind::PodDisruptionBudget, ResourceLoadKind::PodDisruptionBudgets { .. }) => true,
            (ConfigResourceKind::PriorityClass, ResourceLoadKind::PriorityClasses) => true,
            (ConfigResourceKind::RuntimeClass, ResourceLoadKind::RuntimeClasses) => true,
            (ConfigResourceKind::Lease, ResourceLoadKind::Leases { .. }) => true,
            (ConfigResourceKind::MutatingWebhookConfiguration, ResourceLoadKind::MutatingWebhookConfigurations) => true,
            (ConfigResourceKind::ValidatingWebhookConfiguration, ResourceLoadKind::ValidatingWebhookConfigurations) => true,
            _ => false,
        }
    }

    /// The namespace a request kind lists, if it carries one.
    pub open spec fn kind_namespace(kind: ResourceLoadKind) -> Option<Seq<char>> {
        match kind {
            ResourceLoadKind::HorizontalPodAutoscalers { namespace } => opt_view(namespace),
            ResourceLoadKind::PodDisruptionBudgets { namespace } => opt_view(namespace),
            ResourceLoadKind::Leases { namespace } => opt_view(namespace),
            _ => None,
        }
    }

    /// The request kind that lists this kind; namespaced kinds carry the
    /// namespace, cluster scoped kinds drop it.
    pub fn load_kind(self, namespace: Option<String>) -> (r: ResourceLoadKind)
        ensures
            self.load_kind_matches(r),
            self.namespaced_spec() ==> Self::kind_namespace(r) == opt_view(namespace),
    {
        match self {
            ConfigResourceKind::HorizontalPodAutoscaler => ResourceLoadKind::HorizontalPodAutoscalers { namespace },
            ConfigResourceKind::PodDisruptionBudget => ResourceLoadKind::PodDisruptionBudgets { namespace },
            ConfigResourceKind::PriorityClass => ResourceLoadKind::PriorityClasses,
            ConfigResourceKind::RuntimeClass => ResourceLoadKind::RuntimeClasses,
            ConfigResourceKind::Lease => ResourceLoadKind::Leases { namespace },
            ConfigResourceKind::MutatingWebhookConfiguration => ResourceLoadKind::MutatingWebhookConfigurations,
            ConfigResourceKind::ValidatingWebhookConfiguration => ResourceLoadKind::ValidatingWebhookConfigurations,
        }
    }

    /// Whether a request kind lists this kind.
    pub fn matches_load_kind(self, kind: &ResourceLoadKind) -> (r: bool)
        ensures
            r == self.load_kind_matches(*kind),
    {
        match (self, kind) {
            (ConfigResourceKind::HorizontalPodAutoscaler, ResourceLoadKind::HorizontalPodAutoscalers { .. }) => true,
            (ConfigResourceKind::PodDisruptionBudget, ResourceLoadKind::PodDisruptionBudgets { .. }) => true,
            (ConfigResourceKind::PriorityClass, ResourceLoadKind::PriorityClasses) => true,
            (ConfigResourceKind::RuntimeClass, ResourceLoadKind::RuntimeClasses) => true,
            (ConfigResourceKind::Lease, ResourceLoadKind::Leases { .. }) => true,
            (ConfigResourceKind::MutatingWebhookConfiguration, ResourceLoadKind::MutatingWebhookConfigurations) => true,
            (ConfigResourceKind::ValidatingWebhookConfiguration, ResourceLoadKind::ValidatingWebhookConfigurations) => true,
            _ => false,
        }
    }
}

/// The key of a configuration row: the name alone without a namespace,
/// else `namespace/name`.
pub open spec fn config_key_spec(namespace: Seq<char>, name: Seq<char>) -> Seq<char> {
    if namespace.len() == 0 {
        name
    } else {
        slash_key(namespace, name)
    }
}

/// The key of a configuration row.
pub fn config_key(namespace: &str, name: &str) -> (r: String)
    ensures
        r@ == config_key_spec(namespace@, name@),
{
    if crate::resource_panel::components::char_count(namespace) == 0 {
        name.to_owned()
    } else {
        slash_join(namespace, name)
    }
}


// ---------------------------------------------------------------------------
// Cells
// ---------------------------------------------------------------------------

/// An integer as text, or `"N/A"`.
pub open spec fn i64_or_na(o: Option<i64>) -> Seq<char> {
    match o {
        Some(v) => signed_decimal(v as int),
        None => na_text(),
    }
}

/// An integer as text, 0 when missing.
pub open spec fn i64_or_zero(o: Option<i64>) -> Seq<char> {
    match o {
        Some(v) => signed_decimal(v as int),
        None => seq!['0'],
    }
}

/// An integer as text, or `"N/A"`.
pub fn i64_text_or_na(o: Option<i64>) -> (r: String)
    ensures
        r@ == i64_or_na(o),
{
    match o {
        Some(v) => i64_to_string(v),
        None => na(),
    }
}

/// An integer as text, 0 when missing.
pub fn i64_text_or_zero(o: Option<i64>) -> (r: String)
    ensures
        r@ == i64_or_zero(o),
{
    match o {
        Some(v) => i64_to_string(v),
        None => {
            let s = i64_to_string(0);
            assert(s@ =~= seq!['0']) by {
                reveal_with_fuel(crate::text::decimal, 2);
            }
            s
        },
    }
}

/// The integer at a member, when it fits in `i64`.
pub fn i64_of(v: Option<&JsonValue>) -> (r: Option<i64>)
    ensures
        r == json_as_i64(opt_value(v)),
{
    match v {
        Some(x) => x.as_i64(),
        None => None,
    }
}

/// `kind/name` of the scale target, the name alone without a kind, or
/// `"N/A"` without a name.
pub open spec fn scale_target_ref_spec(raw: JsonValue) -> Seq<char> {
    let kind = json_as_str(at3(Some(raw), "spec"@, "scaleTargetRef"@, "kind"@));
    let name = json_as_str(at3(Some(raw), "spec"@, "scaleTargetRef"@, "name"@));
    match (kind, name) {
        (Some(k), Some(n)) => slash_key(k, n),
        (_, Some(n)) => n,
        _ => na_text(),
    }
}

/// The scale target of an autoscaler.
pub fn scale_target_ref(raw: &JsonValue) -> (r: String)
    ensures
        r@ == scale_target_ref_spec(*raw),
{
    let target = member_of(raw.get("spec"), "scaleTargetRef");
    let kind = text_of(member_of(target, "kind"));
    let name = text_of(member_of(target, "name"));
    match (kind, name) {
        (Some(k), Some(n)) => slash_join(k, n),
        (_, Some(n)) => n.to_owned(),
        _ => na(),
    }
}

/// The current value of a metric: resource utilisation or average value,
/// pods average value, object or external value.
pub open spec fn metric_current(m: JsonValue) -> Option<JsonValue> {
    first_value(at3(Some(m), "resource"@, "current"@, "averageUtilization"@),
    first_value(at3(Some(m), "resource"@, "current"@, "averageValue"@),
    first_value(at3(Some(m), "pods"@, "current"@, "averageValue"@),
    first_value(at3(Some(m), "object"@, "current"@, "value"@),
    at3(Some(m), "external"@, "current"@, "value"@)))))
}

/// `<type>: <current>` for a metric (`Metric` without a type, `N/A`
/// without a current value).
pub open spec fn metric_text(m: JsonValue) -> Seq<char> {
    let metric_type = match json_as_str(json_get(m, "type"@)) {
        Some(t) => t,
        None => "Metric"@,
    };
    metric_type + seq![':', ' '] + value_or_na(metric_current(m))
}

/// The autoscaler's current metrics, joined, or `"N/A"`.
pub open spec fn hpa_targets_spec(raw: JsonValue) -> Seq<char> {
    match json_as_array(at2(Some(raw), "status"@, "currentMetrics"@)) {
        Some(items) => joined_or_na(items.map_values(|m: JsonValue| metric_text(m))),
        None => na_text(),
    }
}

/// `<type>: <current>` for a metric.
pub fn metric_line(m: &JsonValue) -> (r: String)
    ensures
        r@ == metric_text(*m),
{
    let mut s = match text_of(m.get("type")) {
        Some(t) => t.to_owned(),
        None => "Metric".to_owned(),
    };
    let current = match at3_of(Some(m), "resource", "current", "averageUtilization") {
        Some(v) => Some(v),
        None => match at3_of(Some(m), "resource", "current", "averageValue") {
            Some(v) => Some(v),
            None => match at3_of(Some(m), "pods", "current", "averageValue") {
                Some(v) => Some(v),
                None => match at3_of(Some(m), "object", "current", "value") {
                    Some(v) => Some(v),
                    None => at3_of(Some(m), "external", "current", "value"),
                },
            },
        },
    };
    push_char(&mut s, ':');
    push_char(&mut s, ' ');
    let value = int_or_string(current);
    push_str(&mut s, value.as_str());
    s
}

/// The autoscaler's current metrics, joined with `", "`, or `"N/A"`.
pub fn hpa_targets(raw: &JsonValue) -> (r: String)
    ensures
        r@ == hpa_targets_spec(*raw),
{
    match array_of(member_of(raw.get("status"), "currentMetrics")) {
        None => na(),
        Some(items) => {
            let ghost lines = items@.map_values(|m: JsonValue| metric_text(m));
            let mut out: Vec<String> = Vec::new();
            let mut i: usize = 0;
            while i < items.len()
                invariant
                    i <= items@.len(),
                    lines == items@.map_values(|m: JsonValue| metric_text(m)),
                    texts_view(out@) == lines.take(i as int),
                decreases items@.len() - i,
            {
                let line = metric_line(&items[i]);
                let ghost before = out@;
                out.push(line);
                assert(texts_view(out@) =~= texts_view(before).push(line@));
                assert(texts_view(out@) =~= lines.take(i + 1));
                i = i + 1;
            }
            assert(lines.take(i as int) =~= lines);
            join_or_na(&out)
        },
    }
}

/// `current/desired` replicas of an autoscaler, each 0 when missing.
pub open spec fn hpa_replicas_spec(raw: JsonValue) -> Seq<char> {
    i64_or_zero(json_as_i64(at2(Some(raw), "status"@, "currentReplicas"@))) + seq!['/']
        + i64_or_zero(json_as_i64(at2(Some(raw), "status"@, "desiredReplicas"@)))
}

/// `current/desired` replicas of an autoscaler.
pub fn hpa_replicas(raw: &JsonValue) -> (r: String)
    ensures
        r@ == hpa_replicas_spec(*raw),
{
    let status = raw.get("status");
    let mut s = i64_text_or_zero(i64_of(member_of(status, "currentReplicas")));
    let desired = i64_text_or_zero(i64_of(member_of(status, "desiredReplicas")));
    push_char(&mut s, '/');
    push_str(&mut s, desired.as_str());
    s
}

/// The entries of a map value as `key=value` texts sorted as texts and
/// joined; none when it is not a map or has no entries.
pub open spec fn resource_map_spec(value: Option<JsonValue>) -> Option<Seq<char>> {
    match crate::json::json_as_object(value) {
        Some(entries) => {
            let lines = entries.map_values(|e: (String, JsonValue)| e.0@ + seq!['='] + display_text(e.1));
            if lines.len() == 0 {
                None
            } else {
                Some(joined(sort_views::<String>(lines), seq![',', ' ']))
            }
        },
        None => None,
    }
}

/// The entries of a map value as sorted `key=value` texts joined with
/// `", "`; none when it is not a map or has no entries.
pub fn resource_map(value: Option<&JsonValue>) -> (r: Option<String>)
    ensures
        opt_view(r) == resource_map_spec(opt_value(value)),
{
    let object = match value {
        Some(v) => v.as_object(),
        None => None,
    };
    match object {
        None => None,
        Some(entries) => {
            let ghost lines = entries@.map_values(|e: (String, JsonValue)| e.0@ + seq!['='] + display_text(e.1));
            let mut out: Vec<String> = Vec::new();
            let mut i: usize = 0;
            while i < entries.len()
                invariant
                    i <= entries@.len(),
                    lines == entries@.map_values(|e: (String, JsonValue)| e.0@ + seq!['='] + display_text(e.1)),
                    views(out@) == lines.take(i as int),
                decreases entries@.len() - i,
            {
                let entry = &entries[i];
                let mut line = entry.0.clone();
                push_char(&mut line, '=');
                let value_text = entry.1.display_string();
                push_str(&mut line, value_text.as_str());
                assert(line@ == lines[i as int]);
                let ghost before = out@;
                out.push(line);
                assert(views(out@) =~= views(before).push(line@));
                assert(views(out@) =~= lines.take(i + 1));
                i = i + 1;
            }
            assert(lines.take(i as int) =~= lines);
            if out.len() == 0 {
                None
            } else {
                let sorted = sort_rows(out);
                assert(views(sorted@) =~= texts_view(sorted@));
                let sep = ", ";
                proof {
                    reveal_strlit(", ");
                }
                assert(sep@ =~= seq![',', ' ']);
                Some(join_texts(&sorted, sep))
            }
        },
    }
}

/// The number of items of an array value, 0 when it is not an array.
pub open spec fn array_len_spec(v: Option<JsonValue>) -> nat {
    match json_as_array(v) {
        Some(items) => items.len(),
        None => 0,
    }
}

/// The number of items of an array value, 0 when it is not an array.
pub fn array_len(v: Option<&JsonValue>) -> (r: usize)
    ensures
        r == array_len_spec(opt_value(v)),
{
    match array_of(v) {
        Some(items) => items.len(),
        None => 0,
    }
}

/// The runtime class's fixed pod overhead, or `"N/A"`.
pub open spec fn runtime_overhead_spec(raw: JsonValue) -> Seq<char> {
    or_na(resource_map_spec(at2(Some(raw), "overhead"@, "podFixed"@)))
}

/// The runtime class's fixed pod overhead, or `"N/A"`.
pub fn runtime_overhead(raw: &JsonValue) -> (r: String)
    ensures
        r@ == runtime_overhead_spec(*raw),
{
    match resource_map(member_of(raw.get("overhead"), "podFixed")) {
        Some(s) => s,
        None => na(),
    }
}

/// The runtime class's scheduling: its node selector and the number of
/// tolerations when there are any, or `"N/A"`.
pub open spec fn runtime_scheduling_spec(raw: JsonValue) -> Seq<char> {
    let selector = resource_map_spec(at2(Some(raw), "scheduling"@, "nodeSelector"@));
    let count = array_len_spec(at2(Some(raw), "scheduling"@, "tolerations"@));
    match selector {
        Some(s) => if count == 0 {
            s
        } else {
            s + "; tolerations="@ + decimal(count)
        },
        None => if count > 0 {
            "tolerations="@ + decimal(count)
        } else {
            na_text()
        },
    }
}

/// The runtime class's scheduling.
pub fn runtime_scheduling(raw: &JsonValue) -> (r: String)
    ensures
        r@ == runtime_scheduling_spec(*raw),
{
    let scheduling = raw.get("scheduling");
    let selector = resource_map(member_of(scheduling, "nodeSelector"));
    let count = array_len(member_of(scheduling, "tolerations"));
    match selector {
        Some(s) => {
            if count == 0 {
                s
            } else {
                let mut t = s;
                push_str(&mut t, "; tolerations=");
                crate::text::push_decimal(&mut t, count as u64);
                t
            }
        },
        None => {
            if count > 0 {
                let mut t = String::new();
                push_str(&mut t, "tolerations=");
                crate::text::push_decimal(&mut t, count as u64);
                t
            } else {
                na()
            }
        },
    }
}

/// A sorted list without the repeats of neighbours.
pub open spec fn dedup_adjacent(s: Seq<Seq<char>>) -> Seq<Seq<char>>
    decreases s.len(),
{
    if s.len() < 2 {
        s
    } else if s.last() == s.drop_last().last() {
        dedup_adjacent(s.drop_last())
    } else {
        dedup_adjacent(s.drop_last()).push(s.last())
    }
}

/// Sorts texts, drops repeats and joins them, or gives `"N/A"` for none.
pub open spec fn sorted_unique_joined(values: Seq<Seq<char>>) -> Seq<char> {
    joined_or_na(dedup_adjacent(sort_views::<String>(values)))
}

/// Sorts texts, drops repeats and joins them with `", "`, or gives `"N/A"`.
pub fn sorted_unique_join(values: Vec<String>) -> (r: String)
    ensures
        r@ == sorted_unique_joined(texts_view(values@)),
{
    let sorted = sort_rows(values);
    let ghost sv = texts_view(sorted@);
    assert(views(sorted@) =~= sv);
    let mut out: Vec<String> = Vec::new();
    let mut i: usize = 0;
    while i < sorted.len()
        invariant
            i <= sorted@.len(),
            sv == texts_view(sorted@),
            texts_view(out@) == dedup_adjacent(sv.take(i as int)),
            i > 0 ==> out@.len() > 0 && out@[out@.len() - 1]@ == sv[i - 1],
        decreases sorted@.len() - i,
    {
        let repeat = i > 0 && str_eq(sorted[i].as_str(), sorted[i - 1].as_str());
        proof {
            assert(sv.take(i + 1).drop_last() =~= sv.take(i as int));
            assert(sv.take(i + 1).last() == sv[i as int]);
            if i > 0 {
                assert(sv.take(i + 1).drop_last().last() == sv[i - 1]);
                lemma_dedup_last(sv.take(i as int));
            }
        }
        if !repeat {
            let item = sorted[i].clone();
            let ghost before = out@;
            out.push(item);
            assert(texts_view(out@) =~= texts_view(before).push(item@));
        }
        i = i + 1;
    }
    assert(sv.take(i as int) =~= sv);
    join_or_na(&out)
}

proof fn lemma_dedup_last(s: Seq<Seq<char>>)
    requires
        s.len() > 0,
    ensures
        dedup_adjacent(s).len() > 0,
        dedup_adjacent(s).last() == s.last(),
    decreases s.len(),
{
    if s.len() >= 2 && s.last() == s.drop_last().last() {
        lemma_dedup_last(s.drop_last());
    }
}

/// The text values of a field over the webhooks, in order.
pub open spec fn webhook_field_texts(hooks: Seq<JsonValue>, field: Seq<char>) -> Seq<Seq<char>>
    decreases hooks.len(),
{
    if hooks.len() == 0 {
        Seq::empty()
    } else {
        let rest = webhook_field_texts(hooks.drop_last(), field);
        match json_as_str(json_get(hooks.last(), field)) {
            Some(t) => rest.push(t),
            None => rest,
        }
    }
}

/// The distinct values of a webhook field, sorted and joined, or `"N/A"`.
pub open spec fn webhook_values_spec(raw: JsonValue, field: Seq<char>) -> Seq<char> {
    match json_as_array(json_get(raw, "webhooks"@)) {
        Some(hooks) => sorted_unique_joined(webhook_field_texts(hooks, field)),
        None => na_text(),
    }
}

/// The distinct values of a webhook field, sorted and joined.
pub fn webhook_values(raw: &JsonValue, field: &str) -> (r: String)
    ensures
        r@ == webhook_values_spec(*raw, field@),
{
    match array_of(raw.get("webhooks")) {
        None => na(),
        Some(hooks) => {
            let mut values: Vec<String> = Vec::new();
            let mut i: usize = 0;
            while i < hooks.len()
                invariant
                    i <= hooks@.len(),
                    texts_view(values@) == webhook_field_texts(hooks@.take(i as int), field@),
                decreases hooks@.len() - i,
            {
                assert(hooks@.take(i + 1).drop_last() =~= hooks@.take(i as int));
                assert(hooks@.take(i + 1).last() == hooks@[i as int]);
                match text_of(hooks[i].get(field)) {
                    Some(t) => {
                        let ghost before = values@;
                        values.push(t.to_owned());
                        assert(texts_view(values@) =~= texts_view(before).push(t@));
                    },
                    None => {},
                }
                i = i + 1;
            }
            assert(hooks@.take(i as int) =~= hooks@);
            sorted_unique_join(values)
        },
    }
}

/// The text items of a list value, in order.
pub open spec fn array_texts(items: Seq<JsonValue>) -> Seq<Seq<char>>
    decreases items.len(),
{
    if items.len() == 0 {
        Seq::empty()
    } else {
        let rest = array_texts(items.drop_last());
        match json_as_str(Some(items.last())) {
            Some(t) => rest.push(t),
            None => rest,
        }
    }
}

/// The admission review versions of all webhooks, in order.
pub open spec fn review_versions(hooks: Seq<JsonValue>) -> Seq<Seq<char>>
    decreases hooks.len(),
{
    if hooks.len() == 0 {
        Seq::empty()
    } else {
        review_versions(hooks.drop_last()) + array_texts(items_or_empty(json_get(hooks.last(), "admissionReviewVersions"@)))
    }
}

/// The distinct admission review versions, sorted and joined, or `"N/A"`.
pub open spec fn webhook_admission_versions_spec(raw: JsonValue) -> Seq<char> {
    match json_as_array(json_get(raw, "webhooks"@)) {
        Some(hooks) => sorted_unique_joined(review_versions(hooks)),
        None => na_text(),
    }
}

/// Appends the text items of a list value.
fn push_array_texts(out: &mut Vec<String>, items: &Vec<JsonValue>)
    ensures
        texts_view(final(out)@) == texts_view(old(out)@) + array_texts(items@),
{
    let ghost start = texts_view(out@);
    let mut i: usize = 0;
    while i < items.len()
        invariant
            i <= items@.len(),
            texts_view(out@) == start + array_texts(items@.take(i as int)),
        decreases items@.len() - i,
    {
        assert(items@.take(i + 1).drop_last() =~= items@.take(i as int));
        assert(items@.take(i + 1).last() == items@[i as int]);
        match items[i].as_str() {
            Some(t) => {
                let ghost before = out@;
                out.push(t.to_owned());
                assert(texts_view(out@) =~= texts_view(before).push(t@));
                assert(texts_view(out@) =~= start + array_texts(items@.take(i + 1)));
            },
            None => {},
        }
        i = i + 1;
    }
    assert(items@.take(i as int) =~= items@);
}

/// The distinct admission review versions, sorted and joined.
pub fn webhook_admission_versions(raw: &JsonValue) -> (r: String)
    ensures
        r@ == webhook_admission_versions_spec(*raw),
{
    match array_of(raw.get("webhooks")) {
        None => na(),
        Some(hooks) => {
            let mut values: Vec<String> = Vec::new();
            let mut i: usize = 0;
            while i < hooks.len()
                invariant
                    i <= hooks@.len(),
                    texts_view(values@) == review_versions(hooks@.take(i as int)),
                decreases hooks@.len() - i,
            {
                assert(hooks@.take(i + 1).drop_last() =~= hooks@.take(i as int));
                assert(hooks@.take(i + 1).last() == hooks@[i as int]);
                match array_of(hooks[i].get("admissionReviewVersions")) {
                    Some(items) => push_array_texts(&mut values, items),
                    None => {
                        assert(array_texts(Seq::<JsonValue>::empty()) =~= Seq::<Seq<char>>::empty());
                        assert(texts_view(values@) =~= review_versions(hooks@.take(i + 1)));
                    },
                }
                i = i + 1;
            }
            assert(hooks@.take(i as int) =~= hooks@);
            sorted_unique_join(values)
        },
    }
}

// ---------------------------------------------------------------------------
// Rows
// ---------------------------------------------------------------------------

/// A lease duration in seconds, `"<n>s"`, or `"N/A"`.
pub open spec fn lease_duration_spec(o: Option<i64>) -> Seq<char> {
    match o {
        Some(v) => signed_decimal(v as int) + seq!['s'],
        None => na_text(),
    }
}

/// `<member>` of a manifest, when it is a string.
pub open spec fn top_text(raw: JsonValue, key: Seq<char>) -> Option<Seq<char>> {
    json_as_str(json_get(raw, key))
}

/// The cells of a configuration row, column by column.
pub open spec fn config_cells_spec(
    kind: ConfigResourceKind,
    raw: JsonValue,
    name: Seq<char>,
    namespace: Seq<char>,
    age: Seq<char>,
) -> Seq<Seq<char>> {
    match kind {
        ConfigResourceKind::HorizontalPodAutoscaler => seq![
            name,
            namespace,
            scale_target_ref_spec(raw),
            hpa_targets_spec(raw),
            i64_or_na(json_as_i64(at2(Some(raw), "spec"@, "minReplicas"@))),
            i64_or_na(json_as_i64(at2(Some(raw), "spec"@, "maxReplicas"@))),
            hpa_replicas_spec(raw),
            age,
        ],
        ConfigResourceKind::PodDisruptionBudget => seq![
            name,
            namespace,
            value_or_na(at2(Some(raw), "spec"@, "minAvailable"@)),
            value_or_na(at2(Some(raw), "spec"@, "maxUnavailable"@)),
            i64_or_zero(json_as_i64(at2(Some(raw), "status"@, "disruptionsAllowed"@))),
            i64_or_zero(json_as_i64(at2(Some(raw), "status"@, "currentHealthy"@))),
            i64_or_zero(json_as_i64(at2(Some(raw), "status"@, "desiredHealthy"@))),
            age,
        ],
        ConfigResourceKind::PriorityClass => seq![
            name,
            i64_or_na(json_as_i64(json_get(raw, "value"@))),
            crate::resource_panel::cron_job::flag_text(json_as_bool(json_get(raw, "globalDefault"@))),
            or_na(top_text(raw, "preemptionPolicy"@)),
            or_na(top_text(raw, "description"@)),
            age,
        ],
        ConfigResourceKind::RuntimeClass => seq![
            name,
            or_na(top_text(raw, "handler"@)),
            runtime_overhead_spec(raw),
            runtime_scheduling_spec(raw),
            age,
        ],
        ConfigResourceKind::Lease => seq![
            name,
            namespace,
            or_na(json_as_str(at2(Some(raw), "spec"@, "holderIdentity"@))),
            or_na(json_as_str(at2(Some(raw), "spec"@, "acquireTime"@))),
            or_na(json_as_str(at2(Some(raw), "spec"@, "renewTime"@))),
            lease_duration_spec(json_as_i64(at2(Some(raw), "spec"@, "leaseDurationSeconds"@))),
            i64_or_zero(json_as_i64(at2(Some(raw), "spec"@, "leaseTransitions"@))),
            age,
        ],
        _ => seq![
            name,
            decimal(array_len_spec(json_get(raw, "webhooks"@))),
            webhook_values_spec(raw, "failurePolicy"@),
            webhook_values_spec(raw, "sideEffects"@),
            webhook_admission_versions_spec(raw),
            age,
        ],
    }
}

/// A row of a configuration table.
pub struct ConfigRow {
    pub key: String,
    pub name: String,
    pub namespace: String,
    pub namespaced: bool,
    pub cells: Vec<String>,
    pub details: Vec<(String, String)>,
    pub raw: JsonValue,
    pub search_text: String,
}

/// What a configuration row shows.
pub ghost struct ConfigRowView {
    pub key: Seq<char>,
    pub name: Seq<char>,
    pub namespace: Seq<char>,
    pub namespaced: bool,
    pub cells: Seq<Seq<char>>,
    pub details: Seq<(Seq<char>, Seq<char>)>,
    pub raw: JsonValue,
    pub search_text: Seq<char>,
}

/// The views of labelled values.
pub open spec fn pairs_view(v: Seq<(String, String)>) -> Seq<(Seq<char>, Seq<char>)> {
    v.map_values(|p: (String, String)| (p.0@, p.1@))
}

impl View for ConfigRow {
    type V = ConfigRowView;

    open spec fn view(&self) -> ConfigRowView {
        ConfigRowView {
            key: self.key@,
            name: self.name@,
            namespace: self.namespace@,
            namespaced: self.namespaced,
            cells: texts_view(self.cells@),
            details: pairs_view(self.details@),
            raw: self.raw,
            search_text: self.search_text@,
        }
    }
}

impl TableRow for ConfigRow {
    open spec fn key_of(v: ConfigRowView) -> Seq<char> {
        v.key
    }

    open spec fn ordered_before(a: ConfigRowView, b: ConfigRowView) -> bool {
        if a.namespaced {
            namespace_name_before(a.namespace, a.name, b.namespace, b.name)
        } else {
            text_lt(a.name, b.name)
        }
    }

    fn row_key(&self) -> (r: &str) {
        self.key.as_str()
    }

    fn before(&self, other: &Self) -> (r: bool) {
        if self.namespaced {
            namespace_name_less(self.namespace.as_str(), self.name.as_str(), other.namespace.as_str(), other.name.as_str())
        } else {
            text_less(self.name.as_str(), other.name.as_str())
        }
    }
}

impl PanelRow for ConfigRow {
    open spec fn namespace_of(v: ConfigRowView) -> Option<Seq<char>> {
        namespace_value_spec(v.namespace)
    }

    open spec fn name_of(v: ConfigRowView) -> Seq<char> {
        v.name
    }

    open spec fn matches_needle(v: ConfigRowView, needle: Seq<char>) -> bool {
        needle.len() == 0 || has_infix(v.search_text, needle)
    }

    proof fn lemma_empty_needle_matches(v: ConfigRowView) {
    }

    fn target(&self) -> (r: ResourceRowTarget) {
        ResourceRowTarget { key: self.key.clone(), namespace: namespace_value(self.namespace.as_str()), name: self.name.clone() }
    }

    fn matches(&self, needle: &str) -> (r: bool) {
        crate::resource_panel::components::char_count(needle) == 0
            || crate::text::contains_str(self.search_text.as_str(), needle)
    }
}

/// Column titles paired with cells.
pub open spec fn details_spec(columns: Seq<Seq<char>>, cells: Seq<Seq<char>>) -> Seq<(Seq<char>, Seq<char>)> {
    Seq::new(if columns.len() < cells.len() { columns.len() } else { cells.len() }, |i: int| (columns[i], cells[i]))
}

/// The row a listed object of `kind` is shown as, at time `now`.
pub open spec fn config_row_spec(kind: ConfigResourceKind, s: ResourceSummary, now: int) -> ConfigRowView {
    let name = summary_name(s);
    let namespace = summary_namespace(s);
    let cells = config_cells_spec(kind, s.raw, name, namespace, age_spec(s.raw, now));
    ConfigRowView {
        key: if kind.namespaced_spec() { slash_key(namespace, name) } else { name },
        name,
        namespace,
        namespaced: kind.namespaced_spec(),
        cells,
        details: details_spec(kind.columns_spec(), cells),
        raw: s.raw,
        search_text: lowercase(joined(cells, seq![' '])),
    }
}

/// The cells of a configuration row.
pub fn config_cells(kind: ConfigResourceKind, raw: &JsonValue, name: &str, namespace: &str, age: &str) -> (r: Vec<String>)
    ensures
        texts_view(r@) == config_cells_spec(kind, *raw, name@, namespace@, age@),
{
    let mut c: Vec<String> = Vec::new();
    match kind {
        ConfigResourceKind::HorizontalPodAutoscaler => {
            let spec = raw.get("spec");
            c.push(name.to_owned());
            c.push(namespace.to_owned());
            c.push(scale_target_ref(raw));
            c.push(hpa_targets(raw));
            c.push(i64_text_or_na(i64_of(member_of(spec, "minReplicas"))));
            c.push(i64_text_or_na(i64_of(member_of(spec, "maxReplicas"))));
            c.push(hpa_replicas(raw));
            c.push(age.to_owned());
            assert(texts_view(c@) =~= config_cells_spec(kind, *raw, name@, namespace@, age@));
        },
        ConfigResourceKind::PodDisruptionBudget => {
            let spec = raw.get("spec");
            let status = raw.get("status");
            c.push(name.to_owned());
            c.push(namespace.to_owned());
            c.push(int_or_string(member_of(spec, "minAvailable")));
            c.push(int_or_string(member_of(spec, "maxUnavailable")));
            c.push(i64_text_or_zero(i64_of(member_of(status, "disruptionsAllowed"))));
            c.push(i64_text_or_zero(i64_of(member_of(status, "currentHealthy"))));
            c.push(i64_text_or_zero(i64_of(member_of(status, "desiredHealthy"))));
            c.push(age.to_owned());
            assert(texts_view(c@) =~= config_cells_spec(kind, *raw, name@, namespace@, age@));
        },
        ConfigResourceKind::PriorityClass => {
            c.push(name.to_owned());
            c.push(i64_text_or_na(i64_of(raw.get("value"))));
            let global = match raw.get("globalDefault") {
                Some(v) => match v.as_bool() {
                    Some(true) => "true".to_owned(),
                    Some(false) => "false".to_owned(),
                    None => na(),
                },
                None => na(),
            };
            proof {
                reveal_strlit("true");
                reveal_strlit("false");
            }
            c.push(global);
            c.push(text_or_na(text_of(raw.get("preemptionPolicy"))));
            c.push(text_or_na(text_of(raw.get("description"))));
            c.push(age.to_owned());
            assert(texts_view(c@) =~= config_cells_spec(kind, *raw, name@, namespace@, age@));
        },
        ConfigResourceKind::RuntimeClass => {
            c.push(name.to_owned());
            c.push(text_or_na(text_of(raw.get("handler"))));
            c.push(runtime_overhead(raw));
            c.push(runtime_scheduling(raw));
            c.push(age.to_owned());
            assert(texts_view(c@) =~= config_cells_spec(kind, *raw, name@, namespace@, age@));
        },
        ConfigResourceKind::Lease => {
            let spec = raw.get("spec");
            c.push(name.to_owned());
            c.push(namespace.to_owned());
            c.push(text_or_na(text_of(member_of(spec, "holderIdentity"))));
            c.push(text_or_na(text_of(member_of(spec, "acquireTime"))));
            c.push(text_or_na(text_of(member_of(spec, "renewTime"))));
            let duration = match i64_of(member_of(spec, "leaseDurationSeconds")) {
                Some(v) => {
                    let mut d = i64_to_string(v);
                    push_char(&mut d, 's');
                    assert(d@ =~= signed_decimal(v as int) + seq!['s']);
                    d
                },
                None => na(),
            };
            c.push(duration);
            c.push(i64_text_or_zero(i64_of(member_of(spec, "leaseTransitions"))));
            c.push(age.to_owned());
            assert(texts_view(c@) =~= config_cells_spec(kind, *raw, name@, namespace@, age@));
        },
        _ => {
            c.push(name.to_owned());
            c.push(u64_to_string(array_len(raw.get("webhooks")) as u64));
            c.push(webhook_values(raw, "failurePolicy"));
            c.push(webhook_values(raw, "sideEffects"));
            c.push(webhook_admission_versions(raw));
            c.push(age.to_owned());
            assert(texts_view(c@) =~= config_cells_spec(kind, *raw, name@, namespace@, age@));
        },
    }
    assert(texts_view(c@) =~= config_cells_spec(kind, *raw, name@, namespace@, age@));
    c
}

/// Column titles paired with cells.
pub fn config_details(columns: &Vec<&'static str>, cells: &Vec<String>) -> (r: Vec<(String, String)>)
    ensures
        pairs_view(r@) == details_spec(strs_view(columns@), texts_view(cells@)),
{
    let n = if columns.len() < cells.len() { columns.len() } else { cells.len() };
    let ghost d = details_spec(strs_view(columns@), texts_view(cells@));
    let mut out: Vec<(String, String)> = Vec::new();
    let mut i: usize = 0;
    while i < n
        invariant
            i <= n,
            n == d.len(),
            n <= columns@.len(),
            n <= cells@.len(),
            d == details_spec(strs_view(columns@), texts_view(cells@)),
            pairs_view(out@) == d.take(i as int),
        decreases n - i,
    {
        let pair = (columns[i].to_owned(), cells[i].clone());
        let ghost before = out@;
        out.push(pair);
        assert(pairs_view(out@) =~= pairs_view(before).push((pair.0@, pair.1@)));
        assert(pairs_view(out@) =~= d.take(i + 1));
        i = i + 1;
    }
    assert(d.take(i as int) =~= d);
    out
}

impl ConfigRow {
    /// The object a delete of this row acts on.
    pub fn delete_target(&self) -> (r: ResourceDeleteTarget)
        ensures
            opt_view(r.namespace) == namespace_value_spec(self.namespace@),
            r.name@ == self.name@,
    {
        ResourceDeleteTarget { namespace: namespace_value(self.namespace.as_str()), name: self.name.clone() }
    }
}

/// The row a listed object of `kind` is shown as, at time `now` (seconds
/// since the Unix epoch, for the age).
pub fn row_from_summary(kind: ConfigResourceKind, summary: ResourceSummary, now: i64) -> (r: ConfigRow)
    ensures
        r@ == config_row_spec(kind, summary, now as int),
{
    let name = name_of_summary(&summary);
    let namespace = namespace_of_summary(&summary);
    let age = age_text(&summary.raw, now);
    let cells = config_cells(kind, &summary.raw, name.as_str(), namespace.as_str(), age.as_str());
    let columns = kind.columns();
    let details = config_details(&columns, &cells);
    let key = if kind.is_namespaced() {
        slash_join(namespace.as_str(), name.as_str())
    } else {
        name.clone()
    };
    let space = " ";
    proof {
        reveal_strlit(" ");
    }
    assert(space@ =~= seq![' ']);
    let joined_cells = join_texts(&cells, space);
    let search_text = to_lowercase(joined_cells.as_str());
    ConfigRow {
        key,
        name,
        namespace,
        namespaced: kind.is_namespaced(),
        cells,
        details,
        raw: summary.raw,
        search_text,
    }
}

/// The rows of a list of `kind`, in table order.
pub open spec fn config_rows_spec(kind: ConfigResourceKind, items: Seq<ResourceSummary>, now: int) -> Seq<ConfigRowView> {
    sort_views::<ConfigRow>(items.map_values(|s: ResourceSummary| config_row_spec(kind, s, now)))
}

impl ConfigResourceKind {
    /// The rows of a list, sorted by namespace and name for namespaced
    /// kinds, by name otherwise.
    pub fn rows_from_list(self, items: Vec<ResourceSummary>, now: i64) -> (r: Vec<ConfigRow>)
        ensures
            views(r@) == config_rows_spec(self, items@, now as int),
    {
        let ghost all = items@.map_values(|s: ResourceSummary| config_row_spec(self, s, now as int));
        let mut src = items;
        let mut rows: Vec<ConfigRow> = Vec::new();
        let mut k: usize = 0;
        assert(all.len() == src.len());
        assert forall|j: int| 0 <= j < src@.len() implies config_row_spec(self, #[trigger] src@[j], now as int) == all[0 + j] by {}
        while src.len() > 0
            invariant
                k <= all.len(),
                all.len() <= usize::MAX,
                src@.len() == all.len() - k,
                forall|j: int| 0 <= j < src@.len() ==> config_row_spec(self, #[trigger] src@[j], now as int) == all[k + j],
                views(rows@) == all.take(k as int),
            decreases src@.len(),
        {
            let ghost before = src@;
            let item = src.remove(0);
            assert(config_row_spec(self, item, now as int) == all[k as int]);
            assert forall|j: int| 0 <= j < src@.len() implies config_row_spec(self, #[trigger] src@[j], now as int) == all[k + 1 + j] by {
                assert(src@[j] == before[j + 1]);
            }
            let row = row_from_summary(self, item, now);
            let ghost rows_before = rows@;
            rows.push(row);
            assert(views(rows@) =~= views(rows_before).push(row@));
            assert(views(rows@) =~= all.take(k + 1));
            k = k + 1;
        }
        assert(all.take(k as int) =~= all);
        sort_rows(rows)
    }
}

// ---------------------------------------------------------------------------
// The panel
// ---------------------------------------------------------------------------

/// The key of the row a delete removes: only a delete of the kind's
/// resource has one.
pub open spec fn deleted_config_key(kind: ConfigResourceKind, action: ResourceActionKind) -> Option<Seq<char>> {
    match action {
        ResourceActionKind::DeleteResource { resource, namespace, name } =>
            if kind.is_resource(resource) {
                Some(config_key_spec(or_empty(opt_view(namespace)), name@))
            } else {
                None
            },
        _ => None,
    }
}

/// The keys of the rows a batch delete removes.
pub open spec fn batch_config_keys(targets: Seq<ResourceDeleteTarget>) -> Seq<Seq<char>> {
    targets.map_values(|t: ResourceDeleteTarget| config_key_spec(or_empty(opt_view(t.namespace)), t.name@))
}

/// What an action's result means for a configuration table at time `now`.
pub open spec fn config_action_effect(
    kind: ConfigResourceKind,
    action: ResourceActionKind,
    result: Result<ResourceActionOutcome, String>,
    now: int,
) -> ActionEffect<ConfigRowView> {
    match result {
        Ok(ResourceActionOutcome::Applied(summary)) => ActionEffect::Applied(config_row_spec(kind, summary, now)),
        Ok(ResourceActionOutcome::Deleted) => ActionEffect::Deleted(deleted_config_key(kind, action)),
        Ok(ResourceActionOutcome::BatchDeleted(targets)) => ActionEffect::BatchDeleted(batch_config_keys(targets@)),
        Ok(ResourceActionOutcome::Patched(_)) => ActionEffect::Unchanged,
        Ok(ResourceActionOutcome::Evicted) => ActionEffect::Unchanged,
        Err(e) => ActionEffect::Failed(e),
    }
}

/// The keys of the rows a batch delete removes.
pub fn config_batch_keys(targets: &Vec<ResourceDeleteTarget>) -> (r: Vec<String>)
    ensures
        texts_view(r@) == batch_config_keys(targets@),
{
    let mut out: Vec<String> = Vec::new();
    let mut i: usize = 0;
    while i < targets.len()
        invariant
            i <= targets@.len(),
            texts_view(out@) == batch_config_keys(targets@).take(i as int),
        decreases targets@.len() - i,
    {
        let t = &targets[i];
        let key = config_key(text_or_empty(&t.namespace), t.name.as_str());
        let ghost before = out@;
        out.push(key);
        assert(texts_view(out@) =~= texts_view(before).push(key@));
        assert(texts_view(out@) =~= batch_config_keys(targets@).take(i + 1));
        i = i + 1;
    }
    assert(batch_config_keys(targets@).take(i as int) =~= batch_config_keys(targets@));
    out
}

/// The action result as a configuration panel takes it.
pub fn config_action_result(
    kind: ConfigResourceKind,
    action: ResourceActionKind,
    result: Result<ResourceActionOutcome, String>,
    now: i64,
) -> (r: ActionResult<ConfigRow>)
    ensures
        crate::resource_panel::state::action_effect::<ConfigRow>(r) == config_action_effect(kind, action, result, now as int),
{
    match result {
        Ok(ResourceActionOutcome::Applied(summary)) => ActionResult::Applied(row_from_summary(kind, summary, now)),
        Ok(ResourceActionOutcome::Deleted) => {
            match action {
                ResourceActionKind::DeleteResource { resource, namespace, name } => {
                    let own = kind.resource_ref();
                    if resource.same(&own) {
                        ActionResult::Deleted(Some(config_key(text_or_empty(&namespace), name.as_str())))
                    } else {
                        ActionResult::Deleted(None)
                    }
                },
                _ => ActionResult::Deleted(None),
            }
        },
        Ok(ResourceActionOutcome::BatchDeleted(targets)) => ActionResult::BatchDeleted(config_batch_keys(&targets)),
        Ok(ResourceActionOutcome::Patched(_)) => ActionResult::Unchanged,
        Ok(ResourceActionOutcome::Evicted) => ActionResult::Unchanged,
        Err(e) => ActionResult::Failed(e),
    }
}

/// The describe view of a configuration object: the panel's title, the
/// row's labelled values, its labels and annotations as `key=value` lists
/// (`"N/A"` when there are none), and the manifest as YAML.
pub struct ConfigDescribe {
    pub title: &'static str,
    pub summary: Vec<(String, String)>,
    pub labels: String,
    pub annotations: String,
    pub raw_yaml: String,
}

/// An open describe window of a configuration object.
pub struct ConfigDescribeDialog {
    pub key: String,
    pub name: String,
    pub describe: ConfigDescribe,
}

/// The describe view of a configuration row of `kind`.
pub open spec fn config_describe_ok(d: ConfigDescribe, kind: ConfigResourceKind, row: ConfigRowView, raw_yaml: Seq<char>) -> bool {
    &&& d.title@ == kind.title_spec()
    &&& pairs_view(d.summary@) == row.details
    &&& d.labels@ == or_na(resource_map_spec(at2(Some(row.raw), "metadata"@, "labels"@)))
    &&& d.annotations@ == or_na(resource_map_spec(at2(Some(row.raw), "metadata"@, "annotations"@)))
    &&& d.raw_yaml@ == raw_yaml
}

/// A copy of labelled values.
fn copy_pairs(v: &Vec<(String, String)>) -> (r: Vec<(String, String)>)
    ensures
        pairs_view(r@) == pairs_view(v@),
{
    let mut out: Vec<(String, String)> = Vec::new();
    let mut i: usize = 0;
    while i < v.len()
        invariant
            i <= v@.len(),
            pairs_view(out@) == pairs_view(v@.take(i as int)),
        decreases v@.len() - i,
    {
        let ghost before = out@;
        let a = v[i].0.clone();
        let b = v[i].1.clone();
        out.push((a, b));
        assert(pairs_view(out@) =~= pairs_view(before).push((v@[i as int].0@, v@[i as int].1@)));
        assert(v@.take(i + 1) =~= v@.take(i as int).push(v@[i as int]));
        assert(pairs_view(v@.take(i + 1)) =~= pairs_view(v@.take(i as int)).push((v@[i as int].0@, v@[i as int].1@)));
        i = i + 1;
    }
    assert(v@.take(i as int) =~= v@);
    out
}

/// A map's `key=value` list, or `"N/A"`.
fn map_text_or_na(value: Option<&JsonValue>) -> (r: String)
    ensures
        r@ == or_na(resource_map_spec(opt_value(value))),
{
    match resource_map(value) {
        Some(t) => t,
        None => na(),
    }
}

/// The describe view of a configuration row of `kind`; `raw_yaml` is its
/// manifest as YAML.
pub fn config_describe_from_row(kind: ConfigResourceKind, row: &ConfigRow, raw_yaml: String) -> (r: ConfigDescribe)
    ensures
        config_describe_ok(r, kind, row@, raw_yaml@),
{
    let metadata = row.raw.get("metadata");
    ConfigDescribe {
        title: kind.title(),
        summary: copy_pairs(&row.details),
        labels: map_text_or_na(member_of(metadata, "labels")),
        annotations: map_text_or_na(member_of(metadata, "annotations")),
        raw_yaml,
    }
}

/// A configuration panel: the kind it shows and its state.
pub struct ConfigResourcePanel {
    pub kind: ConfigResourceKind,
    pub state: PanelState<ConfigRow>,
    pub view_dialog: Option<ManifestViewDialog>,
    pub describe_dialog: Option<ConfigDescribeDialog>,
}

/// What an answer does to a configuration panel's state at time `now`:
/// namespace answers update the namespace list whoever asked; answers for
/// the panel's kind go through the request checks; action results through
/// the action checks; anything else changes nothing.
pub open spec fn config_event_post(
    kind: ConfigResourceKind,
    old: PanelState<ConfigRow>,
    new: PanelState<ConfigRow>,
    event: ResourceUiEvent,
    now: int,
) -> bool {
    match event {
        ResourceUiEvent::ResourcesLoaded { request, result } =>
            if request.kind == ResourceLoadKind::Namespaces {
                PanelState::<ConfigRow>::namespace_load_post(old, new, request.request_id, list_names_result(result))
            } else if kind.load_kind_matches(request.kind) {
                PanelState::<ConfigRow>::rows_load_post(old, new, request.request_id, match result {
                    Ok(list) => Ok(config_rows_spec(kind, list.items@, now)),
                    Err(e) => Err(e),
                })
            } else {
                new == old
            },
        ResourceUiEvent::ResourceWatchUpdated { request, result } =>
            if request.kind == ResourceLoadKind::Namespaces {
                PanelState::<ConfigRow>::namespace_watch_post(old, new, request.request_id, watch_names_result(result))
            } else if kind.load_kind_matches(request.kind) {
                PanelState::<ConfigRow>::rows_watch_post(old, new, request.request_id, match result {
                    Ok(ResourceEvent::Snapshot(list)) => Ok(Some(config_rows_spec(kind, list.items@, now))),
                    Ok(_) => Ok(None),
                    Err(e) => Err(e),
                })
            } else {
                new == old
            },
        ResourceUiEvent::ResourceActionCompleted { request, result } =>
            PanelState::<ConfigRow>::action_post(old, new, request.request_id, config_action_effect(kind, request.kind, result, now)),
        _ => new == old,
    }
}

impl ConfigResourcePanel {
    /// The panel's invariant.
    pub open spec fn wf(&self) -> bool {
        self.state.wf()
    }

    /// An empty panel for `kind`.
    pub fn new(kind: ConfigResourceKind) -> (r: ConfigResourcePanel)
        ensures
            r.wf(),
            r.kind == kind,
            r.state.is_initial(),
            r.state.next_request_id == 0,
            r.state.last_cluster_id is None,
            r.view_dialog is None,
            r.describe_dialog is None,
    {
        ConfigResourcePanel { kind, state: PanelState::new(), view_dialog: None, describe_dialog: None }
    }

    /// Takes an answer; `now` (seconds since the Unix epoch) dates the ages
    /// of new rows.
    pub fn apply_event(&mut self, event: ResourceUiEvent, now: i64)
        requires
            old(self).wf(),
        ensures
            final(self).wf(),
            final(self).kind == old(self).kind,
            config_event_post(old(self).kind, old(self).state, final(self).state, event, now as int),
            final(self).view_dialog == old(self).view_dialog,
            final(self).describe_dialog == old(self).describe_dialog,
    {
        let kind = self.kind;
        match event {
            ResourceUiEvent::ResourcesLoaded { request, result } => {
                let id = request.request_id;
                let is_namespaces = match request.kind {
                    ResourceLoadKind::Namespaces => true,
                    _ => false,
                };
                if is_namespaces {
                    self.state.apply_namespace_load(id, names_of_load(result));
                } else if kind.matches_load_kind(&request.kind) {
                    let rows = match result {
                        Ok(list) => Ok(kind.rows_from_list(list.items, now)),
                        Err(e) => Err(e),
                    };
                    self.state.apply_rows_load(id, rows);
                }
            },
            ResourceUiEvent::ResourceWatchUpdated { request, result } => {
                let id = request.request_id;
                let is_namespaces = match request.kind {
                    ResourceLoadKind::Namespaces => true,
                    _ => false,
                };
                if is_namespaces {
                    self.state.apply_namespace_watch(id, names_of_watch(result));
                } else if kind.matches_load_kind(&request.kind) {
                    let rows = match result {
                        Ok(ResourceEvent::Snapshot(list)) => Ok(Some(kind.rows_from_list(list.items, now))),
                        Ok(_) => Ok(None),
                        Err(e) => Err(e),
                    };
                    self.state.apply_rows_watch(id, rows);
                }
            },
            ResourceUiEvent::ResourceActionCompleted { request, result } => {
                let id = request.request_id;
                let outcome = config_action_result(kind, request.kind, result, now);
                self.state.apply_action_result(id, outcome);
            },
            _ => {},
        }
    }

    /// Forgets the previous cluster's rows, requests and dialogs when shown
    /// for another cluster.
    pub fn reset_for_cluster_change(&mut self, cluster_id: &ClusterId)
        requires
            old(self).wf(),
        ensures
            final(self).wf(),
            crate::resource_panel::state::cluster_view(old(self).state.last_cluster_id) == Some(cluster_id.id@)
                ==> *final(self) == *old(self),
            crate::resource_panel::state::cluster_view(old(self).state.last_cluster_id) != Some(cluster_id.id@) ==> {
                &&& final(self).state.is_initial()
                &&& crate::resource_panel::state::cluster_view(final(self).state.last_cluster_id) == Some(cluster_id.id@)
                &&& final(self).state.next_request_id == old(self).state.next_request_id
                &&& final(self).view_dialog is None
                &&& final(self).describe_dialog is None
                &&& final(self).kind == old(self).kind
            },
    {
        let same = match &self.state.last_cluster_id {
            Some(last) => last.same(cluster_id),
            None => false,
        };
        if same {
            return;
        }
        self.state.reset_for_cluster_change(cluster_id);
        self.view_dialog = None;
        self.describe_dialog = None;
    }

    /// A list request for the panel's kind (in the selected namespace for
    /// namespaced kinds); it becomes the current one.
    pub fn request_resources(&mut self, cluster_id: ClusterId) -> (r: ResourceLoadRequest)
        requires
            old(self).wf(),
            old(self).state.next_request_id < u64::MAX,
        ensures
            final(self).wf(),
            r.request_id == old(self).state.next_request_id + 1,
            r.cluster_id == cluster_id,
            old(self).kind.load_kind_matches(r.kind),
            old(self).kind.namespaced_spec() ==> ConfigResourceKind::kind_namespace(r.kind) == opt_view(old(self).state.namespace_filter),
            final(self).state.next_request_id == r.request_id,
            final(self).state.row_request_id == Some(r.request_id),
            final(self).state.row_status == crate::resource_panel::LoadStatus::Loading,
            final(self).state.rows == old(self).state.rows,
            final(self).state.selected_rows == old(self).state.selected_rows,
            final(self).kind == old(self).kind,
            final(self).view_dialog == old(self).view_dialog,
            final(self).describe_dialog == old(self).describe_dialog,
    {
        let id = self.state.begin_row_load();
        ResourceLoadRequest { request_id: id, cluster_id, kind: self.kind.load_kind(copy_opt_text(&self.state.namespace_filter)) }
    }

    /// The namespace watch; it becomes the current one.
    pub fn request_namespace_watch(&mut self, cluster_id: ClusterId) -> (r: ResourceWatchRequest)
        requires
            old(self).wf(),
            old(self).state.next_request_id < u64::MAX,
        ensures
            final(self).wf(),
            r.request_id == old(self).state.next_request_id + 1,
            r.cluster_id == cluster_id,
            r.kind == ResourceLoadKind::Namespaces,
            final(self).state.next_request_id == r.request_id,
            final(self).state.namespace_watch_request_id == Some(r.request_id),
            final(self).state.namespace_status == crate::resource_panel::LoadStatus::Loading,
            final(self).state.same_rows(&old(self).state),
            final(self).kind == old(self).kind,
            final(self).view_dialog == old(self).view_dialog,
            final(self).describe_dialog == old(self).describe_dialog,
    {
        let id = self.state.begin_namespace_watch();
        ResourceWatchRequest { request_id: id, cluster_id, kind: ResourceLoadKind::Namespaces }
    }

    /// The watch for the panel's kind; it becomes the current one.
    pub fn request_resource_watch(&mut self, cluster_id: ClusterId) -> (r: ResourceWatchRequest)
        requires
            old(self).wf(),
            old(self).state.next_request_id < u64::MAX,
        ensures
            final(self).wf(),
            r.request_id == old(self).state.next_request_id + 1,
            r.cluster_id == cluster_id,
            old(self).kind.load_kind_matches(r.kind),
            old(self).kind.namespaced_spec() ==> ConfigResourceKind::kind_namespace(r.kind) == opt_view(old(self).state.namespace_filter),
            final(self).state.next_request_id == r.request_id,
            final(self).state.row_watch_request_id == Some(r.request_id),
            final(self).state.row_status == crate::resource_panel::LoadStatus::Loading,
            final(self).state.rows == old(self).state.rows,
            final(self).state.selected_rows == old(self).state.selected_rows,
            final(self).kind == old(self).kind,
            final(self).view_dialog == old(self).view_dialog,
            final(self).describe_dialog == old(self).describe_dialog,
    {
        let id = self.state.begin_row_watch();
        ResourceWatchRequest { request_id: id, cluster_id, kind: self.kind.load_kind(copy_opt_text(&self.state.namespace_filter)) }
    }

    /// Opens the view dialog of the row with `key` on its manifest's YAML;
    /// nothing happens when no row has the key.
    pub fn open_view_dialog(&mut self, key: &str, yaml: String)
        requires
            old(self).wf(),
        ensures
            final(self).wf(),
            final(self).kind == old(self).kind,
            final(self).state == old(self).state,
            final(self).describe_dialog == old(self).describe_dialog,
            match crate::resource_panel::table::key_index::<ConfigRow>(views(old(self).state.rows@), key@) {
                Some(i) => final(self).view_dialog matches Some(d) && d.key@ == key@
                    && d.name@ == views(old(self).state.rows@)[i].name && d.yaml == yaml,
                None => final(self).view_dialog == old(self).view_dialog,
            },
    {
        proof {
            crate::resource_panel::state::lemma_key_index::<ConfigRow>(views(self.state.rows@), key@);
        }
        match self.state.row_index(key) {
            Some(i) => {
                assert(views(self.state.rows@)[i as int] == self.state.rows@[i as int]@);
                let name = self.state.rows[i].name.clone();
                self.view_dialog = Some(ManifestViewDialog { key: key.to_owned(), name, yaml });
            },
            None => {},
        }
    }

    /// Opens the describe window of the row with `key`; `raw_yaml` is its
    /// manifest as YAML.  Nothing happens when no row has the key.
    pub fn open_describe_dialog(&mut self, key: &str, raw_yaml: String)
        requires
            old(self).wf(),
        ensures
            final(self).wf(),
            final(self).kind == old(self).kind,
            final(self).state == old(self).state,
            final(self).view_dialog == old(self).view_dialog,
            match crate::resource_panel::table::key_index::<ConfigRow>(views(old(self).state.rows@), key@) {
                Some(i) => final(self).describe_dialog matches Some(d) && d.key@ == key@
                    && d.name@ == views(old(self).state.rows@)[i].name
                    && config_describe_ok(d.describe, old(self).kind, views(old(self).state.rows@)[i], raw_yaml@),
                None => final(self).describe_dialog == old(self).describe_dialog,
            },
    {
        proof {
            crate::resource_panel::state::lemma_key_index::<ConfigRow>(views(self.state.rows@), key@);
        }
        match self.state.row_index(key) {
            Some(i) => {
                assert(views(self.state.rows@)[i as int] == self.state.rows@[i as int]@);
                let name = self.state.rows[i].name.clone();
                let describe = config_describe_from_row(self.kind, &self.state.rows[i], raw_yaml);
                self.describe_dialog = Some(ConfigDescribeDialog { key: key.to_owned(), name, describe });
            },
            None => {},
        }
    }

    /// The delete targets of the selected rows, in row order.
    pub fn selected_delete_targets(&self) -> (r: Vec<ResourceDeleteTarget>)
        ensures
            crate::resource_panel::components::delete_targets_view(r@)
                == crate::resource_panel::components::selected_targets_spec(
                    crate::resource_panel::state::row_targets::<ConfigRow>(views(self.state.rows@)),
                    self.state.selected_rows@,
                ),
    {
        self.state.selected_delete_targets()
    }
}

/// Every configuration list is shown in table order, and shows each listed object
/// exactly once.
pub proof fn law_config_rows_in_table_order(kind: ConfigResourceKind, items: Seq<ResourceSummary>, now: int)
    ensures
        crate::resource_panel::table::in_table_order::<ConfigRow>(config_rows_spec(kind, items, now)),
        config_rows_spec(kind, items, now).to_multiset() == items.map_values(|s: ResourceSummary| config_row_spec(kind, s, now)).to_multiset(),
{
    let all = items.map_values(|s: ResourceSummary| config_row_spec(kind, s, now));
    let p = |v: ConfigRowView| v.namespaced == kind.namespaced_spec();
    assert forall|a: ConfigRowView| p(a) implies !ConfigRow::ordered_before(a, a) by {
        crate::resource_panel::table::lemma_text_lt_irreflexive(a.name);
        crate::resource_panel::job::lemma_namespace_name_irreflexive(a.namespace, a.name);
    }
    assert forall|a: ConfigRowView, b: ConfigRowView, c: ConfigRowView|
        p(a) && p(b) && p(c) && #[trigger] ConfigRow::ordered_before(a, b) && #[trigger] ConfigRow::ordered_before(b, c)
        implies ConfigRow::ordered_before(a, c) by {
        if a.namespaced {
            crate::resource_panel::job::lemma_namespace_name_transitive(a.namespace, a.name, b.namespace, b.name, c.namespace, c.name);
        } else {
            crate::resource_panel::table::lemma_text_lt_transitive(a.name, b.name, c.name);
        }
    }
    assert forall|i: int| 0 <= i < all.len() implies p(#[trigger] all[i]) by {}
    crate::resource_panel::table::lemma_sort_views_in_order::<ConfigRow>(all, p);
    crate::resource_panel::state::lemma_sort_views_permutes::<ConfigRow>(all);
}
/// Every kind's table starts with the name column and ends with the age
/// column, has a namespace column second exactly when its objects live in
/// namespaces, and every row has one cell per column, the first its name
/// and the last its age; so each detail pairs a column with its cell.
pub proof fn law_config_columns_fit_rows(kind: ConfigResourceKind, s: ResourceSummary, now: int)
    ensures
        kind.columns_spec().len() >= 2,
        kind.columns_spec()[0] == "Name"@,
        kind.columns_spec().last() == "Age"@,
        (kind.columns_spec()[1] == "Namespace"@) == kind.namespaced_spec(),
        config_row_spec(kind, s, now).cells.len() == kind.columns_spec().len(),
        config_row_spec(kind, s, now).cells[0] == summary_name(s),
        config_row_spec(kind, s, now).cells.last() == age_spec(s.raw, now),
        config_row_spec(kind, s, now).details.len() == kind.columns_spec().len(),
        forall|i: int| 0 <= i < kind.columns_spec().len() ==> #[trigger] config_row_spec(kind, s, now).details[i]
            == (kind.columns_spec()[i], config_row_spec(kind, s, now).cells[i]),
{
    reveal_strlit("Name");
    reveal_strlit("Namespace");
    reveal_strlit("Age");
    reveal_strlit("Value");
    reveal_strlit("Handler");
    reveal_strlit("Webhooks");
    match kind {
        ConfigResourceKind::PriorityClass => assert("Value"@.len() != "Namespace"@.len()),
        ConfigResourceKind::RuntimeClass => assert("Handler"@.len() != "Namespace"@.len()),
        ConfigResourceKind::MutatingWebhookConfiguration | ConfigResourceKind::ValidatingWebhookConfiguration => {
            assert("Webhooks"@.len() != "Namespace"@.len())
        },
        _ => {},
    }
}
/// An applied or watched object of a configuration kind replaces the row
/// with its key, or is added: the rows of one kind stay in table order
/// with one row per key, its row is the one row with its key, every other
/// row stays, and the table grows by one row exactly when the key is new.
pub proof fn law_config_upsert_keeps_table(s: Seq<ConfigRowView>, row: ConfigRowView, namespaced: bool)
    requires
        keys_distinct::<ConfigRow>(s),
        forall|i: int| 0 <= i < s.len() ==> (#[trigger] s[i]).namespaced == namespaced,
        row.namespaced == namespaced,
    ensures
        crate::resource_panel::table::in_table_order::<ConfigRow>(upsert_views::<ConfigRow>(s, row)),
        keys_distinct::<ConfigRow>(upsert_views::<ConfigRow>(s, row)),
        upsert_views::<ConfigRow>(s, row).contains(row),
        forall|i: int| 0 <= i < upsert_views::<ConfigRow>(s, row).len() && (#[trigger] upsert_views::<ConfigRow>(s, row)[i]).key == row.key
            ==> upsert_views::<ConfigRow>(s, row)[i] == row,
        forall|v: ConfigRowView| #[trigger] s.contains(v) && v.key != row.key ==> upsert_views::<ConfigRow>(s, row).contains(v),
        upsert_views::<ConfigRow>(s, row).len() == s.len() + if row_keys::<ConfigRow>(s).contains(row.key) { 0int } else { 1int },
{
    let p = |v: ConfigRowView| v.namespaced == namespaced;
    assert forall|a: ConfigRowView| p(a) implies !ConfigRow::ordered_before(a, a) by {
        crate::resource_panel::table::lemma_text_lt_irreflexive(a.name);
        crate::resource_panel::job::lemma_namespace_name_irreflexive(a.namespace, a.name);
    }
    assert forall|a: ConfigRowView, b: ConfigRowView, c: ConfigRowView|
        p(a) && p(b) && p(c) && #[trigger] ConfigRow::ordered_before(a, b) && #[trigger] ConfigRow::ordered_before(b, c)
        implies ConfigRow::ordered_before(a, c) by {
        if a.namespaced {
            crate::resource_panel::job::lemma_namespace_name_transitive(a.namespace, a.name, b.namespace, b.name, c.namespace, c.name);
        } else {
            crate::resource_panel::table::lemma_text_lt_transitive(a.name, b.name, c.name);
        }
    }
    law_upsert_keeps_table::<ConfigRow>(s, row, p);
}
/// A metric's text is its type (or `Metric`), `": "`, and its current
/// value, read from the first of these that the metric has: the resource's
/// average utilisation, the resource's average value, the pods' average
/// value, the object's value, the external value; `N/A` when it has none.
pub proof fn law_metric_text_reads_each_source(m: JsonValue)
    ensures
        ({
            let head = match json_get(m, "type"@) {
                Some(JsonValue::String(t)) => t@,
                _ => "Metric"@,
            } + seq![':', ' '];
            let utilization = at3(Some(m), "resource"@, "current"@, "averageUtilization"@);
            let resource = at3(Some(m), "resource"@, "current"@, "averageValue"@);
            let pods = at3(Some(m), "pods"@, "current"@, "averageValue"@);
            let object = at3(Some(m), "object"@, "current"@, "value"@);
            let external = at3(Some(m), "external"@, "current"@, "value"@);
            match (utilization, resource, pods, object, external) {
                (Some(v), _, _, _, _) => metric_text(m) == head + display_text(v),
                (None, Some(v), _, _, _) => metric_text(m) == head + display_text(v),
                (None, None, Some(v), _, _) => metric_text(m) == head + display_text(v),
                (None, None, None, Some(v), _) => metric_text(m) == head + display_text(v),
                (None, None, None, None, Some(v)) => metric_text(m) == head + display_text(v),
                (None, None, None, None, None) => metric_text(m) == head + "N/A"@,
            }
        }),
{
    reveal_strlit("N/A");
    reveal_strlit("Metric");
}

/// An autoscaler whose `status.currentMetrics` holds one metric shows that
/// metric's text in its Targets column; with no metrics listed it shows
/// `N/A` there.
pub proof fn law_hpa_targets_cell(s: ResourceSummary, now: int)
    ensures
        ({
            let cell = config_row_spec(ConfigResourceKind::HorizontalPodAutoscaler, s, now).cells[3];
            let metrics = at2(Some(s.raw), "status"@, "currentMetrics"@);
            match json_as_array(metrics) {
                Some(items) => (items.len() == 1 ==> cell == metric_text(items[0])) && (items.len() == 0 ==> cell == "N/A"@),
                None => cell == "N/A"@,
            }
        }),
{
    reveal_strlit("N/A");
    let metrics = at2(Some(s.raw), "status"@, "currentMetrics"@);
    if let Some(items) = json_as_array(metrics) {
        let texts = items.map_values(|m: JsonValue| metric_text(m));
        if items.len() == 1 {
            assert(texts[0] == metric_text(items[0]));
        }
    }
}
/// A configuration row is searched across all its cells: a non-blank
/// search matches exactly when the trimmed, lower-cased search text occurs
/// in the lower-cased cells joined with spaces.
pub proof fn law_config_search_looks_at_every_cell(kind: ConfigResourceKind, s: ResourceSummary, now: int, search: Seq<char>)
    ensures
        ({
            let needle = crate::text::lowercase(crate::text::trim_seq(search));
            let row = config_row_spec(kind, s, now);
            needle.len() > 0 ==> (ConfigRow::matches_needle(row, needle)
                <==> has_infix(crate::text::lowercase(joined(row.cells, seq![' '])), needle))
        }),
{
}
/// Each configuration kind's cells read the manifest: texts are shown as
/// they are (`N/A` when missing), integers in decimal (`N/A`, or `0` for
/// counts, when missing), flags as `true`/`false`, and each cell sits in
/// the column its title names.
pub proof fn law_config_cells_read_manifest(kind: ConfigResourceKind, s: ResourceSummary, now: int)
    ensures
        ({
            let raw = s.raw;
            let cells = config_row_spec(kind, s, now).cells;
            let text = |o: Option<JsonValue>| match json_as_str(o) {
                Some(t) => t,
                None => "N/A"@,
            };
            let int_na = |o: Option<JsonValue>| match json_as_i64(o) {
                Some(v) => signed_decimal(v as int),
                None => "N/A"@,
            };
            let int_zero = |o: Option<JsonValue>| match json_as_i64(o) {
                Some(v) => signed_decimal(v as int),
                None => "0"@,
            };
            let value = |o: Option<JsonValue>| match o {
                Some(v) => display_text(v),
                None => "N/A"@,
            };
            match kind {
                ConfigResourceKind::HorizontalPodAutoscaler => {
                    &&& cells[2] == match (
                        json_as_str(at3(Some(raw), "spec"@, "scaleTargetRef"@, "kind"@)),
                        json_as_str(at3(Some(raw), "spec"@, "scaleTargetRef"@, "name"@)),
                    ) {
                        (Some(k), Some(n)) => k + "/"@ + n,
                        (None, Some(n)) => n,
                        _ => "N/A"@,
                    }
                    &&& cells[4] == int_na(at2(Some(raw), "spec"@, "minReplicas"@))
                    &&& cells[5] == int_na(at2(Some(raw), "spec"@, "maxReplicas"@))
                    &&& cells[6] == int_zero(at2(Some(raw), "status"@, "currentReplicas"@)) + "/"@
                        + int_zero(at2(Some(raw), "status"@, "desiredReplicas"@))
                },
                ConfigResourceKind::PodDisruptionBudget => {
                    &&& cells[2] == value(at2(Some(raw), "spec"@, "minAvailable"@))
                    &&& cells[3] == value(at2(Some(raw), "spec"@, "maxUnavailable"@))
                    &&& cells[4] == int_zero(at2(Some(raw), "status"@, "disruptionsAllowed"@))
                    &&& cells[5] == int_zero(at2(Some(raw), "status"@, "currentHealthy"@))
                    &&& cells[6] == int_zero(at2(Some(raw), "status"@, "desiredHealthy"@))
                },
                ConfigResourceKind::PriorityClass => {
                    &&& cells[1] == int_na(json_get(raw, "value"@))
                    &&& cells[2] == match json_get(raw, "globalDefault"@) {
                        Some(JsonValue::Bool(true)) => "true"@,
                        Some(JsonValue::Bool(false)) => "false"@,
                        _ => "N/A"@,
                    }
                    &&& cells[3] == text(json_get(raw, "preemptionPolicy"@))
                    &&& cells[4] == text(json_get(raw, "description"@))
                },
                ConfigResourceKind::RuntimeClass => {
                    &&& cells[1] == text(json_get(raw, "handler"@))
                    &&& cells[2] == match resource_map_spec(at2(Some(raw), "overhead"@, "podFixed"@)) {
                        Some(t) => t,
                        None => "N/A"@,
                    }
                    &&& ({
                        let selector = resource_map_spec(at2(Some(raw), "scheduling"@, "nodeSelector"@));
                        let tolerations = match at2(Some(raw), "scheduling"@, "tolerations"@) {
                            Some(JsonValue::Array(items)) => items@.len(),
                            _ => 0nat,
                        };
                        cells[3] == match selector {
                            Some(t) => if tolerations == 0 { t } else { t + "; tolerations="@ + decimal(tolerations) },
                            None => if tolerations == 0 { "N/A"@ } else { "tolerations="@ + decimal(tolerations) },
                        }
                    })
                },
                ConfigResourceKind::Lease => {
                    &&& cells[2] == text(at2(Some(raw), "spec"@, "holderIdentity"@))
                    &&& cells[3] == text(at2(Some(raw), "spec"@, "acquireTime"@))
                    &&& cells[4] == text(at2(Some(raw), "spec"@, "renewTime"@))
                    &&& cells[5] == match json_as_i64(at2(Some(raw), "spec"@, "leaseDurationSeconds"@)) {
                        Some(v) => signed_decimal(v as int) + "s"@,
                        None => "N/A"@,
                    }
                    &&& cells[6] == int_zero(at2(Some(raw), "spec"@, "leaseTransitions"@))
                },
                _ => {
                    &&& cells[1] == decimal(match json_get(raw, "webhooks"@) {
                        Some(JsonValue::Array(items)) => items@.len(),
                        _ => 0nat,
                    })
                    &&& !(json_get(raw, "webhooks"@) matches Some(JsonValue::Array(_))) ==> {
                        &&& cells[2] == "N/A"@
                        &&& cells[3] == "N/A"@
                        &&& cells[4] == "N/A"@
                    }
                },
            }
        }),
{
    reveal_strlit("N/A");
    reveal_strlit("/");
    reveal_strlit("0");
    reveal_strlit("s");
    reveal_strlit("true");
    reveal_strlit("false");
    reveal_strlit("; tolerations=");
    reveal_strlit("tolerations=");
}
} // verus!
