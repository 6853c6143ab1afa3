//! The describe views of rows: labelled fields, label maps, containers and
//! conditions taken from the row and its manifest.
use vstd::prelude::*;
use crate::json::{JsonValue, json_as_str, json_as_u64, json_get, opt_value};
use crate::resource_panel::components::{
    ContainerTemplateDescribe, DescribeCondition, DescribeField, ResourceMapEntry, at2, at3,
    condition_describes, conditions_spec, conditions_view, container_template_describes,
    containers_spec, containers_view, fields_view, map_entries_spec, member, member_of, na, na_text,
    or_na, resource_map_entries, text_of, text_or_na, u64_of,
};
use crate::resource_panel::cron_job::{CronJobRow, CronJobRowView};
use crate::resource_panel::deployment::{DeploymentRow, DeploymentRowView};
use crate::resource_panel::event::{EventRow, EventRowView};
use crate::resource_panel::job::{JobRow, JobRowView};
use crate::resource_panel::table::views;
use crate::text::{decimal, u64_to_string};

verus! {

/// A describe field with the given label and value.
pub fn field(label: &str, value: String) -> (r: DescribeField)
    ensures
        r.label@ == label@,
        r.value@ == value@,
{
    DescribeField { label: label.to_owned(), value }
}

/// A count as text, or `"N/A"`.
pub open spec fn u64_or_na(o: Option<u64>) -> Seq<char> {
    match o {
        Some(n) => decimal(n as nat),
        None => na_text(),
    }
}

/// A count as text, or `"N/A"`.
pub fn u64_text_or_na(o: Option<u64>) -> (r: String)
    ensures
        r@ == u64_or_na(o),
{
    match o {
        Some(n) => u64_to_string(n),
        None => na(),
    }
}

/// The describe view of a job or cron job: summary, counts and execution
/// fields, selector and template labels, containers, conditions, labels,
/// annotations, and the manifest as YAML.
pub struct WorkloadDescribe {
    pub summary: Vec<DescribeField>,
    pub replicas: Vec<DescribeField>,
    pub rollout: Vec<DescribeField>,
    pub selector: Vec<ResourceMapEntry>,
    pub template_labels: Vec<ResourceMapEntry>,
    pub containers: Vec<ContainerTemplateDescribe>,
    pub conditions: Vec<DescribeCondition>,
    pub labels: Vec<ResourceMapEntry>,
    pub annotations: Vec<ResourceMapEntry>,
    pub raw_yaml: String,
}

/// The map entries and lists a workload describe takes from its manifest:
/// the selector and template labels under `template_root` (the object's
/// own spec, or its job template's), the template's containers, the
/// status conditions, and the labels and annotations.
pub open spec fn workload_maps_ok(d: WorkloadDescribe, raw: JsonValue, template_root: Option<JsonValue>) -> bool {
    &&& views(d.selector@) == map_entries_spec(at2(template_root, "selector"@, "matchLabels"@))
    &&& views(d.template_labels@) == map_entries_spec(at3(template_root, "template"@, "metadata"@, "labels"@))
    &&& containers_view(d.containers@) == containers_spec(at3(template_root, "template"@, "spec"@, "containers"@))
    &&& conditions_view(d.conditions@) == conditions_spec(at2(Some(raw), "status"@, "conditions"@))
    &&& views(d.labels@) == map_entries_spec(at2(Some(raw), "metadata"@, "labels"@))
    &&& views(d.annotations@) == map_entries_spec(at2(Some(raw), "metadata"@, "annotations"@))
}

/// `spec.<key>` of a manifest as a count, or `"N/A"`.
pub open spec fn spec_count(raw: JsonValue, key: Seq<char>) -> Seq<char> {
    u64_or_na(json_as_u64(at2(Some(raw), "spec"@, key)))
}

/// `status.<key>` of a manifest as text, or `"N/A"`.
pub open spec fn status_text_or_na(raw: JsonValue, key: Seq<char>) -> Seq<char> {
    or_na(json_as_str(at2(Some(raw), "status"@, key)))
}

/// The describe view of a job row.
pub open spec fn job_describe_ok(d: WorkloadDescribe, row: JobRowView, raw_yaml: Seq<char>) -> bool {
    &&& fields_view(d.summary@) == seq![
        ("Name"@, row.name), ("Namespace"@, row.namespace), ("Age"@, row.age), ("Duration"@, row.duration),
    ]
    &&& fields_view(d.replicas@) == seq![
        ("Completions"@, row.completions), ("Succeeded"@, row.succeeded), ("Failed"@, row.failed), ("Active"@, row.active),
    ]
    &&& fields_view(d.rollout@) == seq![
        ("Parallelism"@, spec_count(row.raw, "parallelism"@)),
        ("Backoff limit"@, spec_count(row.raw, "backoffLimit"@)),
        ("Start time"@, status_text_or_na(row.raw, "startTime"@)),
        ("Completion time"@, status_text_or_na(row.raw, "completionTime"@)),
    ]
    &&& workload_maps_ok(d, row.raw, json_get(row.raw, "spec"@))
    &&& d.raw_yaml@ == raw_yaml
}

/// The maps and lists of a workload describe.
fn workload_maps(
    raw: &JsonValue,
    template_root: Option<&JsonValue>,
    summary: Vec<DescribeField>,
    replicas: Vec<DescribeField>,
    rollout: Vec<DescribeField>,
    raw_yaml: String,
) -> (r: WorkloadDescribe)
    ensures
        workload_maps_ok(r, *raw, opt_value(template_root)),
        r.summary == summary,
        r.replicas == replicas,
        r.rollout == rollout,
        r.raw_yaml == raw_yaml,
{
    let template = member_of(template_root, "template");
    let metadata = raw.get("metadata");
    WorkloadDescribe {
        summary,
        replicas,
        rollout,
        selector: resource_map_entries(member_of(member_of(template_root, "selector"), "matchLabels")),
        template_labels: resource_map_entries(member_of(member_of(template, "metadata"), "labels")),
        containers: container_template_describes(member_of(member_of(template, "spec"), "containers")),
        conditions: condition_describes(member_of(raw.get("status"), "conditions")),
        labels: resource_map_entries(member_of(metadata, "labels")),
        annotations: resource_map_entries(member_of(metadata, "annotations")),
        raw_yaml,
    }
}

/// The describe view of a job row; `raw_yaml` is its manifest as YAML.
pub fn job_describe_from_row(row: &JobRow, raw_yaml: String) -> (r: WorkloadDescribe)
    ensures
        job_describe_ok(r, row@, raw_yaml@),
{
    let raw = &row.raw;
    let spec = raw.get("spec");
    let status = raw.get("status");
    let mut summary: Vec<DescribeField> = Vec::new();
    summary.push(field("Name", row.name.clone()));
    summary.push(field("Namespace", row.namespace.clone()));
    summary.push(field("Age", row.age.clone()));
    summary.push(field("Duration", row.duration.clone()));
    let mut replicas: Vec<DescribeField> = Vec::new();
    replicas.push(field("Completions", row.completions.clone()));
    replicas.push(field("Succeeded", row.succeeded.clone()));
    replicas.push(field("Failed", row.failed.clone()));
    replicas.push(field("Active", row.active.clone()));
    let mut rollout: Vec<DescribeField> = Vec::new();
    rollout.push(field("Parallelism", u64_text_or_na(u64_of(member_of(spec, "parallelism")))));
    rollout.push(field("Backoff limit", u64_text_or_na(u64_of(member_of(spec, "backoffLimit")))));
    rollout.push(field("Start time", text_or_na(text_of(member_of(status, "startTime")))));
    rollout.push(field("Completion time", text_or_na(text_of(member_of(status, "completionTime")))));
    let r = workload_maps(raw, spec, summary, replicas, rollout, raw_yaml);
    assert(fields_view(r.summary@) =~= seq![
        ("Name"@, row@.name), ("Namespace"@, row@.namespace), ("Age"@, row@.age), ("Duration"@, row@.duration),
    ]);
    assert(fields_view(r.replicas@) =~= seq![
        ("Completions"@, row@.completions), ("Succeeded"@, row@.succeeded), ("Failed"@, row@.failed), ("Active"@, row@.active),
    ]);
    assert(fields_view(r.rollout@) =~= seq![
        ("Parallelism"@, spec_count(row@.raw, "parallelism"@)),
        ("Backoff limit"@, spec_count(row@.raw, "backoffLimit"@)),
        ("Start time"@, status_text_or_na(row@.raw, "startTime"@)),
        ("Completion time"@, status_text_or_na(row@.raw, "completionTime"@)),
    ]);
    r
}

/// The describe view of a cron job row: its job template's selector,
/// labels and containers.
pub open spec fn cron_job_describe_ok(d: WorkloadDescribe, row: CronJobRowView, raw_yaml: Seq<char>) -> bool {
    &&& fields_view(d.summary@) == seq![
        ("Name"@, row.name), ("Namespace"@, row.namespace), ("Age"@, row.age), ("Concurrency"@, row.concurrency),
    ]
    &&& fields_view(d.replicas@) == seq![
        ("Schedule"@, row.schedule), ("Suspend"@, row.suspend), ("Last schedule"@, row.last_schedule),
        ("Last success"@, row.last_success),
    ]
    &&& fields_view(d.rollout@) == seq![
        ("Active"@, row.active),
        ("Successful history"@, spec_count(row.raw, "successfulJobsHistoryLimit"@)),
        ("Failed history"@, spec_count(row.raw, "failedJobsHistoryLimit"@)),
        ("Starting deadline"@, spec_count(row.raw, "startingDeadlineSeconds"@)),
    ]
    &&& workload_maps_ok(d, row.raw, at3(Some(row.raw), "spec"@, "jobTemplate"@, "spec"@))
    &&& d.raw_yaml@ == raw_yaml
}

/// The describe view of a cron job row; `raw_yaml` is its manifest as YAML.
pub fn cron_job_describe_from_row(row: &CronJobRow, raw_yaml: String) -> (r: WorkloadDescribe)
    ensures
        cron_job_describe_ok(r, row@, raw_yaml@),
{
    let raw = &row.raw;
    let spec = raw.get("spec");
    let mut summary: Vec<DescribeField> = Vec::new();
    summary.push(field("Name", row.name.clone()));
    summary.push(field("Namespace", row.namespace.clone()));
    summary.push(field("Age", row.age.clone()));
    summary.push(field("Concurrency", row.concurrency.clone()));
    let mut replicas: Vec<DescribeField> = Vec::new();
    replicas.push(field("Schedule", row.schedule.clone()));
    replicas.push(field("Suspend", row.suspend.clone()));
    replicas.push(field("Last schedule", row.last_schedule.clone()));
    replicas.push(field("Last success", row.last_success.clone()));
    let mut rollout: Vec<DescribeField> = Vec::new();
    rollout.push(field("Active", row.active.clone()));
    rollout.push(field("Successful history", u64_text_or_na(u64_of(member_of(spec, "successfulJobsHistoryLimit")))));
    rollout.push(field("Failed history", u64_text_or_na(u64_of(member_of(spec, "failedJobsHistoryLimit")))));
    rollout.push(field("Starting deadline", u64_text_or_na(u64_of(member_of(spec, "startingDeadlineSeconds")))));
    let job_spec = member_of(member_of(spec, "jobTemplate"), "spec");
    let r = workload_maps(raw, job_spec, summary, replicas, rollout, raw_yaml);
    assert(fields_view(r.summary@) =~= seq![
        ("Name"@, row@.name), ("Namespace"@, row@.namespace), ("Age"@, row@.age), ("Concurrency"@, row@.concurrency),
    ]);
    assert(fields_view(r.replicas@) =~= seq![
        ("Schedule"@, row@.schedule), ("Suspend"@, row@.suspend), ("Last schedule"@, row@.last_schedule),
        ("Last success"@, row@.last_success),
    ]);
    assert(fields_view(r.rollout@) =~= seq![
        ("Active"@, row@.active),
        ("Successful history"@, spec_count(row@.raw, "successfulJobsHistoryLimit"@)),
        ("Failed history"@, spec_count(row@.raw, "failedJobsHistoryLimit"@)),
        ("Starting deadline"@, spec_count(row@.raw, "startingDeadlineSeconds"@)),
    ]);
    r
}

/// One container of a deployment's template: its name and image.
pub struct ContainerSummary {
    pub name: String,
    pub image: String,
}

/// The describe view of a deployment: summary, replica and rollout fields,
/// selector and template labels, containers, conditions, labels,
/// annotations, and the manifest as YAML.
pub struct DeploymentDescribe {
    pub summary: Vec<DescribeField>,
    pub replicas: Vec<DescribeField>,
    pub rollout: Vec<DescribeField>,
    pub selector: Vec<ResourceMapEntry>,
    pub template_labels: Vec<ResourceMapEntry>,
    pub containers: Vec<ContainerSummary>,
    pub conditions: Vec<DescribeCondition>,
    pub labels: Vec<ResourceMapEntry>,
    pub annotations: Vec<ResourceMapEntry>,
    pub raw_yaml: String,
}

/// The views of a list of container summaries.
pub open spec fn summaries_view(v: Seq<ContainerSummary>) -> Seq<(Seq<char>, Seq<char>)> {
    v.map_values(|c: ContainerSummary| (c.name@, c.image@))
}

/// The name and image of each container of a containers list.
pub open spec fn container_summaries_spec(value: Option<JsonValue>) -> Seq<(Seq<char>, Seq<char>)> {
    crate::resource_panel::components::items_or_empty(value).map_values(
        |c: JsonValue| (or_na(crate::resource_panel::components::field_text(c, "name"@)), or_na(crate::resource_panel::components::field_text(c, "image"@))),
    )
}

/// The name and image of each container of a containers list.
pub fn deployment_containers(value: Option<&JsonValue>) -> (r: Vec<ContainerSummary>)
    ensures
        summaries_view(r@) == container_summaries_spec(opt_value(value)),
{
    let mut out: Vec<ContainerSummary> = Vec::new();
    match crate::resource_panel::components::array_of(value) {
        None => {
            assert(summaries_view(out@) =~= container_summaries_spec(opt_value(value)));
        },
        Some(items) => {
            let ghost cv = container_summaries_spec(opt_value(value));
            let mut i: usize = 0;
            while i < items.len()
                invariant
                    i <= items@.len(),
                    cv == container_summaries_spec(opt_value(value)),
                    cv.len() == items@.len(),
                    forall|j: int| 0 <= j < items@.len() ==> cv[j] == (
                        or_na(crate::resource_panel::components::field_text(#[trigger] items@[j], "name"@)),
                        or_na(crate::resource_panel::components::field_text(items@[j], "image"@)),
                    ),
                    summaries_view(out@) == cv.take(i as int),
                decreases items@.len() - i,
            {
                let c = &items[i];
                let s = ContainerSummary { name: text_or_na(text_of(c.get("name"))), image: text_or_na(text_of(c.get("image"))) };
                let ghost before = out@;
                out.push(s);
                assert(summaries_view(out@) =~= summaries_view(before).push((s.name@, s.image@)));
                assert(summaries_view(out@) =~= cv.take(i + 1));
                i = i + 1;
            }
            assert(cv.take(i as int) =~= cv);
        },
    }
    out
}

/// The describe view of a deployment row.
pub open spec fn deployment_describe_ok(d: DeploymentDescribe, row: DeploymentRowView, raw_yaml: Seq<char>) -> bool {
    let spec = json_get(row.raw, "spec"@);
    &&& fields_view(d.summary@) == seq![
        ("Name"@, row.name), ("Namespace"@, row.namespace), ("Age"@, row.age), ("Strategy"@, row.strategy),
    ]
    &&& fields_view(d.replicas@) == seq![
        ("Ready"@, row.ready), ("Up-to-date"@, row.up_to_date), ("Available"@, row.available), ("Replicas"@, row.replicas),
    ]
    &&& fields_view(d.rollout@) == seq![
        ("Max surge"@, or_na(json_as_str(member(at2(spec, "strategy"@, "rollingUpdate"@), "maxSurge"@)))),
        ("Max unavailable"@, or_na(json_as_str(member(at2(spec, "strategy"@, "rollingUpdate"@), "maxUnavailable"@)))),
        ("Min ready seconds"@, spec_count(row.raw, "minReadySeconds"@)),
        ("Revision history"@, spec_count(row.raw, "revisionHistoryLimit"@)),
    ]
    &&& views(d.selector@) == map_entries_spec(at2(spec, "selector"@, "matchLabels"@))
    &&& views(d.template_labels@) == map_entries_spec(at3(spec, "template"@, "metadata"@, "labels"@))
    &&& summaries_view(d.containers@) == container_summaries_spec(at3(spec, "template"@, "spec"@, "containers"@))
    &&& conditions_view(d.conditions@) == conditions_spec(at2(Some(row.raw), "status"@, "conditions"@))
    &&& views(d.labels@) == map_entries_spec(at2(Some(row.raw), "metadata"@, "labels"@))
    &&& views(d.annotations@) == map_entries_spec(at2(Some(row.raw), "metadata"@, "annotations"@))
    &&& d.raw_yaml@ == raw_yaml
}

/// The describe view of a deployment row; `raw_yaml` is its manifest as
/// YAML.
pub fn deployment_describe_from_row(row: &DeploymentRow, raw_yaml: String) -> (r: DeploymentDescribe)
    ensures
        deployment_describe_ok(r, row@, raw_yaml@),
{
    let raw = &row.raw;
    let spec = raw.get("spec");
    let rolling = member_of(member_of(spec, "strategy"), "rollingUpdate");
    let template = member_of(spec, "template");
    let metadata = raw.get("metadata");
    let mut summary: Vec<DescribeField> = Vec::new();
    summary.push(field("Name", row.name.clone()));
    summary.push(field("Namespace", row.namespace.clone()));
    summary.push(field("Age", row.age.clone()));
    summary.push(field("Strategy", row.strategy.clone()));
    let mut replicas: Vec<DescribeField> = Vec::new();
    replicas.push(field("Ready", row.ready.clone()));
    replicas.push(field("Up-to-date", row.up_to_date.clone()));
    replicas.push(field("Available", row.available.clone()));
    replicas.push(field("Replicas", row.replicas.clone()));
    let mut rollout: Vec<DescribeField> = Vec::new();
    rollout.push(field("Max surge", text_or_na(text_of(member_of(rolling, "maxSurge")))));
    rollout.push(field("Max unavailable", text_or_na(text_of(member_of(rolling, "maxUnavailable")))));
    rollout.push(field("Min ready seconds", u64_text_or_na(u64_of(member_of(spec, "minReadySeconds")))));
    rollout.push(field("Revision history", u64_text_or_na(u64_of(member_of(spec, "revisionHistoryLimit")))));
    let r = DeploymentDescribe {
        summary,
        replicas,
        rollout,
        selector: resource_map_entries(member_of(member_of(spec, "selector"), "matchLabels")),
        template_labels: resource_map_entries(member_of(member_of(template, "metadata"), "labels")),
        containers: deployment_containers(member_of(member_of(template, "spec"), "containers")),
        conditions: condition_describes(member_of(raw.get("status"), "conditions")),
        labels: resource_map_entries(member_of(metadata, "labels")),
        annotations: resource_map_entries(member_of(metadata, "annotations")),
        raw_yaml,
    };
    assert(fields_view(r.summary@) =~= seq![
        ("Name"@, row@.name), ("Namespace"@, row@.namespace), ("Age"@, row@.age), ("Strategy"@, row@.strategy),
    ]);
    assert(fields_view(r.replicas@) =~= seq![
        ("Ready"@, row@.ready), ("Up-to-date"@, row@.up_to_date), ("Available"@, row@.available), ("Replicas"@, row@.replicas),
    ]);
    assert(fields_view(r.rollout@) =~= seq![
        ("Max surge"@, or_na(json_as_str(member(at2(json_get(row@.raw, "spec"@), "strategy"@, "rollingUpdate"@), "maxSurge"@)))),
        ("Max unavailable"@, or_na(json_as_str(member(at2(json_get(row@.raw, "spec"@), "strategy"@, "rollingUpdate"@), "maxUnavailable"@)))),
        ("Min ready seconds"@, spec_count(row@.raw, "minReadySeconds"@)),
        ("Revision history"@, spec_count(row@.raw, "revisionHistoryLimit"@)),
    ]);
    r
}

/// The describe view of an event: summary, involved object and timing
/// fields, labels, annotations, the message, and the manifest as YAML.
pub struct EventDescribe {
    pub summary: Vec<DescribeField>,
    pub involved: Vec<DescribeField>,
    pub timing: Vec<DescribeField>,
    pub labels: Vec<ResourceMapEntry>,
    pub annotations: Vec<ResourceMapEntry>,
    pub message: String,
    pub raw_yaml: String,
}

/// `involvedObject.<key>` of an event as text, or `"N/A"`.
pub open spec fn involved_text(raw: JsonValue, key: Seq<char>) -> Seq<char> {
    or_na(json_as_str(at2(Some(raw), "involvedObject"@, key)))
}

/// The describe view of an event row.
pub open spec fn event_describe_ok(d: EventDescribe, row: EventRowView, raw_yaml: Seq<char>) -> bool {
    &&& fields_view(d.summary@) == seq![
        ("Name"@, row.name), ("Namespace"@, row.namespace), ("Type"@, row.event_type), ("Reason"@, row.reason),
        ("Count"@, row.count), ("Source"@, row.source),
    ]
    &&& fields_view(d.involved@) == seq![
        ("Object"@, row.involved_object),
        ("Kind"@, involved_text(row.raw, "kind"@)),
        ("Name"@, involved_text(row.raw, "name"@)),
        ("Namespace"@, involved_text(row.raw, "namespace"@)),
        ("UID"@, involved_text(row.raw, "uid"@)),
        ("Field path"@, involved_text(row.raw, "fieldPath"@)),
    ]
    &&& fields_view(d.timing@) == seq![
        ("First seen"@, row.first_seen), ("Last seen"@, row.last_seen), ("Created"@, row.age),
        ("Reporting controller"@, or_na(json_as_str(json_get(row.raw, "reportingController"@)))),
        ("Reporting instance"@, or_na(json_as_str(json_get(row.raw, "reportingInstance"@)))),
    ]
    &&& views(d.labels@) == map_entries_spec(at2(Some(row.raw), "metadata"@, "labels"@))
    &&& views(d.annotations@) == map_entries_spec(at2(Some(row.raw), "metadata"@, "annotations"@))
    &&& d.message@ == row.message
    &&& d.raw_yaml@ == raw_yaml
}

/// The describe view of an event row; `raw_yaml` is its manifest as YAML.
pub fn event_describe_from_row(row: &EventRow, raw_yaml: String) -> (r: EventDescribe)
    ensures
        event_describe_ok(r, row@, raw_yaml@),
{
    let raw = &row.raw;
    let involved_object = raw.get("involvedObject");
    let metadata = raw.get("metadata");
    let mut summary: Vec<DescribeField> = Vec::new();
    summary.push(field("Name", row.name.clone()));
    summary.push(field("Namespace", row.namespace.clone()));
    summary.push(field("Type", row.event_type.clone()));
    summary.push(field("Reason", row.reason.clone()));
    summary.push(field("Count", row.count.clone()));
    summary.push(field("Source", row.source.clone()));
    let mut involved: Vec<DescribeField> = Vec::new();
    involved.push(field("Object", row.involved_object.clone()));
    involved.push(field("Kind", text_or_na(text_of(member_of(involved_object, "kind")))));
    involved.push(field("Name", text_or_na(text_of(member_of(involved_object, "name")))));
    involved.push(field("Namespace", text_or_na(text_of(member_of(involved_object, "namespace")))));
    involved.push(field("UID", text_or_na(text_of(member_of(involved_object, "uid")))));
    involved.push(field("Field path", text_or_na(text_of(member_of(involved_object, "fieldPath")))));
    let mut timing: Vec<DescribeField> = Vec::new();
    timing.push(field("First seen", row.first_seen.clone()));
    timing.push(field("Last seen", row.last_seen.clone()));
    timing.push(field("Created", row.age.clone()));
    timing.push(field("Reporting controller", text_or_na(text_of(raw.get("reportingController")))));
    timing.push(field("Reporting instance", text_or_na(text_of(raw.get("reportingInstance")))));
    let r = EventDescribe {
        summary,
        involved,
        timing,
        labels: resource_map_entries(member_of(metadata, "labels")),
        annotations: resource_map_entries(member_of(metadata, "annotations")),
        message: row.message.clone(),
        raw_yaml,
    };
    assert(fields_view(r.summary@) =~= seq![
        ("Name"@, row@.name), ("Namespace"@, row@.namespace), ("Type"@, row@.event_type), ("Reason"@, row@.reason),
        ("Count"@, row@.count), ("Source"@, row@.source),
    ]);
    assert(fields_view(r.involved@) =~= seq![
        ("Object"@, row@.involved_object),
        ("Kind"@, involved_text(row@.raw, "kind"@)),
        ("Name"@, involved_text(row@.raw, "name"@)),
        ("Namespace"@, involved_text(row@.raw, "namespace"@)),
        ("UID"@, involved_text(row@.raw, "uid"@)),
        ("Field path"@, involved_text(row@.raw, "fieldPath"@)),
    ]);
    assert(fields_view(r.timing@) =~= seq![
        ("First seen"@, row@.first_seen), ("Last seen"@, row@.last_seen), ("Created"@, row@.age),
        ("Reporting controller"@, or_na(json_as_str(json_get(row@.raw, "reportingController"@)))),
        ("Reporting instance"@, or_na(json_as_str(json_get(row@.raw, "reportingInstance"@)))),
    ]);
    r
}


/// An open describe window of a job or cron job: the row's key and name and
/// its describe view.
pub struct WorkloadDescribeDialog {
    pub key: String,
    pub name: String,
    pub describe: WorkloadDescribe,
}

/// An open describe window of a deployment.
pub struct DeploymentDescribeDialog {
    pub key: String,
    pub name: String,
    pub describe: DeploymentDescribe,
}

/// An open describe window of an event.
pub struct EventDescribeDialog {
    pub key: String,
    pub name: String,
    pub describe: EventDescribe,
}
/// The describe views read the manifest: a count of `spec` in decimal, a
/// text of `status` or of `involvedObject` as it is, each `N/A` when the
/// manifest does not have it.
pub proof fn law_describe_values_read_manifest(raw: JsonValue, key: Seq<char>)
    ensures
        spec_count(raw, key) == match crate::resource_panel::components::at2(Some(raw), "spec"@, key) {
            Some(JsonValue::Number(crate::json::JsonNumber::PosInt(n))) => decimal(n as nat),
            _ => "N/A"@,
        },
        status_text_or_na(raw, key) == match crate::resource_panel::components::at2(Some(raw), "status"@, key) {
            Some(JsonValue::String(t)) => t@,
            _ => "N/A"@,
        },
        involved_text(raw, key) == match crate::resource_panel::components::at2(Some(raw), "involvedObject"@, key) {
            Some(JsonValue::String(t)) => t@,
            _ => "N/A"@,
        },
{
    reveal_strlit("N/A");
}
} // verus!
