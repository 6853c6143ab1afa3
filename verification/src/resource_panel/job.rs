//! The Jobs panel: one row per job, with completions, counts, duration,
//! conditions, selector and images.
use vstd::prelude::*;
use crate::resource_panel::describe::{WorkloadDescribeDialog, job_describe_from_row, job_describe_ok};
use crate::json::{JsonValue, json_as_str, json_as_u64, opt_text};
use crate::resource_panel::{
    ClusterId, ResourceActionKind, ResourceActionOutcome, ResourceDeleteTarget, ResourceEvent,
    ResourceList, ResourceLoadKind, ResourceLoadRequest, ResourceRef, ResourceSummary,
    ResourceUiEvent, ResourceWatchRequest, namespace_names, namespaces_from_list, opt_view,
    same_resource_spec, texts_view,
};
use crate::resource_panel::components::{
    GenericDeleteDialog, GenericEditDialog, ResourceMetadata, ResourceRowTarget, age_spec, age_text,
    condition_summary, condition_summary_spec, container_images, container_images_spec,
    field_has, field_matches, member, member_of, namespace_of_summary, name_of_summary,
    namespace_value, namespace_value_spec, needle_of, or_empty, replica_ratio, replica_ratio_spec,
    selector_label_of, selector_label_spec, slash_join, slash_key, summary_name,
    summary_namespace, text_of, text_or_empty, u64_of, na, na_text,
};
use crate::resource_panel::state::{
    ActionEffect, ActionResult, PanelRow, PanelState, list_names_result, names_of_load, names_of_watch,
    rows_result, watch_names_result,
};
use crate::resource_panel::components::ManifestViewDialog;
use crate::resource_panel::table::{
    TableRow, in_table_order, lemma_sort_views_in_order, lemma_text_lt_irreflexive, lemma_text_lt_transitive,
    sort_rows, sort_views, strict_order_on, text_less, text_lt, views,
};
use crate::resource_panel::state::{keys_distinct, lemma_sort_views_permutes, law_upsert_keeps_table, row_keys};
use crate::resource_panel::table::upsert_views;
use crate::text::{decimal, push_decimal, push_str, str_eq, u64_to_string};
use crate::time::{elapsed, elapsed_seconds, human_duration, human_duration_seconds, rfc3339_seconds_in_range, rfc3339_utc_seconds_checked};

verus! {

/// A row of the Jobs table.
pub struct JobRow {
    pub key: String,
    pub name: String,
    pub namespace: String,
    pub completions: String,
    pub succeeded: String,
    pub failed: String,
    pub active: String,
    pub duration: String,
    pub conditions: String,
    pub selector: String,
    pub images: String,
    pub status_summary: String,
    pub age: String,
    pub raw: JsonValue,
}

/// What a job row shows.
pub ghost struct JobRowView {
    pub key: Seq<char>,
    pub name: Seq<char>,
    pub namespace: Seq<char>,
    pub completions: Seq<char>,
    pub succeeded: Seq<char>,
    pub failed: Seq<char>,
    pub active: Seq<char>,
    pub duration: Seq<char>,
    pub conditions: Seq<char>,
    pub selector: Seq<char>,
    pub images: Seq<char>,
    pub status_summary: Seq<char>,
    pub age: Seq<char>,
    pub raw: JsonValue,
}

impl View for JobRow {
    type V = JobRowView;

    open spec fn view(&self) -> JobRowView {
        JobRowView {
            key: self.key@,
            name: self.name@,
            namespace: self.namespace@,
            completions: self.completions@,
            succeeded: self.succeeded@,
            failed: self.failed@,
            active: self.active@,
            duration: self.duration@,
            conditions: self.conditions@,
            selector: self.selector@,
            images: self.images@,
            status_summary: self.status_summary@,
            age: self.age@,
            raw: self.raw,
        }
    }
}

/// Namespace first, then name: the order of namespaced tables.
pub open spec fn namespace_name_before(ns_a: Seq<char>, name_a: Seq<char>, ns_b: Seq<char>, name_b: Seq<char>) -> bool {
    text_lt(ns_a, ns_b) || (ns_a == ns_b && text_lt(name_a, name_b))
}

/// Whether `(ns_a, name_a)` sorts strictly before `(ns_b, name_b)`.
pub fn namespace_name_less(ns_a: &str, name_a: &str, ns_b: &str, name_b: &str) -> (r: bool)
    ensures
        r == namespace_name_before(ns_a@, name_a@, ns_b@, name_b@),
{
    text_less(ns_a, ns_b) || (str_eq(ns_a, ns_b) && text_less(name_a, name_b))
}

impl TableRow for JobRow {
    open spec fn key_of(v: JobRowView) -> Seq<char> {
        v.key
    }

    open spec fn ordered_before(a: JobRowView, b: JobRowView) -> bool {
        namespace_name_before(a.namespace, a.name, b.namespace, b.name)
    }

    fn row_key(&self) -> (r: &str) {
        self.key.as_str()
    }

    fn before(&self, other: &Self) -> (r: bool) {
        namespace_name_less(self.namespace.as_str(), self.name.as_str(), other.namespace.as_str(), other.name.as_str())
    }
}

impl PanelRow for JobRow {
    open spec fn namespace_of(v: JobRowView) -> Option<Seq<char>> {
        namespace_value_spec(v.namespace)
    }

    open spec fn name_of(v: JobRowView) -> Seq<char> {
        v.name
    }

    open spec fn matches_needle(v: JobRowView, needle: Seq<char>) -> bool {
        ||| needle.len() == 0
        ||| field_matches(v.name, needle)
        ||| field_matches(v.namespace, needle)
        ||| field_matches(v.selector, needle)
        ||| field_matches(v.images, needle)
        ||| field_matches(v.conditions, needle)
        ||| field_matches(v.status_summary, needle)
    }

    proof fn lemma_empty_needle_matches(v: JobRowView) {
    }

    fn target(&self) -> (r: ResourceRowTarget) {
        ResourceRowTarget { key: self.key.clone(), namespace: namespace_value(self.namespace.as_str()), name: self.name.clone() }
    }

    fn matches(&self, needle: &str) -> (r: bool) {
        crate::resource_panel::components::char_count(needle) == 0
            || field_has(self.name.as_str(), needle)
            || field_has(self.namespace.as_str(), needle)
            || field_has(self.selector.as_str(), needle)
            || field_has(self.images.as_str(), needle)
            || field_has(self.conditions.as_str(), needle)
            || field_has(self.status_summary.as_str(), needle)
    }
}

/// `namespace/name`, the key of a job row.
pub fn job_key(namespace: &str, name: &str) -> (r: String)
    ensures
        r@ == slash_key(namespace@, name@),
{
    slash_join(namespace, name)
}

/// `succeeded=<n>, failed=<n>, active=<n>`.
pub open spec fn job_status_spec(succeeded: u64, failed: u64, active: u64) -> Seq<char> {
    "succeeded="@ + decimal(succeeded as nat) + ", failed="@ + decimal(failed as nat) + ", active="@
        + decimal(active as nat)
}

/// `succeeded=<n>, failed=<n>, active=<n>`.
pub fn job_status_summary(succeeded: u64, failed: u64, active: u64) -> (r: String)
    ensures
        r@ == job_status_spec(succeeded, failed, active),
{
    let mut s = String::new();
    push_str(&mut s, "succeeded=");
    push_decimal(&mut s, succeeded);
    push_str(&mut s, ", failed=");
    push_decimal(&mut s, failed);
    push_str(&mut s, ", active=");
    push_decimal(&mut s, active);
    s
}

/// `status.<key>` of a manifest, when it is a string.
pub open spec fn status_text(raw: JsonValue, key: Seq<char>) -> Option<Seq<char>> {
    json_as_str(member(member(Some(raw), "status"@), key))
}

/// How long the job ran: from `status.startTime` to
/// `status.completionTime`, never negative; `"N/A"` unless both are
/// timestamps.
pub open spec fn job_duration_spec(raw: JsonValue) -> Seq<char> {
    match (status_text(raw, "startTime"@), status_text(raw, "completionTime"@)) {
        (Some(start), Some(completion)) => match (rfc3339_seconds_in_range(start), rfc3339_seconds_in_range(completion)) {
            (Some(s), Some(c)) => human_duration(elapsed_seconds(s, c)),
            _ => na_text(),
        },
        _ => na_text(),
    }
}

/// How long the job ran.
pub fn job_duration(raw: &JsonValue) -> (r: String)
    ensures
        r@ == job_duration_spec(*raw),
{
    let status = raw.get("status");
    let start = match text_of(member_of(status, "startTime")) {
        Some(s) => s,
        None => return na(),
    };
    let completion = match text_of(member_of(status, "completionTime")) {
        Some(c) => c,
        None => return na(),
    };
    let start = match rfc3339_utc_seconds_checked(start) {
        Some(s) => s,
        None => return na(),
    };
    let completion = match rfc3339_utc_seconds_checked(completion) {
        Some(c) => c,
        None => return na(),
    };
    human_duration_seconds(elapsed(start, completion))
}

/// `<manifest section>.<key>` as a non-negative integer.
pub open spec fn section_u64(raw: JsonValue, section: Seq<char>, key: Seq<char>) -> Option<u64> {
    json_as_u64(member(member(Some(raw), section), key))
}

/// A count of the job's status, 0 when missing.
pub open spec fn status_count(raw: JsonValue, key: Seq<char>) -> u64 {
    match section_u64(raw, "status"@, key) {
        Some(n) => n,
        None => 0,
    }
}

/// The row a listed job is shown as, at time `now`.
pub open spec fn job_row_spec(s: ResourceSummary, now: int) -> JobRowView {
    let raw = s.raw;
    let name = summary_name(s);
    let namespace = summary_namespace(s);
    let succeeded = status_count(raw, "succeeded"@);
    let failed = status_count(raw, "failed"@);
    let active = status_count(raw, "active"@);
    JobRowView {
        key: slash_key(namespace, name),
        name,
        namespace,
        completions: replica_ratio_spec(succeeded, section_u64(raw, "spec"@, "completions"@)),
        succeeded: decimal(succeeded as nat),
        failed: decimal(failed as nat),
        active: decimal(active as nat),
        duration: job_duration_spec(raw),
        conditions: condition_summary_spec(raw),
        selector: selector_label_spec(member(member(member(Some(raw), "spec"@), "selector"@), "matchLabels"@)),
        images: container_images_spec(raw),
        status_summary: job_status_spec(succeeded, failed, active),
        age: age_spec(raw, now),
        raw,
    }
}

impl JobRow {
    /// The row a listed job is shown as, at time `now` (seconds since the
    /// Unix epoch, for the age).
    pub fn from_summary(summary: ResourceSummary, now: i64) -> (r: JobRow)
        ensures
            r@ == job_row_spec(summary, now as int),
    {
        let name = name_of_summary(&summary);
        let namespace = namespace_of_summary(&summary);
        let raw = &summary.raw;
        let desired = u64_of(member_of(raw.get("spec"), "completions"));
        let status = raw.get("status");
        let succeeded = match u64_of(member_of(status, "succeeded")) {
            Some(n) => n,
            None => 0,
        };
        let failed = match u64_of(member_of(status, "failed")) {
            Some(n) => n,
            None => 0,
        };
        let active = match u64_of(member_of(status, "active")) {
            Some(n) => n,
            None => 0,
        };
        let key = job_key(namespace.as_str(), name.as_str());
        let completions = replica_ratio(succeeded, desired);
        let duration = job_duration(raw);
        let conditions = condition_summary(raw);
        let selector = selector_label_of(member_of(member_of(raw.get("spec"), "selector"), "matchLabels"));
        let images = container_images(raw);
        let status_summary = job_status_summary(succeeded, failed, active);
        let age = age_text(raw, now);
        JobRow {
            key,
            name,
            namespace,
            completions,
            succeeded: u64_to_string(succeeded),
            failed: u64_to_string(failed),
            active: u64_to_string(active),
            duration,
            conditions,
            selector,
            images,
            status_summary,
            age,
            raw: summary.raw,
        }
    }

    /// The object a delete of this row acts on.
    pub fn delete_target(&self) -> (r: ResourceDeleteTarget)
        ensures
            opt_view(r.namespace) == namespace_value_spec(self.namespace@),
            r.name@ == self.name@,
    {
        ResourceDeleteTarget { namespace: namespace_value(self.namespace.as_str()), name: self.name.clone() }
    }
}

/// The rows of a job list in table order.
pub open spec fn job_rows_spec(items: Seq<ResourceSummary>, now: int) -> Seq<JobRowView> {
    sort_views::<JobRow>(items.map_values(|s: ResourceSummary| job_row_spec(s, now)))
}

/// The rows of a job list, sorted by namespace and then name.
pub fn job_rows_from_list(items: Vec<ResourceSummary>, now: i64) -> (r: Vec<JobRow>)
    ensures
        views(r@) == job_rows_spec(items@, now as int),
{
    let ghost all = items@.map_values(|s: ResourceSummary| job_row_spec(s, now as int));
    let mut src = items;
    let mut rows: Vec<JobRow> = Vec::new();
    let mut k: usize = 0;
    assert(all.len() == src.len());
    assert forall|j: int| 0 <= j < src@.len() implies job_row_spec(#[trigger] src@[j], now as int) == all[0 + j] by {}
    while src.len() > 0
        invariant
            k <= all.len(),
            all.len() <= usize::MAX,
            src@.len() == all.len() - k,
            forall|j: int| 0 <= j < src@.len() ==> job_row_spec(#[trigger] src@[j], now as int) == all[k + j],
            views(rows@) == all.take(k as int),
        decreases src@.len(),
    {
        let ghost before = src@;
        let item = src.remove(0);
        assert(job_row_spec(item, now as int) == all[k as int]);
        assert forall|j: int| 0 <= j < src@.len() implies job_row_spec(#[trigger] src@[j], now as int) == all[k + 1 + j] by {
            assert(src@[j] == before[j + 1]);
        }
        let row = JobRow::from_summary(item, now);
        let ghost rows_before = rows@;
        rows.push(row);
        assert(views(rows@) =~= views(rows_before).push(row@));
        assert(views(rows@) =~= all.take(k + 1));
        k = k + 1;
    }
    assert(all.take(k as int) =~= all);
    sort_rows(rows)
}

/// The Jobs panel's description of what it shows.
pub fn job_metadata() -> (r: ResourceMetadata)
    ensures
        r.id@ == "job"@,
        r.title@ == "Jobs"@,
        r.api_version@ == "batch/v1"@,
        r.kind@ == "Job"@,
        opt_view(r.resource.group) == Some("batch"@),
        r.resource.version@ == "v1"@,
        r.resource.plural@ == "jobs"@,
        r.resource.namespaced,
        r.namespaced,
{
    ResourceMetadata {
        id: "job".to_owned(),
        title: "Jobs".to_owned(),
        api_version: "batch/v1".to_owned(),
        kind: "Job".to_owned(),
        resource: ResourceRef::grouped("batch", "v1", "jobs"),
        namespaced: true,
    }
}

/// The job resource: `batch/v1 jobs`, namespaced.
pub open spec fn is_job_resource(r: ResourceRef) -> bool {
    &&& opt_view(r.group) == Some("batch"@)
    &&& r.version@ == "v1"@
    &&& r.plural@ == "jobs"@
    &&& r.namespaced
}

/// The key of the row a delete removes: only a delete of a job has one.
pub open spec fn deleted_job_key(kind: ResourceActionKind) -> Option<Seq<char>> {
    match kind {
        ResourceActionKind::DeleteResource { resource, namespace, name } =>
            if is_job_resource(resource) {
                Some(slash_key(or_empty(opt_view(namespace)), name@))
            } else {
                None
            },
        _ => None,
    }
}

/// The keys of the rows a batch delete removes.
pub open spec fn batch_job_keys(targets: Seq<ResourceDeleteTarget>) -> Seq<Seq<char>> {
    targets.map_values(|t: ResourceDeleteTarget| slash_key(or_empty(opt_view(t.namespace)), t.name@))
}

/// What an action's result means for the Jobs table at time `now`.
pub open spec fn job_action_effect(
    kind: ResourceActionKind,
    result: Result<ResourceActionOutcome, String>,
    now: int,
) -> ActionEffect<JobRowView> {
    match result {
        Ok(ResourceActionOutcome::Applied(summary)) => ActionEffect::Applied(job_row_spec(summary, now)),
        Ok(ResourceActionOutcome::Deleted) => ActionEffect::Deleted(deleted_job_key(kind)),
        Ok(ResourceActionOutcome::BatchDeleted(targets)) => ActionEffect::BatchDeleted(batch_job_keys(targets@)),
        Ok(ResourceActionOutcome::Patched(_)) => ActionEffect::Unchanged,
        Ok(ResourceActionOutcome::Evicted) => ActionEffect::Unchanged,
        Err(e) => ActionEffect::Failed(e),
    }
}

/// The keys of the rows a batch delete removes.
pub fn batch_keys(targets: &Vec<ResourceDeleteTarget>) -> (r: Vec<String>)
    ensures
        texts_view(r@) == batch_job_keys(targets@),
{
    let mut out: Vec<String> = Vec::new();
    let mut i: usize = 0;
    while i < targets.len()
        invariant
            i <= targets@.len(),
            texts_view(out@) == batch_job_keys(targets@).take(i as int),
        decreases targets@.len() - i,
    {
        let t = &targets[i];
        let key = job_key(text_or_empty(&t.namespace), t.name.as_str());
        let ghost before = out@;
        out.push(key);
        assert(texts_view(out@) =~= texts_view(before).push(key@));
        assert(texts_view(out@) =~= batch_job_keys(targets@).take(i + 1));
        i = i + 1;
    }
    assert(batch_job_keys(targets@).take(i as int) =~= batch_job_keys(targets@));
    out
}

/// The job action result as the panel takes it.
pub fn job_action_result(kind: ResourceActionKind, result: Result<ResourceActionOutcome, String>, now: i64) -> (r: ActionResult<JobRow>)
    ensures
        crate::resource_panel::state::action_effect::<JobRow>(r) == job_action_effect(kind, result, now as int),
{
    match result {
        Ok(ResourceActionOutcome::Applied(summary)) => ActionResult::Applied(JobRow::from_summary(summary, now)),
        Ok(ResourceActionOutcome::Deleted) => {
            match kind {
                ResourceActionKind::DeleteResource { resource, namespace, name } => {
                    let metadata = job_metadata();
                    if resource.same(&metadata.resource) {
                        ActionResult::Deleted(Some(job_key(text_or_empty(&namespace), name.as_str())))
                    } else {
                        ActionResult::Deleted(None)
                    }
                },
                _ => ActionResult::Deleted(None),
            }
        },
        Ok(ResourceActionOutcome::BatchDeleted(targets)) => ActionResult::BatchDeleted(batch_keys(&targets)),
        Ok(ResourceActionOutcome::Patched(_)) => ActionResult::Unchanged,
        Ok(ResourceActionOutcome::Evicted) => ActionResult::Unchanged,
        Err(e) => ActionResult::Failed(e),
    }
}


/// The Jobs panel.
pub struct JobResourcePanel {
    pub state: PanelState<JobRow>,
    pub view_dialog: Option<ManifestViewDialog>,
    pub describe_dialog: Option<WorkloadDescribeDialog>,
}

/// The job rows of a list answer at time `now`.
pub open spec fn job_load_rows(result: Result<ResourceList, String>, now: int) -> Result<Seq<JobRowView>, String> {
    match result {
        Ok(list) => Ok(job_rows_spec(list.items@, now)),
        Err(e) => Err(e),
    }
}

/// The job rows of a watch answer at time `now`: only a snapshot has rows.
pub open spec fn job_watch_rows(result: Result<ResourceEvent, String>, now: int) -> Result<Option<Seq<JobRowView>>, String> {
    match result {
        Ok(ResourceEvent::Snapshot(list)) => Ok(Some(job_rows_spec(list.items@, now))),
        Ok(_) => Ok(None),
        Err(e) => Err(e),
    }
}

/// What an answer does to the Jobs panel's state at time `now`: namespace
/// answers update the namespace list whoever asked; job answers go through
/// the request checks; action results through the action checks; anything
/// else changes nothing.
pub open spec fn job_event_post(old: PanelState<JobRow>, new: PanelState<JobRow>, event: ResourceUiEvent, now: int) -> bool {
    match event {
        ResourceUiEvent::ResourcesLoaded { request, result } => match request.kind {
            ResourceLoadKind::Namespaces =>
                PanelState::<JobRow>::namespace_load_post(old, new, request.request_id, list_names_result(result)),
            ResourceLoadKind::Jobs { .. } =>
                PanelState::<JobRow>::rows_load_post(old, new, request.request_id, job_load_rows(result, now)),
            _ => new == old,
        },
        ResourceUiEvent::ResourceWatchUpdated { request, result } => match request.kind {
            ResourceLoadKind::Namespaces =>
                PanelState::<JobRow>::namespace_watch_post(old, new, request.request_id, watch_names_result(result)),
            ResourceLoadKind::Jobs { .. } =>
                PanelState::<JobRow>::rows_watch_post(old, new, request.request_id, job_watch_rows(result, now)),
            _ => new == old,
        },
        ResourceUiEvent::ResourceActionCompleted { request, result } =>
            PanelState::<JobRow>::action_post(old, new, request.request_id, job_action_effect(request.kind, result, now)),
        _ => new == old,
    }
}

impl JobResourcePanel {
    /// The panel's invariant.
    pub open spec fn wf(&self) -> bool {
        self.state.wf()
    }

    /// An empty panel.
    pub fn new() -> (r: JobResourcePanel)
        ensures
            r.wf(),
            r.state.is_initial(),
            r.state.next_request_id == 0,
            r.state.last_cluster_id is None,
            r.view_dialog is None,
            r.describe_dialog is None,
    {
        JobResourcePanel { state: PanelState::new(), view_dialog: None, describe_dialog: None }
    }

    /// Takes an answer; `now` (seconds since the Unix epoch) dates the ages
    /// of new rows.
    pub fn apply_event(&mut self, event: ResourceUiEvent, now: i64)
        requires
            old(self).wf(),
        ensures
            final(self).wf(),
            job_event_post(old(self).state, final(self).state, event, now as int),
            final(self).view_dialog == old(self).view_dialog,
            final(self).describe_dialog == old(self).describe_dialog,
    {
        match event {
            ResourceUiEvent::ResourcesLoaded { request, result } => {
                let id = request.request_id;
                match request.kind {
                    ResourceLoadKind::Namespaces => self.state.apply_namespace_load(id, names_of_load(result)),
                    ResourceLoadKind::Jobs { .. } => {
                        let rows = match result {
                            Ok(list) => Ok(job_rows_from_list(list.items, now)),
                            Err(e) => Err(e),
                        };
                        self.state.apply_rows_load(id, rows);
                    },
                    _ => {},
                }
            },
            ResourceUiEvent::ResourceWatchUpdated { request, result } => {
                let id = request.request_id;
                match request.kind {
                    ResourceLoadKind::Namespaces => self.state.apply_namespace_watch(id, names_of_watch(result)),
                    ResourceLoadKind::Jobs { .. } => {
                        let rows = match result {
                            Ok(ResourceEvent::Snapshot(list)) => Ok(Some(job_rows_from_list(list.items, now))),
                            Ok(_) => Ok(None),
                            Err(e) => Err(e),
                        };
                        self.state.apply_rows_watch(id, rows);
                    },
                    _ => {},
                }
            },
            ResourceUiEvent::ResourceActionCompleted { request, result } => {
                let id = request.request_id;
                let outcome = job_action_result(request.kind, result, now);
                self.state.apply_action_result(id, outcome);
            },
            _ => {},
        }
    }

    /// Forgets the previous cluster's rows, requests and dialogs when shown
    /// for another cluster.
    pub fn reset_for_cluster_change(&mut self, cluster_id: &ClusterId)
        requires
            old(self).wf(),
        ensures
            final(self).wf(),
            crate::resource_panel::state::cluster_view(old(self).state.last_cluster_id) == Some(cluster_id.id@)
                ==> *final(self) == *old(self),
            crate::resource_panel::state::cluster_view(old(self).state.last_cluster_id) != Some(cluster_id.id@) ==> {
                &&& final(self).state.is_initial()
                &&& crate::resource_panel::state::cluster_view(final(self).state.last_cluster_id) == Some(cluster_id.id@)
                &&& final(self).state.next_request_id == old(self).state.next_request_id
                &&& final(self).view_dialog is None
                &&& final(self).describe_dialog is None
            },
    {
        let same = match &self.state.last_cluster_id {
            Some(last) => last.same(cluster_id),
            None => false,
        };
        if same {
            return;
        }
        self.state.reset_for_cluster_change(cluster_id);
        self.view_dialog = None;
        self.describe_dialog = None;
    }

    /// A job list request for the selected namespace; it becomes the
    /// current one.
    pub fn request_jobs(&mut self, cluster_id: ClusterId) -> (r: ResourceLoadRequest)
        requires
            old(self).wf(),
            old(self).state.next_request_id < u64::MAX,
        ensures
            final(self).wf(),
            r.request_id == old(self).state.next_request_id + 1,
            r.cluster_id == cluster_id,
            r.kind matches ResourceLoadKind::Jobs { namespace } && opt_view(namespace) == opt_view(old(self).state.namespace_filter),
            final(self).state.next_request_id == r.request_id,
            final(self).state.row_request_id == Some(r.request_id),
            final(self).state.row_status == crate::resource_panel::LoadStatus::Loading,
            final(self).state.rows == old(self).state.rows,
            final(self).state.selected_rows == old(self).state.selected_rows,
            final(self).view_dialog == old(self).view_dialog,
            final(self).describe_dialog == old(self).describe_dialog,
    {
        let id = self.state.begin_row_load();
        ResourceLoadRequest {
            request_id: id,
            cluster_id,
            kind: ResourceLoadKind::Jobs { namespace: crate::resource_panel::copy_opt_text(&self.state.namespace_filter) },
        }
    }

    /// The namespace watch; it becomes the current one.
    pub fn request_namespace_watch(&mut self, cluster_id: ClusterId) -> (r: ResourceWatchRequest)
        requires
            old(self).wf(),
            old(self).state.next_request_id < u64::MAX,
        ensures
            final(self).wf(),
            r.request_id == old(self).state.next_request_id + 1,
            r.cluster_id == cluster_id,
            r.kind == ResourceLoadKind::Namespaces,
            final(self).state.next_request_id == r.request_id,
            final(self).state.namespace_watch_request_id == Some(r.request_id),
            final(self).state.namespace_status == crate::resource_panel::LoadStatus::Loading,
            final(self).state.same_rows(&old(self).state),
            final(self).view_dialog == old(self).view_dialog,
            final(self).describe_dialog == old(self).describe_dialog,
    {
        let id = self.state.begin_namespace_watch();
        ResourceWatchRequest { request_id: id, cluster_id, kind: ResourceLoadKind::Namespaces }
    }

    /// The job watch for the selected namespace; it becomes the current one.
    pub fn request_job_watch(&mut self, cluster_id: ClusterId) -> (r: ResourceWatchRequest)
        requires
            old(self).wf(),
            old(self).state.next_request_id < u64::MAX,
        ensures
            final(self).wf(),
            r.request_id == old(self).state.next_request_id + 1,
            r.cluster_id == cluster_id,
            r.kind matches ResourceLoadKind::Jobs { namespace } && opt_view(namespace) == opt_view(old(self).state.namespace_filter),
            final(self).state.next_request_id == r.request_id,
            final(self).state.row_watch_request_id == Some(r.request_id),
            final(self).state.row_status == crate::resource_panel::LoadStatus::Loading,
            final(self).state.rows == old(self).state.rows,
            final(self).state.selected_rows == old(self).state.selected_rows,
            final(self).view_dialog == old(self).view_dialog,
            final(self).describe_dialog == old(self).describe_dialog,
    {
        let id = self.state.begin_row_watch();
        ResourceWatchRequest {
            request_id: id,
            cluster_id,
            kind: ResourceLoadKind::Jobs { namespace: crate::resource_panel::copy_opt_text(&self.state.namespace_filter) },
        }
    }

    /// Opens the view dialog of the row with `key` on its manifest's YAML;
    /// nothing happens when no row has the key.
    pub fn open_view_dialog(&mut self, key: &str, yaml: String)
        requires
            old(self).wf(),
        ensures
            final(self).wf(),
            final(self).state == old(self).state,
            final(self).describe_dialog == old(self).describe_dialog,
            match crate::resource_panel::table::key_index::<JobRow>(views(old(self).state.rows@), key@) {
                Some(i) => final(self).view_dialog matches Some(d) && d.key@ == key@
                    && d.name@ == views(old(self).state.rows@)[i].name && d.yaml == yaml,
                None => final(self).view_dialog == old(self).view_dialog,
            },
    {
        proof {
            crate::resource_panel::state::lemma_key_index::<JobRow>(views(self.state.rows@), key@);
        }
        match self.state.row_index(key) {
            Some(i) => {
                assert(views(self.state.rows@)[i as int] == self.state.rows@[i as int]@);
                let name = self.state.rows[i].name.clone();
                self.view_dialog = Some(ManifestViewDialog { key: key.to_owned(), name, yaml });
            },
            None => {},
        }
    }

    /// Opens the describe window of the row with `key`; `raw_yaml` is its
    /// manifest as YAML.  Nothing happens when no row has the key.
    pub fn open_describe_dialog(&mut self, key: &str, raw_yaml: String)
        requires
            old(self).wf(),
        ensures
            final(self).wf(),
            final(self).state == old(self).state,
            final(self).view_dialog == old(self).view_dialog,
            match crate::resource_panel::table::key_index::<JobRow>(views(old(self).state.rows@), key@) {
                Some(i) => final(self).describe_dialog matches Some(d) && d.key@ == key@
                    && d.name@ == views(old(self).state.rows@)[i].name
                    && job_describe_ok(d.describe, views(old(self).state.rows@)[i], raw_yaml@),
                None => final(self).describe_dialog == old(self).describe_dialog,
            },
    {
        proof {
            crate::resource_panel::state::lemma_key_index::<JobRow>(views(self.state.rows@), key@);
        }
        match self.state.row_index(key) {
            Some(i) => {
                assert(views(self.state.rows@)[i as int] == self.state.rows@[i as int]@);
                let name = self.state.rows[i].name.clone();
                let describe = job_describe_from_row(&self.state.rows[i], raw_yaml);
                self.describe_dialog = Some(WorkloadDescribeDialog { key: key.to_owned(), name, describe });
            },
            None => {},
        }
    }

    /// The delete targets of the selected rows, in row order.
    pub fn selected_delete_targets(&self) -> (r: Vec<ResourceDeleteTarget>)
        ensures
            crate::resource_panel::components::delete_targets_view(r@)
                == crate::resource_panel::components::selected_targets_spec(
                    crate::resource_panel::state::row_targets::<JobRow>(views(self.state.rows@)),
                    self.state.selected_rows@,
                ),
    {
        self.state.selected_delete_targets()
    }
}

/// Namespace-then-name order: no pair before itself.
pub proof fn lemma_namespace_name_irreflexive(ns: Seq<char>, name: Seq<char>)
    ensures
        !namespace_name_before(ns, name, ns, name),
{
    lemma_text_lt_irreflexive(ns);
    lemma_text_lt_irreflexive(name);
}

/// Namespace-then-name order is transitive.
pub proof fn lemma_namespace_name_transitive(
    ns_a: Seq<char>, name_a: Seq<char>, ns_b: Seq<char>, name_b: Seq<char>, ns_c: Seq<char>, name_c: Seq<char>,
)
    requires
        namespace_name_before(ns_a, name_a, ns_b, name_b),
        namespace_name_before(ns_b, name_b, ns_c, name_c),
    ensures
        namespace_name_before(ns_a, name_a, ns_c, name_c),
{
    if text_lt(ns_a, ns_b) && text_lt(ns_b, ns_c) {
        lemma_text_lt_transitive(ns_a, ns_b, ns_c);
    } else if text_lt(ns_a, ns_b) {
    } else if text_lt(ns_b, ns_c) {
    } else {
        lemma_text_lt_transitive(name_a, name_b, name_c);
    }
}

/// Every job list is shown in table order (by namespace, then name), and
/// shows each listed job exactly once.
pub proof fn law_job_rows_in_table_order(items: Seq<ResourceSummary>, now: int)
    ensures
        in_table_order::<JobRow>(job_rows_spec(items, now)),
        job_rows_spec(items, now).to_multiset() == items.map_values(|s: ResourceSummary| job_row_spec(s, now)).to_multiset(),
{
    let all = items.map_values(|s: ResourceSummary| job_row_spec(s, now));
    let p = |v: JobRowView| true;
    assert forall|a: JobRowView| p(a) implies !JobRow::ordered_before(a, a) by {
        lemma_namespace_name_irreflexive(a.namespace, a.name);
    }
    assert forall|a: JobRowView, b: JobRowView, c: JobRowView|
        p(a) && p(b) && p(c) && #[trigger] JobRow::ordered_before(a, b) && #[trigger] JobRow::ordered_before(b, c)
        implies JobRow::ordered_before(a, c) by {
        lemma_namespace_name_transitive(a.namespace, a.name, b.namespace, b.name, c.namespace, c.name);
    }
    lemma_sort_views_in_order::<JobRow>(all, p);
    lemma_sort_views_permutes::<JobRow>(all);
}
/// An applied or watched job replaces the row with its key, or is added:
/// the rows stay sorted by namespace and name with one row per key, the
/// job's row is the one row with its key, every other row stays, and the
/// table grows by one row exactly when the key is new.
pub proof fn law_job_upsert_keeps_table(s: Seq<JobRowView>, row: JobRowView)
    requires
        keys_distinct::<JobRow>(s),
    ensures
        in_table_order::<JobRow>(upsert_views::<JobRow>(s, row)),
        keys_distinct::<JobRow>(upsert_views::<JobRow>(s, row)),
        upsert_views::<JobRow>(s, row).contains(row),
        forall|i: int| 0 <= i < upsert_views::<JobRow>(s, row).len() && (#[trigger] upsert_views::<JobRow>(s, row)[i]).key == row.key
            ==> upsert_views::<JobRow>(s, row)[i] == row,
        forall|v: JobRowView| #[trigger] s.contains(v) && v.key != row.key ==> upsert_views::<JobRow>(s, row).contains(v),
        upsert_views::<JobRow>(s, row).len() == s.len() + if row_keys::<JobRow>(s).contains(row.key) { 0int } else { 1int },
{
    let p = |v: JobRowView| true;
    assert forall|a: JobRowView| p(a) implies !JobRow::ordered_before(a, a) by {
        lemma_namespace_name_irreflexive(a.namespace, a.name);
    }
    assert forall|a: JobRowView, b: JobRowView, c: JobRowView|
        p(a) && p(b) && p(c) && #[trigger] JobRow::ordered_before(a, b) && #[trigger] JobRow::ordered_before(b, c)
        implies JobRow::ordered_before(a, c) by {
        lemma_namespace_name_transitive(a.namespace, a.name, b.namespace, b.name, c.namespace, c.name);
    }
    assert(strict_order_on::<JobRow>(p));
    law_upsert_keeps_table::<JobRow>(s, row, p);
}
/// A search finds a row by any of its name, namespace, selector, images, conditions
/// and status summary: when the search text,
/// trimmed and lower-cased, occurs in one of them lower-cased, the row
/// matches; and a row matches a non-blank search only that way.
pub proof fn law_job_search_looks_at_every_column(v: JobRowView, search: Seq<char>)
    ensures
        ({
            let needle = crate::text::lowercase(crate::text::trim_seq(search));
            &&& crate::text::has_infix(crate::text::lowercase(v.name), needle) ==> JobRow::matches_needle(v, needle)
            &&& crate::text::has_infix(crate::text::lowercase(v.namespace), needle) ==> JobRow::matches_needle(v, needle)
            &&& crate::text::has_infix(crate::text::lowercase(v.selector), needle) ==> JobRow::matches_needle(v, needle)
            &&& crate::text::has_infix(crate::text::lowercase(v.images), needle) ==> JobRow::matches_needle(v, needle)
            &&& crate::text::has_infix(crate::text::lowercase(v.conditions), needle) ==> JobRow::matches_needle(v, needle)
            &&& crate::text::has_infix(crate::text::lowercase(v.status_summary), needle) ==> JobRow::matches_needle(v, needle)
            &&& JobRow::matches_needle(v, needle) && needle.len() > 0 ==> {
                ||| crate::text::has_infix(crate::text::lowercase(v.name), needle)
                ||| crate::text::has_infix(crate::text::lowercase(v.namespace), needle)
                ||| crate::text::has_infix(crate::text::lowercase(v.selector), needle)
                ||| crate::text::has_infix(crate::text::lowercase(v.images), needle)
                ||| crate::text::has_infix(crate::text::lowercase(v.conditions), needle)
                ||| crate::text::has_infix(crate::text::lowercase(v.status_summary), needle)
            }
        }),
{
}
/// A job's row reads its manifest: the succeeded, failed and active
/// counts of `status` (0 when missing), completions as succeeded over
/// `spec.completions` (`N/A` when missing), the status summary of those
/// counts, the selector of `spec.selector.matchLabels`, a duration only
/// when both `status.startTime` and `status.completionTime` are there, and
/// the key `namespace/name`.
pub proof fn law_job_row_reads_manifest(s: ResourceSummary, now: int)
    ensures
        ({
            let raw = s.raw;
            let row = job_row_spec(s, now);
            let count = |k: Seq<char>| match json_as_u64(crate::resource_panel::components::at2(Some(raw), "status"@, k)) {
                Some(n) => n as nat,
                None => 0nat,
            };
            let succeeded = count("succeeded"@);
            let failed = count("failed"@);
            let active = count("active"@);
            &&& row.succeeded == decimal(succeeded)
            &&& row.failed == decimal(failed)
            &&& row.active == decimal(active)
            &&& row.completions == decimal(succeeded) + "/"@ + match json_as_u64(crate::resource_panel::components::at2(Some(raw), "spec"@, "completions"@)) {
                Some(d) => decimal(d as nat),
                None => "N/A"@,
            }
            &&& row.status_summary == "succeeded="@ + decimal(succeeded) + ", failed="@ + decimal(failed) + ", active="@
                + decimal(active)
            &&& row.selector == selector_label_spec(crate::resource_panel::components::at3(Some(raw), "spec"@, "selector"@, "matchLabels"@))
            &&& row.images == container_images_spec(raw)
            &&& row.conditions == condition_summary_spec(raw)
            &&& row.age == age_spec(raw, now)
            &&& row.key == row.namespace + "/"@ + row.name
            &&& match (json_as_str(crate::resource_panel::components::at2(Some(raw), "status"@, "startTime"@)), json_as_str(crate::resource_panel::components::at2(Some(raw), "status"@, "completionTime"@))) {
                (Some(a), Some(b)) => match (rfc3339_seconds_in_range(a), rfc3339_seconds_in_range(b)) {
                    (Some(x), Some(y)) => row.duration == human_duration(elapsed_seconds(x, y)),
                    _ => row.duration == "N/A"@,
                },
                _ => row.duration == "N/A"@,
            }
        }),
{
    reveal_strlit("N/A");
    reveal_strlit("/");
    reveal_strlit("succeeded=");
    reveal_strlit(", failed=");
    reveal_strlit(", active=");
}
} // verus!
