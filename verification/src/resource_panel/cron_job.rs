//! The CronJobs panel: one row per cron job, with schedule, suspension,
//! active jobs, last runs and concurrency policy.
use vstd::prelude::*;
use crate::resource_panel::state::{keys_distinct, law_upsert_keeps_table, row_keys};
use crate::resource_panel::table::upsert_views;
use crate::resource_panel::describe::{WorkloadDescribeDialog, cron_job_describe_from_row, cron_job_describe_ok};
use crate::json::{JsonValue, json_as_array, json_as_bool, json_as_str, opt_text};
use crate::resource_panel::{
    ClusterId, ResourceActionKind, ResourceActionOutcome, ResourceDeleteTarget, ResourceEvent,
    ResourceList, ResourceLoadKind, ResourceLoadRequest, ResourceRef, ResourceSummary,
    ResourceUiEvent, ResourceWatchRequest, opt_view, texts_view,
};
use crate::resource_panel::components::{
    ManifestViewDialog, ResourceMetadata, ResourceRowTarget, age_spec, age_text, array_of,
    field_has, field_matches, member, member_of, na, na_text, name_of_summary,
    namespace_of_summary, namespace_value, namespace_value_spec, or_empty, or_na, slash_join,
    slash_key, summary_name, summary_namespace, text_of, text_or_empty, text_or_na,
};
use crate::resource_panel::job::{namespace_name_before, namespace_name_less};
use crate::resource_panel::state::{
    ActionEffect, ActionResult, PanelRow, PanelState, list_names_result, names_of_load, names_of_watch,
    watch_names_result,
};
use crate::resource_panel::table::{TableRow, sort_rows, sort_views, views};
use crate::text::{decimal, push_decimal, push_str, u64_to_string};


verus! {

/// A row of the CronJobs table.
pub struct CronJobRow {
    pub key: String,
    pub name: String,
    pub namespace: String,
    pub schedule: String,
    pub suspend: String,
    pub active: String,
    pub last_schedule: String,
    pub last_success: String,
    pub concurrency: String,
    pub status_summary: String,
    pub age: String,
    pub raw: JsonValue,
}

/// What a cron job row shows.
pub ghost struct CronJobRowView {
    pub key: Seq<char>,
    pub name: Seq<char>,
    pub namespace: Seq<char>,
    pub schedule: Seq<char>,
    pub suspend: Seq<char>,
    pub active: Seq<char>,
    pub last_schedule: Seq<char>,
    pub last_success: Seq<char>,
    pub concurrency: Seq<char>,
    pub status_summary: Seq<char>,
    pub age: Seq<char>,
    pub raw: JsonValue,
}

impl View for CronJobRow {
    type V = CronJobRowView;

    open spec fn view(&self) -> CronJobRowView {
        CronJobRowView {
            key: self.key@,
            name: self.name@,
            namespace: self.namespace@,
            schedule: self.schedule@,
            suspend: self.suspend@,
            active: self.active@,
            last_schedule: self.last_schedule@,
            last_success: self.last_success@,
            concurrency: self.concurrency@,
            status_summary: self.status_summary@,
            age: self.age@,
            raw: self.raw,
        }
    }
}

impl TableRow for CronJobRow {
    open spec fn key_of(v: CronJobRowView) -> Seq<char> {
        v.key
    }

    open spec fn ordered_before(a: CronJobRowView, b: CronJobRowView) -> bool {
        namespace_name_before(a.namespace, a.name, b.namespace, b.name)
    }

    fn row_key(&self) -> (r: &str) {
        self.key.as_str()
    }

    fn before(&self, other: &Self) -> (r: bool) {
        namespace_name_less(self.namespace.as_str(), self.name.as_str(), other.namespace.as_str(), other.name.as_str())
    }
}

impl PanelRow for CronJobRow {
    open spec fn namespace_of(v: CronJobRowView) -> Option<Seq<char>> {
        namespace_value_spec(v.namespace)
    }

    open spec fn name_of(v: CronJobRowView) -> Seq<char> {
        v.name
    }

    open spec fn matches_needle(v: CronJobRowView, needle: Seq<char>) -> bool {
        ||| needle.len() == 0
        ||| field_matches(v.name, needle)
        ||| field_matches(v.namespace, needle)
        ||| field_matches(v.schedule, needle)
        ||| field_matches(v.suspend, needle)
        ||| field_matches(v.concurrency, needle)
        ||| field_matches(v.status_summary, needle)
    }

    proof fn lemma_empty_needle_matches(v: CronJobRowView) {
    }

    fn target(&self) -> (r: ResourceRowTarget) {
        ResourceRowTarget { key: self.key.clone(), namespace: namespace_value(self.namespace.as_str()), name: self.name.clone() }
    }

    fn matches(&self, needle: &str) -> (r: bool) {
        crate::resource_panel::components::char_count(needle) == 0
            || field_has(self.name.as_str(), needle)
            || field_has(self.namespace.as_str(), needle)
            || field_has(self.schedule.as_str(), needle)
            || field_has(self.suspend.as_str(), needle)
            || field_has(self.concurrency.as_str(), needle)
            || field_has(self.status_summary.as_str(), needle)
    }
}

/// `namespace/name`, the key of a cron job row.
pub fn cron_job_key(namespace: &str, name: &str) -> (r: String)
    ensures
        r@ == slash_key(namespace@, name@),
{
    slash_join(namespace, name)
}

/// `schedule=<schedule>, active=<n>, concurrency=<policy>`.
pub open spec fn cron_job_status_spec(schedule: Seq<char>, active: nat, concurrency: Seq<char>) -> Seq<char> {
    "schedule="@ + schedule + ", active="@ + decimal(active) + ", concurrency="@ + concurrency
}

/// `schedule=<schedule>, active=<n>, concurrency=<policy>`.
pub fn cron_job_status_summary(schedule: &str, active: usize, concurrency: &str) -> (r: String)
    ensures
        r@ == cron_job_status_spec(schedule@, active as nat, concurrency@),
{
    let mut s = String::new();
    push_str(&mut s, "schedule=");
    push_str(&mut s, schedule);
    push_str(&mut s, ", active=");
    push_decimal(&mut s, active as u64);
    push_str(&mut s, ", concurrency=");
    push_str(&mut s, concurrency);
    s
}

/// `<section>.<key>` of a manifest, when it is a string.
pub open spec fn section_text(raw: JsonValue, section: Seq<char>, key: Seq<char>) -> Option<Seq<char>> {
    json_as_str(member(member(Some(raw), section), key))
}

/// `true`, `false`, or `"N/A"` when the flag is missing.
pub open spec fn flag_text(b: Option<bool>) -> Seq<char> {
    match b {
        Some(true) => "true"@,
        Some(false) => "false"@,
        None => na_text(),
    }
}

/// The number of jobs in `status.active`, 0 when it is not a list.
pub open spec fn active_count(raw: JsonValue) -> nat {
    match json_as_array(member(member(Some(raw), "status"@), "active"@)) {
        Some(items) => items.len(),
        None => 0,
    }
}

/// The row a listed cron job is shown as, at time `now`.
pub open spec fn cron_job_row_spec(s: ResourceSummary, now: int) -> CronJobRowView {
    let raw = s.raw;
    let name = summary_name(s);
    let namespace = summary_namespace(s);
    let schedule = or_na(section_text(raw, "spec"@, "schedule"@));
    let concurrency = or_na(section_text(raw, "spec"@, "concurrencyPolicy"@));
    CronJobRowView {
        key: slash_key(namespace, name),
        name,
        namespace,
        schedule,
        suspend: flag_text(json_as_bool(member(member(Some(raw), "spec"@), "suspend"@))),
        active: decimal(active_count(raw)),
        last_schedule: or_na(section_text(raw, "status"@, "lastScheduleTime"@)),
        last_success: or_na(section_text(raw, "status"@, "lastSuccessfulTime"@)),
        concurrency,
        status_summary: cron_job_status_spec(schedule, active_count(raw), concurrency),
        age: age_spec(raw, now),
        raw,
    }
}

impl CronJobRow {
    /// The row a listed cron job is shown as, at time `now` (seconds since
    /// the Unix epoch, for the age).
    pub fn from_summary(summary: ResourceSummary, now: i64) -> (r: CronJobRow)
        ensures
            r@ == cron_job_row_spec(summary, now as int),
    {
        let name = name_of_summary(&summary);
        let namespace = namespace_of_summary(&summary);
        let raw = &summary.raw;
        let spec = raw.get("spec");
        let status = raw.get("status");
        let schedule = text_or_na(text_of(member_of(spec, "schedule")));
        let suspend = match member_of(spec, "suspend") {
            Some(v) => match v.as_bool() {
                Some(true) => "true".to_owned(),
                Some(false) => "false".to_owned(),
                None => na(),
            },
            None => na(),
        };
        let active: usize = match array_of(member_of(status, "active")) {
            Some(items) => items.len(),
            None => 0,
        };
        let last_schedule = text_or_na(text_of(member_of(status, "lastScheduleTime")));
        let last_success = text_or_na(text_of(member_of(status, "lastSuccessfulTime")));
        let concurrency = text_or_na(text_of(member_of(spec, "concurrencyPolicy")));
        let key = cron_job_key(namespace.as_str(), name.as_str());
        let status_summary = cron_job_status_summary(schedule.as_str(), active, concurrency.as_str());
        let age = age_text(raw, now);
        proof {
            reveal_strlit("true");
            reveal_strlit("false");
        }
        CronJobRow {
            key,
            name,
            namespace,
            schedule,
            suspend,
            active: u64_to_string(active as u64),
            last_schedule,
            last_success,
            concurrency,
            status_summary,
            age,
            raw: summary.raw,
        }
    }

    /// The object a delete of this row acts on.
    pub fn delete_target(&self) -> (r: ResourceDeleteTarget)
        ensures
            opt_view(r.namespace) == namespace_value_spec(self.namespace@),
            r.name@ == self.name@,
    {
        ResourceDeleteTarget { namespace: namespace_value(self.namespace.as_str()), name: self.name.clone() }
    }
}

/// The rows of a cron job list in table order.
pub open spec fn cron_job_rows_spec(items: Seq<ResourceSummary>, now: int) -> Seq<CronJobRowView> {
    sort_views::<CronJobRow>(items.map_values(|s: ResourceSummary| cron_job_row_spec(s, now)))
}

/// The rows of a cron job list, sorted by namespace and then name.
pub fn cron_job_rows_from_list(items: Vec<ResourceSummary>, now: i64) -> (r: Vec<CronJobRow>)
    ensures
        views(r@) == cron_job_rows_spec(items@, now as int),
{
    let ghost all = items@.map_values(|s: ResourceSummary| cron_job_row_spec(s, now as int));
    let mut src = items;
    let mut rows: Vec<CronJobRow> = Vec::new();
    let mut k: usize = 0;
    assert(all.len() == src.len());
    assert forall|j: int| 0 <= j < src@.len() implies cron_job_row_spec(#[trigger] src@[j], now as int) == all[0 + j] by {}
    while src.len() > 0
        invariant
            k <= all.len(),
            all.len() <= usize::MAX,
            src@.len() == all.len() - k,
            forall|j: int| 0 <= j < src@.len() ==> cron_job_row_spec(#[trigger] src@[j], now as int) == all[k + j],
            views(rows@) == all.take(k as int),
        decreases src@.len(),
    {
        let ghost before = src@;
        let item = src.remove(0);
        assert(cron_job_row_spec(item, now as int) == all[k as int]);
        assert forall|j: int| 0 <= j < src@.len() implies cron_job_row_spec(#[trigger] src@[j], now as int) == all[k + 1 + j] by {
            assert(src@[j] == before[j + 1]);
        }
        let row = CronJobRow::from_summary(item, now);
        let ghost rows_before = rows@;
        rows.push(row);
        assert(views(rows@) =~= views(rows_before).push(row@));
        assert(views(rows@) =~= all.take(k + 1));
        k = k + 1;
    }
    assert(all.take(k as int) =~= all);
    sort_rows(rows)
}

/// The CronCronJobs panel's description of what it shows.
pub fn cron_job_metadata() -> (r: ResourceMetadata)
    ensures
        r.id@ == "cron_job"@,
        r.title@ == "CronJobs"@,
        r.api_version@ == "batch/v1"@,
        r.kind@ == "CronJob"@,
        opt_view(r.resource.group) == Some("batch"@),
        r.resource.version@ == "v1"@,
        r.resource.plural@ == "cronjobs"@,
        r.resource.namespaced,
        r.namespaced,
{
    ResourceMetadata {
        id: "cron_job".to_owned(),
        title: "CronJobs".to_owned(),
        api_version: "batch/v1".to_owned(),
        kind: "CronJob".to_owned(),
        resource: ResourceRef::grouped("batch", "v1", "cronjobs"),
        namespaced: true,
    }
}

/// The cron job resource: `batch/v1 cronjobs`, namespaced.
pub open spec fn is_cron_job_resource(r: ResourceRef) -> bool {
    &&& opt_view(r.group) == Some("batch"@)
    &&& r.version@ == "v1"@
    &&& r.plural@ == "cronjobs"@
    &&& r.namespaced
}

/// The key of the row a delete removes: only a delete of a cron job has one.
pub open spec fn deleted_cron_job_key(kind: ResourceActionKind) -> Option<Seq<char>> {
    match kind {
        ResourceActionKind::DeleteResource { resource, namespace, name } =>
            if is_cron_job_resource(resource) {
                Some(slash_key(or_empty(opt_view(namespace)), name@))
            } else {
                None
            },
        _ => None,
    }
}

/// The keys of the rows a batch delete removes.
pub open spec fn batch_cron_job_keys(targets: Seq<ResourceDeleteTarget>) -> Seq<Seq<char>> {
    targets.map_values(|t: ResourceDeleteTarget| slash_key(or_empty(opt_view(t.namespace)), t.name@))
}

/// What an action's result means for the CronJobs table at time `now`.
pub open spec fn cron_job_action_effect(
    kind: ResourceActionKind,
    result: Result<ResourceActionOutcome, String>,
    now: int,
) -> ActionEffect<CronJobRowView> {
    match result {
        Ok(ResourceActionOutcome::Applied(summary)) => ActionEffect::Applied(cron_job_row_spec(summary, now)),
        Ok(ResourceActionOutcome::Deleted) => ActionEffect::Deleted(deleted_cron_job_key(kind)),
        Ok(ResourceActionOutcome::BatchDeleted(targets)) => ActionEffect::BatchDeleted(batch_cron_job_keys(targets@)),
        Ok(ResourceActionOutcome::Patched(_)) => ActionEffect::Unchanged,
        Ok(ResourceActionOutcome::Evicted) => ActionEffect::Unchanged,
        Err(e) => ActionEffect::Failed(e),
    }
}

/// The keys of the rows a batch delete removes.
pub fn cron_job_batch_keys(targets: &Vec<ResourceDeleteTarget>) -> (r: Vec<String>)
    ensures
        texts_view(r@) == batch_cron_job_keys(targets@),
{
    let mut out: Vec<String> = Vec::new();
    let mut i: usize = 0;
    while i < targets.len()
        invariant
            i <= targets@.len(),
            texts_view(out@) == batch_cron_job_keys(targets@).take(i as int),
        decreases targets@.len() - i,
    {
        let t = &targets[i];
        let key = cron_job_key(text_or_empty(&t.namespace), t.name.as_str());
        let ghost before = out@;
        out.push(key);
        assert(texts_view(out@) =~= texts_view(before).push(key@));
        assert(texts_view(out@) =~= batch_cron_job_keys(targets@).take(i + 1));
        i = i + 1;
    }
    assert(batch_cron_job_keys(targets@).take(i as int) =~= batch_cron_job_keys(targets@));
    out
}

/// The cron job action result as the panel takes it.
pub fn cron_job_action_result(kind: ResourceActionKind, result: Result<ResourceActionOutcome, String>, now: i64) -> (r: ActionResult<CronJobRow>)
    ensures
        crate::resource_panel::state::action_effect::<CronJobRow>(r) == cron_job_action_effect(kind, result, now as int),
{
    match result {
        Ok(ResourceActionOutcome::Applied(summary)) => ActionResult::Applied(CronJobRow::from_summary(summary, now)),
        Ok(ResourceActionOutcome::Deleted) => {
            match kind {
                ResourceActionKind::DeleteResource { resource, namespace, name } => {
                    let metadata = cron_job_metadata();
                    if resource.same(&metadata.resource) {
                        ActionResult::Deleted(Some(cron_job_key(text_or_empty(&namespace), name.as_str())))
                    } else {
                        ActionResult::Deleted(None)
                    }
                },
                _ => ActionResult::Deleted(None),
            }
        },
        Ok(ResourceActionOutcome::BatchDeleted(targets)) => ActionResult::BatchDeleted(cron_job_batch_keys(&targets)),
        Ok(ResourceActionOutcome::Patched(_)) => ActionResult::Unchanged,
        Ok(ResourceActionOutcome::Evicted) => ActionResult::Unchanged,
        Err(e) => ActionResult::Failed(e),
    }
}


/// The CronCronJobs panel.
pub struct CronJobResourcePanel {
    pub state: PanelState<CronJobRow>,
    pub view_dialog: Option<ManifestViewDialog>,
    pub describe_dialog: Option<WorkloadDescribeDialog>,
}

/// The cron job rows of a list answer at time `now`.
pub open spec fn cron_job_load_rows(result: Result<ResourceList, String>, now: int) -> Result<Seq<CronJobRowView>, String> {
    match result {
        Ok(list) => Ok(cron_job_rows_spec(list.items@, now)),
        Err(e) => Err(e),
    }
}

/// The cron job rows of a watch answer at time `now`: only a snapshot has rows.
pub open spec fn cron_job_watch_rows(result: Result<ResourceEvent, String>, now: int) -> Result<Option<Seq<CronJobRowView>>, String> {
    match result {
        Ok(ResourceEvent::Snapshot(list)) => Ok(Some(cron_job_rows_spec(list.items@, now))),
        Ok(_) => Ok(None),
        Err(e) => Err(e),
    }
}

/// What an answer does to the CronJobs panel's state at time `now`: namespace
/// answers update the namespace list whoever asked; cron job answers go through
/// the request checks; action results through the action checks; anything
/// else changes nothing.
pub open spec fn cron_job_event_post(old: PanelState<CronJobRow>, new: PanelState<CronJobRow>, event: ResourceUiEvent, now: int) -> bool {
    match event {
        ResourceUiEvent::ResourcesLoaded { request, result } => match request.kind {
            ResourceLoadKind::Namespaces =>
                PanelState::<CronJobRow>::namespace_load_post(old, new, request.request_id, list_names_result(result)),
            ResourceLoadKind::CronJobs { .. } =>
                PanelState::<CronJobRow>::rows_load_post(old, new, request.request_id, cron_job_load_rows(result, now)),
            _ => new == old,
        },
        ResourceUiEvent::ResourceWatchUpdated { request, result } => match request.kind {
            ResourceLoadKind::Namespaces =>
                PanelState::<CronJobRow>::namespace_watch_post(old, new, request.request_id, watch_names_result(result)),
            ResourceLoadKind::CronJobs { .. } =>
                PanelState::<CronJobRow>::rows_watch_post(old, new, request.request_id, cron_job_watch_rows(result, now)),
            _ => new == old,
        },
        ResourceUiEvent::ResourceActionCompleted { request, result } =>
            PanelState::<CronJobRow>::action_post(old, new, request.request_id, cron_job_action_effect(request.kind, result, now)),
        _ => new == old,
    }
}

impl CronJobResourcePanel {
    /// The panel's invariant.
    pub open spec fn wf(&self) -> bool {
        self.state.wf()
    }

    /// An empty panel.
    pub fn new() -> (r: CronJobResourcePanel)
        ensures
            r.wf(),
            r.state.is_initial(),
            r.state.next_request_id == 0,
            r.state.last_cluster_id is None,
            r.view_dialog is None,
            r.describe_dialog is None,
    {
        CronJobResourcePanel { state: PanelState::new(), view_dialog: None, describe_dialog: None }
    }

    /// Takes an answer; `now` (seconds since the Unix epoch) dates the ages
    /// of new rows.
    pub fn apply_event(&mut self, event: ResourceUiEvent, now: i64)
        requires
            old(self).wf(),
        ensures
            final(self).wf(),
            cron_job_event_post(old(self).state, final(self).state, event, now as int),
            final(self).view_dialog == old(self).view_dialog,
            final(self).describe_dialog == old(self).describe_dialog,
    {
        match event {
            ResourceUiEvent::ResourcesLoaded { request, result } => {
                let id = request.request_id;
                match request.kind {
                    ResourceLoadKind::Namespaces => self.state.apply_namespace_load(id, names_of_load(result)),
                    ResourceLoadKind::CronJobs { .. } => {
                        let rows = match result {
                            Ok(list) => Ok(cron_job_rows_from_list(list.items, now)),
                            Err(e) => Err(e),
                        };
                        self.state.apply_rows_load(id, rows);
                    },
                    _ => {},
                }
            },
            ResourceUiEvent::ResourceWatchUpdated { request, result } => {
                let id = request.request_id;
                match request.kind {
                    ResourceLoadKind::Namespaces => self.state.apply_namespace_watch(id, names_of_watch(result)),
                    ResourceLoadKind::CronJobs { .. } => {
                        let rows = match result {
                            Ok(ResourceEvent::Snapshot(list)) => Ok(Some(cron_job_rows_from_list(list.items, now))),
                            Ok(_) => Ok(None),
                            Err(e) => Err(e),
                        };
                        self.state.apply_rows_watch(id, rows);
                    },
                    _ => {},
                }
            },
            ResourceUiEvent::ResourceActionCompleted { request, result } => {
                let id = request.request_id;
                let outcome = cron_job_action_result(request.kind, result, now);
                self.state.apply_action_result(id, outcome);
            },
            _ => {},
        }
    }

    /// Forgets the previous cluster's rows, requests and dialogs when shown
    /// for another cluster.
    pub fn reset_for_cluster_change(&mut self, cluster_id: &ClusterId)
        requires
            old(self).wf(),
        ensures
            final(self).wf(),
            crate::resource_panel::state::cluster_view(old(self).state.last_cluster_id) == Some(cluster_id.id@)
                ==> *final(self) == *old(self),
            crate::resource_panel::state::cluster_view(old(self).state.last_cluster_id) != Some(cluster_id.id@) ==> {
                &&& final(self).state.is_initial()
                &&& crate::resource_panel::state::cluster_view(final(self).state.last_cluster_id) == Some(cluster_id.id@)
                &&& final(self).state.next_request_id == old(self).state.next_request_id
                &&& final(self).view_dialog is None
                &&& final(self).describe_dialog is None
            },
    {
        let same = match &self.state.last_cluster_id {
            Some(last) => last.same(cluster_id),
            None => false,
        };
        if same {
            return;
        }
        self.state.reset_for_cluster_change(cluster_id);
        self.view_dialog = None;
        self.describe_dialog = None;
    }

    /// A cron job list request for the selected namespace; it becomes the
    /// current one.
    pub fn request_cronjobs(&mut self, cluster_id: ClusterId) -> (r: ResourceLoadRequest)
        requires
            old(self).wf(),
            old(self).state.next_request_id < u64::MAX,
        ensures
            final(self).wf(),
            r.request_id == old(self).state.next_request_id + 1,
            r.cluster_id == cluster_id,
            r.kind matches ResourceLoadKind::CronJobs { namespace } && opt_view(namespace) == opt_view(old(self).state.namespace_filter),
            final(self).state.next_request_id == r.request_id,
            final(self).state.row_request_id == Some(r.request_id),
            final(self).state.row_status == crate::resource_panel::LoadStatus::Loading,
            final(self).state.rows == old(self).state.rows,
            final(self).state.selected_rows == old(self).state.selected_rows,
            final(self).view_dialog == old(self).view_dialog,
            final(self).describe_dialog == old(self).describe_dialog,
    {
        let id = self.state.begin_row_load();
        ResourceLoadRequest {
            request_id: id,
            cluster_id,
            kind: ResourceLoadKind::CronJobs { namespace: crate::resource_panel::copy_opt_text(&self.state.namespace_filter) },
        }
    }

    /// The namespace watch; it becomes the current one.
    pub fn request_namespace_watch(&mut self, cluster_id: ClusterId) -> (r: ResourceWatchRequest)
        requires
            old(self).wf(),
            old(self).state.next_request_id < u64::MAX,
        ensures
            final(self).wf(),
            r.request_id == old(self).state.next_request_id + 1,
            r.cluster_id == cluster_id,
            r.kind == ResourceLoadKind::Namespaces,
            final(self).state.next_request_id == r.request_id,
            final(self).state.namespace_watch_request_id == Some(r.request_id),
            final(self).state.namespace_status == crate::resource_panel::LoadStatus::Loading,
            final(self).state.same_rows(&old(self).state),
            final(self).view_dialog == old(self).view_dialog,
            final(self).describe_dialog == old(self).describe_dialog,
    {
        let id = self.state.begin_namespace_watch();
        ResourceWatchRequest { request_id: id, cluster_id, kind: ResourceLoadKind::Namespaces }
    }

    /// The cron job watch for the selected namespace; it becomes the current one.
    pub fn request_cron_job_watch(&mut self, cluster_id: ClusterId) -> (r: ResourceWatchRequest)
        requires
            old(self).wf(),
            old(self).state.next_request_id < u64::MAX,
        ensures
            final(self).wf(),
            r.request_id == old(self).state.next_request_id + 1,
            r.cluster_id == cluster_id,
            r.kind matches ResourceLoadKind::CronJobs { namespace } && opt_view(namespace) == opt_view(old(self).state.namespace_filter),
            final(self).state.next_request_id == r.request_id,
            final(self).state.row_watch_request_id == Some(r.request_id),
            final(self).state.row_status == crate::resource_panel::LoadStatus::Loading,
            final(self).state.rows == old(self).state.rows,
            final(self).state.selected_rows == old(self).state.selected_rows,
            final(self).view_dialog == old(self).view_dialog,
            final(self).describe_dialog == old(self).describe_dialog,
    {
        let id = self.state.begin_row_watch();
        ResourceWatchRequest {
            request_id: id,
            cluster_id,
            kind: ResourceLoadKind::CronJobs { namespace: crate::resource_panel::copy_opt_text(&self.state.namespace_filter) },
        }
    }

    /// Opens the view dialog of the row with `key` on its manifest's YAML;
    /// nothing happens when no row has the key.
    pub fn open_view_dialog(&mut self, key: &str, yaml: String)
        requires
            old(self).wf(),
        ensures
            final(self).wf(),
            final(self).state == old(self).state,
            final(self).describe_dialog == old(self).describe_dialog,
            match crate::resource_panel::table::key_index::<CronJobRow>(views(old(self).state.rows@), key@) {
                Some(i) => final(self).view_dialog matches Some(d) && d.key@ == key@
                    && d.name@ == views(old(self).state.rows@)[i].name && d.yaml == yaml,
                None => final(self).view_dialog == old(self).view_dialog,
            },
    {
        proof {
            crate::resource_panel::state::lemma_key_index::<CronJobRow>(views(self.state.rows@), key@);
        }
        match self.state.row_index(key) {
            Some(i) => {
                assert(views(self.state.rows@)[i as int] == self.state.rows@[i as int]@);
                let name = self.state.rows[i].name.clone();
                self.view_dialog = Some(ManifestViewDialog { key: key.to_owned(), name, yaml });
            },
            None => {},
        }
    }

    /// Opens the describe window of the row with `key`; `raw_yaml` is its
    /// manifest as YAML.  Nothing happens when no row has the key.
    pub fn open_describe_dialog(&mut self, key: &str, raw_yaml: String)
        requires
            old(self).wf(),
        ensures
            final(self).wf(),
            final(self).state == old(self).state,
            final(self).view_dialog == old(self).view_dialog,
            match crate::resource_panel::table::key_index::<CronJobRow>(views(old(self).state.rows@), key@) {
                Some(i) => final(self).describe_dialog matches Some(d) && d.key@ == key@
                    && d.name@ == views(old(self).state.rows@)[i].name
                    && cron_job_describe_ok(d.describe, views(old(self).state.rows@)[i], raw_yaml@),
                None => final(self).describe_dialog == old(self).describe_dialog,
            },
    {
        proof {
            crate::resource_panel::state::lemma_key_index::<CronJobRow>(views(self.state.rows@), key@);
        }
        match self.state.row_index(key) {
            Some(i) => {
                assert(views(self.state.rows@)[i as int] == self.state.rows@[i as int]@);
                let name = self.state.rows[i].name.clone();
                let describe = cron_job_describe_from_row(&self.state.rows[i], raw_yaml);
                self.describe_dialog = Some(WorkloadDescribeDialog { key: key.to_owned(), name, describe });
            },
            None => {},
        }
    }

    /// The delete targets of the selected rows, in row order.
    pub fn selected_delete_targets(&self) -> (r: Vec<ResourceDeleteTarget>)
        ensures
            crate::resource_panel::components::delete_targets_view(r@)
                == crate::resource_panel::components::selected_targets_spec(
                    crate::resource_panel::state::row_targets::<CronJobRow>(views(self.state.rows@)),
                    self.state.selected_rows@,
                ),
    {
        self.state.selected_delete_targets()
    }
}

/// Every cron job list is shown in table order, and shows each listed object
/// exactly once.
pub proof fn law_cron_job_rows_in_table_order(items: Seq<ResourceSummary>, now: int)
    ensures
        crate::resource_panel::table::in_table_order::<CronJobRow>(cron_job_rows_spec(items, now)),
        cron_job_rows_spec(items, now).to_multiset() == items.map_values(|s: ResourceSummary| cron_job_row_spec(s, now)).to_multiset(),
{
    let all = items.map_values(|s: ResourceSummary| cron_job_row_spec(s, now));
    let p = |v: CronJobRowView| true;
    assert forall|a: CronJobRowView| p(a) implies !CronJobRow::ordered_before(a, a) by {
        crate::resource_panel::job::lemma_namespace_name_irreflexive(a.namespace, a.name);
    }
    assert forall|a: CronJobRowView, b: CronJobRowView, c: CronJobRowView|
        p(a) && p(b) && p(c) && #[trigger] CronJobRow::ordered_before(a, b) && #[trigger] CronJobRow::ordered_before(b, c)
        implies CronJobRow::ordered_before(a, c) by {
        crate::resource_panel::job::lemma_namespace_name_transitive(a.namespace, a.name, b.namespace, b.name, c.namespace, c.name);
    }
    assert forall|i: int| 0 <= i < all.len() implies p(#[trigger] all[i]) by {}
    crate::resource_panel::table::lemma_sort_views_in_order::<CronJobRow>(all, p);
    crate::resource_panel::state::lemma_sort_views_permutes::<CronJobRow>(all);
}
/// An applied or watched cron job replaces the row with its key, or is
/// added: the rows stay sorted by namespace and name with one row per
/// key, its row is the one row with its key, every other row stays, and
/// the table grows by one row exactly when the key is new.
pub proof fn law_cron_job_upsert_keeps_table(s: Seq<CronJobRowView>, row: CronJobRowView)
    requires
        keys_distinct::<CronJobRow>(s),
    ensures
        crate::resource_panel::table::in_table_order::<CronJobRow>(upsert_views::<CronJobRow>(s, row)),
        keys_distinct::<CronJobRow>(upsert_views::<CronJobRow>(s, row)),
        upsert_views::<CronJobRow>(s, row).contains(row),
        forall|i: int| 0 <= i < upsert_views::<CronJobRow>(s, row).len() && (#[trigger] upsert_views::<CronJobRow>(s, row)[i]).key == row.key
            ==> upsert_views::<CronJobRow>(s, row)[i] == row,
        forall|v: CronJobRowView| #[trigger] s.contains(v) && v.key != row.key ==> upsert_views::<CronJobRow>(s, row).contains(v),
        upsert_views::<CronJobRow>(s, row).len() == s.len() + if row_keys::<CronJobRow>(s).contains(row.key) { 0int } else { 1int },
{
    let p = |v: CronJobRowView| true;
    assert forall|a: CronJobRowView| p(a) implies !CronJobRow::ordered_before(a, a) by {
        crate::resource_panel::job::lemma_namespace_name_irreflexive(a.namespace, a.name);
    }
    assert forall|a: CronJobRowView, b: CronJobRowView, c: CronJobRowView|
        p(a) && p(b) && p(c) && #[trigger] CronJobRow::ordered_before(a, b) && #[trigger] CronJobRow::ordered_before(b, c)
        implies CronJobRow::ordered_before(a, c) by {
        crate::resource_panel::job::lemma_namespace_name_transitive(a.namespace, a.name, b.namespace, b.name, c.namespace, c.name);
    }
    law_upsert_keeps_table::<CronJobRow>(s, row, p);
}
/// The suspend column reads `spec.suspend`: `"true"` exactly when it is the
/// JSON value `true`, `"false"` exactly when it is `false`.
pub proof fn law_cron_job_suspend_column(s: ResourceSummary, now: int)
    ensures
        (cron_job_row_spec(s, now).suspend == "true"@)
            <==> crate::resource_panel::components::at2(Some(s.raw), "spec"@, "suspend"@) == Some(JsonValue::Bool(true)),
        (cron_job_row_spec(s, now).suspend == "false"@)
            <==> crate::resource_panel::components::at2(Some(s.raw), "spec"@, "suspend"@) == Some(JsonValue::Bool(false)),
{
    reveal_strlit("true");
    reveal_strlit("false");
    reveal_strlit("N/A");
    let t = cron_job_row_spec(s, now).suspend;
    if t == "true"@ {
        assert(t[0] == 't');
    }
    if t == "false"@ {
        assert(t[0] == 'f');
    }
}
/// A search finds a row by any of its name, namespace, schedule, suspend flag,
/// concurrency policy and status summary: when the search text,
/// trimmed and lower-cased, occurs in one of them lower-cased, the row
/// matches; and a row matches a non-blank search only that way.
pub proof fn law_cron_job_search_looks_at_every_column(v: CronJobRowView, search: Seq<char>)
    ensures
        ({
            let needle = crate::text::lowercase(crate::text::trim_seq(search));
            &&& crate::text::has_infix(crate::text::lowercase(v.name), needle) ==> CronJobRow::matches_needle(v, needle)
            &&& crate::text::has_infix(crate::text::lowercase(v.namespace), needle) ==> CronJobRow::matches_needle(v, needle)
            &&& crate::text::has_infix(crate::text::lowercase(v.schedule), needle) ==> CronJobRow::matches_needle(v, needle)
            &&& crate::text::has_infix(crate::text::lowercase(v.suspend), needle) ==> CronJobRow::matches_needle(v, needle)
            &&& crate::text::has_infix(crate::text::lowercase(v.concurrency), needle) ==> CronJobRow::matches_needle(v, needle)
            &&& crate::text::has_infix(crate::text::lowercase(v.status_summary), needle) ==> CronJobRow::matches_needle(v, needle)
            &&& CronJobRow::matches_needle(v, needle) && needle.len() > 0 ==> {
                ||| crate::text::has_infix(crate::text::lowercase(v.name), needle)
                ||| crate::text::has_infix(crate::text::lowercase(v.namespace), needle)
                ||| crate::text::has_infix(crate::text::lowercase(v.schedule), needle)
                ||| crate::text::has_infix(crate::text::lowercase(v.suspend), needle)
                ||| crate::text::has_infix(crate::text::lowercase(v.concurrency), needle)
                ||| crate::text::has_infix(crate::text::lowercase(v.status_summary), needle)
            }
        }),
{
}
/// A cron job's row reads its manifest: the schedule, concurrency policy
/// and last schedule and success times are the manifest's texts (`N/A`
/// when missing), the active count is the length of `status.active` (0
/// unless it is a list), and the status summary is made of those.
pub proof fn law_cron_job_row_reads_manifest(s: ResourceSummary, now: int)
    ensures
        ({
            let raw = s.raw;
            let row = cron_job_row_spec(s, now);
            let text = |a: Seq<char>, b: Seq<char>| match json_as_str(crate::resource_panel::components::at2(Some(raw), a, b)) {
                Some(t) => t,
                None => "N/A"@,
            };
            let active = match crate::resource_panel::components::at2(Some(raw), "status"@, "active"@) {
                Some(JsonValue::Array(items)) => items@.len(),
                _ => 0nat,
            };
            &&& row.schedule == text("spec"@, "schedule"@)
            &&& row.concurrency == text("spec"@, "concurrencyPolicy"@)
            &&& row.last_schedule == text("status"@, "lastScheduleTime"@)
            &&& row.last_success == text("status"@, "lastSuccessfulTime"@)
            &&& row.active == decimal(active)
            &&& row.status_summary == "schedule="@ + text("spec"@, "schedule"@) + ", active="@ + decimal(active)
                + ", concurrency="@ + text("spec"@, "concurrencyPolicy"@)
            &&& row.age == age_spec(raw, now)
            &&& row.key == row.namespace + "/"@ + row.name
        }),
{
    reveal_strlit("N/A");
    reveal_strlit("/");
    reveal_strlit("schedule=");
    reveal_strlit(", active=");
    reveal_strlit(", concurrency=");
}
} // verus!
